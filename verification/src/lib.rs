//! A polar clock: concentric arc gauges for second, minute, hour,
//! day-of-month and day-of-year, each rendered as an SVG annular sector
//! whose sweep follows the wall clock, with a staggered shrink animation
//! when a period rolls over.
//!
//! Fractional progress values are held as parts-per-million (`u32`) and
//! screen coordinates as thousandths of an SVG user unit (`i64`), so that
//! every rule of the clock is plain integer arithmetic.

pub mod arc;
pub mod clock;
pub mod svg;
pub mod text;
pub mod time;
pub mod vector;

pub use arc::{
    anim_delta, font_size, label_anchor, label_color, label_progress, label_radius, sector_path,
    AnimPhase, TimeArc, TimeArcMsg, ANIM_TICK_MS, PROGRESS_DEGREE, PROGRESS_HALF, PROGRESS_ONE,
};
pub use clock::{
    center, current_local_time, month_name, ordinal_suffix, view_box, PolarClock, RingSpec,
    ANIM_DELAY_MS, ANIM_DURATION_MS, ARC_WIDTH_MILLI, CENTER_MILLI, INNER_RADIUS_MILLI, SIZE_MILLI,
};
pub use svg::{ArcDef, PathData, PathSegment, coord_to_string, segment_to_string};
pub use text::{u64_to_string, u32_to_string};
pub use time::{DateTime, is_leap_year, day_of_year, max_day_of_year, days_in_month};
pub use vector::Vec2;
