//! SVG path data: an ordered sequence of draw commands and its exact
//! serialization to the text of a path `d` attribute.

use vstd::prelude::*;

use crate::text::{dec_text, digit_char, digit_str, u64_to_string};
use crate::vector::Vec2;

verus! {

/// The largest magnitude a coordinate may have to be serialized; a million
/// SVG user units, far beyond the canvas.
pub open spec fn coord_bounded(c: int) -> bool {
    -1_000_000_000 <= c <= 1_000_000_000
}

/// The decimal text of the fixed-point coordinate `c` (thousandths of a
/// unit): an optional sign, the integer part, and up to three fraction
/// digits with trailing zeros and an empty fraction left out.
pub open spec fn coord_text(c: int) -> Seq<char> {
    let a = if c < 0 {
        -c
    } else {
        c
    };
    (if c < 0 {
        seq!['-']
    } else {
        Seq::<char>::empty()
    }) + dec_text((a / 1000) as nat) + frac_text(a % 1000)
}

/// The fraction part of a coordinate's text: empty for zero, otherwise a
/// dot and the three fraction digits with trailing zeros removed.
pub open spec fn frac_text(f: int) -> Seq<char>
    recommends
        0 <= f < 1000,
{
    let d1 = digit_char(f / 100);
    let d2 = digit_char((f / 10) % 10);
    let d3 = digit_char(f % 10);
    if f == 0 {
        Seq::<char>::empty()
    } else if f % 10 != 0 {
        seq!['.', d1, d2, d3]
    } else if (f / 10) % 10 != 0 {
        seq!['.', d1, d2]
    } else {
        seq!['.', d1]
    }
}

/// The text of the fixed-point coordinate `c`.
pub fn coord_to_string(c: i64) -> (r: String)
    requires
        coord_bounded(c as int),
    ensures
        r@ == coord_text(c as int),
{
    proof {
        reveal_strlit("-");
        reveal_strlit(".");
    }
    let a: u64 = if c < 0 {
        (-c) as u64
    } else {
        c as u64
    };
    let mut s = if c < 0 {
        String::from_str("-")
    } else {
        String::new()
    };
    let int_part = u64_to_string(a / 1000);
    s.append(int_part.as_str());
    let f = a % 1000;
    if f != 0 {
        s.append(".");
        s.append(digit_str(f / 100));
        if f % 10 != 0 {
            s.append(digit_str((f / 10) % 10));
            s.append(digit_str(f % 10));
        } else if (f / 10) % 10 != 0 {
            s.append(digit_str((f / 10) % 10));
        }
    }
    proof {
        assert(s@ =~= coord_text(c as int));
    }
    s
}

/// The radii, axis rotation and direction flags of an SVG elliptical-arc
/// command. The rotation is fixed-point like a coordinate.
#[derive(Debug, Copy, Clone, PartialEq, Eq, Structural)]
pub struct ArcDef {
    pub radius: Vec2,
    pub x_axis_rotation: i64,
    pub large_arc_flag: bool,
    pub sweep_flag: bool,
}

/// One SVG path command. `Arc` carries its end point and its `ArcDef`.
#[derive(Debug, Copy, Clone, PartialEq, Eq, Structural)]
pub enum PathSegment {
    MoveTo(Vec2),
    LineTo(Vec2),
    Arc(Vec2, ArcDef),
    Close,
}

/// The flag digit of an SVG arc command.
pub open spec fn flag_text(b: bool) -> Seq<char> {
    if b {
        "1"@
    } else {
        "0"@
    }
}

/// Every coordinate of the segment is small enough to serialize.
pub open spec fn segment_bounded(s: PathSegment) -> bool {
    match s {
        PathSegment::MoveTo(p) => coord_bounded(p.x as int) && coord_bounded(p.y as int),
        PathSegment::LineTo(p) => coord_bounded(p.x as int) && coord_bounded(p.y as int),
        PathSegment::Arc(p, d) => coord_bounded(p.x as int) && coord_bounded(p.y as int)
            && coord_bounded(d.radius.x as int) && coord_bounded(d.radius.y as int)
            && coord_bounded(d.x_axis_rotation as int),
        PathSegment::Close => true,
    }
}

/// The text of one path command, in standard SVG syntax: `M x y`, `L x y`,
/// `A rx ry rot large-arc sweep x y`, or `Z`.
pub open spec fn segment_text(s: PathSegment) -> Seq<char> {
    match s {
        PathSegment::MoveTo(p) => "M "@ + coord_text(p.x as int) + " "@ + coord_text(p.y as int),
        PathSegment::LineTo(p) => "L "@ + coord_text(p.x as int) + " "@ + coord_text(p.y as int),
        PathSegment::Arc(p, d) => "A "@ + coord_text(d.radius.x as int) + " "@ + coord_text(
            d.radius.y as int,
        ) + " "@ + coord_text(d.x_axis_rotation as int) + " "@ + flag_text(d.large_arc_flag) + " "@
            + flag_text(d.sweep_flag) + " "@ + coord_text(p.x as int) + " "@ + coord_text(
            p.y as int,
        ),
        PathSegment::Close => "Z"@,
    }
}

/// The text of a command sequence: each command's text followed by a space.
pub open spec fn path_text(segs: Seq<PathSegment>) -> Seq<char>
    decreases segs.len(),
{
    if segs.len() == 0 {
        Seq::<char>::empty()
    } else {
        path_text(segs.drop_last()) + segment_text(segs.last()) + " "@
    }
}

/// The text of one path command.
pub fn segment_to_string(s: &PathSegment) -> (r: String)
    requires
        segment_bounded(*s),
    ensures
        r@ == segment_text(*s),
{
    proof {
        reveal_strlit("M ");
        reveal_strlit("L ");
        reveal_strlit("A ");
        reveal_strlit("Z");
        reveal_strlit(" ");
        reveal_strlit("1");
        reveal_strlit("0");
    }
    match s {
        PathSegment::MoveTo(p) => {
            let mut r = String::from_str("M ");
            r.append(coord_to_string(p.x).as_str());
            r.append(" ");
            r.append(coord_to_string(p.y).as_str());
            r
        },
        PathSegment::LineTo(p) => {
            let mut r = String::from_str("L ");
            r.append(coord_to_string(p.x).as_str());
            r.append(" ");
            r.append(coord_to_string(p.y).as_str());
            r
        },
        PathSegment::Arc(p, d) => {
            let mut r = String::from_str("A ");
            r.append(coord_to_string(d.radius.x).as_str());
            r.append(" ");
            r.append(coord_to_string(d.radius.y).as_str());
            r.append(" ");
            r.append(coord_to_string(d.x_axis_rotation).as_str());
            r.append(" ");
            r.append(if d.large_arc_flag {
                "1"
            } else {
                "0"
            });
            r.append(" ");
            r.append(if d.sweep_flag {
                "1"
            } else {
                "0"
            });
            r.append(" ");
            r.append(coord_to_string(p.x).as_str());
            r.append(" ");
            r.append(coord_to_string(p.y).as_str());
            proof {
                assert(r@ =~= segment_text(*s));
            }
            r
        },
        PathSegment::Close => String::from_str("Z"),
    }
}

/// An ordered sequence of path commands under construction. The view is
/// the sequence appended so far.
#[derive(Debug)]
pub struct PathData {
    segments: Vec<PathSegment>,
}

impl View for PathData {
    type V = Seq<PathSegment>;

    closed spec fn view(&self) -> Seq<PathSegment> {
        self.segments@
    }
}

impl PathData {
    /// An empty path with room for `capacity` commands.
    pub fn with_capacity(capacity: usize) -> (r: Self)
        ensures
            r@ == Seq::<PathSegment>::empty(),
    {
        Self { segments: Vec::with_capacity(capacity) }
    }

    /// Append a move command.
    pub fn move_to(&mut self, point: Vec2)
        ensures
            final(self)@ == old(self)@.push(PathSegment::MoveTo(point)),
    {
        self.segments.push(PathSegment::MoveTo(point));
    }

    /// Append a line command.
    pub fn line_to(&mut self, point: Vec2)
        ensures
            final(self)@ == old(self)@.push(PathSegment::LineTo(point)),
    {
        self.segments.push(PathSegment::LineTo(point));
    }

    /// Append an elliptical-arc command ending at `point`.
    pub fn arc_to(&mut self, point: Vec2, def: ArcDef)
        ensures
            final(self)@ == old(self)@.push(PathSegment::Arc(point, def)),
    {
        self.segments.push(PathSegment::Arc(point, def));
    }

    /// Append a close command.
    pub fn close(&mut self)
        ensures
            final(self)@ == old(self)@.push(PathSegment::Close),
    {
        self.segments.push(PathSegment::Close);
    }

    /// The number of commands appended so far.
    pub fn len(&self) -> (r: usize)
        ensures
            r == self@.len(),
    {
        self.segments.len()
    }

    /// The serialized path: the text of each command followed by a space.
    pub fn to_text(&self) -> (r: String)
        requires
            forall|i: int| 0 <= i < self@.len() ==> segment_bounded(#[trigger] self@[i]),
        ensures
            r@ == path_text(self@),
    {
        proof {
            reveal_strlit(" ");
        }
        let mut r = String::new();
        let n = self.segments.len();
        let mut i: usize = 0;
        while i < n
            invariant
                n == self@.len(),
                i <= n,
                r@ == path_text(self@.take(i as int)),
                forall|j: int| 0 <= j < self@.len() ==> segment_bounded(#[trigger] self@[j]),
            decreases n - i,
        {
            let seg = self.segments[i];
            r.append(segment_to_string(&seg).as_str());
            r.append(" ");
            proof {
                assert(self@.take(i + 1).drop_last() =~= self@.take(i as int));
                assert(self@.take(i + 1).last() == self@[i as int]);
                assert(r@ =~= path_text(self@.take(i + 1)));
            }
            i += 1;
        }
        proof {
            assert(self@.take(n as int) =~= self@);
        }
        r
    }
}

} // verus!
