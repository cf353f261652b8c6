//! Pure terminal-cell geometry: rectangles, centering under axis
//! constraints, and vertical padding for fixed-height text blocks.
use vstd::prelude::*;

verus! {

/// A rectangle of character cells, measured from the top-left corner of the
/// terminal. Mirrors the usual terminal-UI convention: `x` grows rightward,
/// `y` grows downward.
#[derive(Clone, Copy, PartialEq, Eq, Structural, Debug)]
pub struct Rect {
    pub x: u16,
    pub y: u16,
    pub width: u16,
    pub height: u16,
}

/// A rectangle is well formed when its far edges still fit in `u16`
/// coordinates, so that edge arithmetic cannot overflow.
pub open spec fn rect_wf(r: Rect) -> bool {
    &&& r.x + r.width <= u16::MAX
    &&& r.y + r.height <= u16::MAX
}

/// `b` lies entirely inside `a`.
pub open spec fn rect_contains(a: Rect, b: Rect) -> bool {
    &&& a.x <= b.x
    &&& a.y <= b.y
    &&& b.x + b.width <= a.x + a.width
    &&& b.y + b.height <= a.y + a.height
}

/// A sizing rule for one axis: an exact cell count, or a percentage of the
/// container's extent on that axis.
#[derive(Clone, Copy, PartialEq, Eq, Structural, Debug)]
pub enum Constraint {
    Length(u16),
    Percentage(u16),
}

/// The extent a constraint resolves to inside a container of extent `total`:
/// an exact length is clamped to `total`; a percentage takes the floored
/// share of `total`, with percentages above one hundred clamped to the whole.
pub open spec fn resolve_constraint(c: Constraint, total: u16) -> int {
    match c {
        Constraint::Length(l) => if l <= total { l as int } else { total as int },
        Constraint::Percentage(p) => if p <= 100 {
            (total as int * p as int) / 100
        } else {
            total as int
        },
    }
}

proof fn lemma_resolve_constraint_bounds(c: Constraint, total: u16)
    ensures
        0 <= resolve_constraint(c, total) <= total,
{
    match c {
        Constraint::Length(_) => {},
        Constraint::Percentage(p) => {
            if p <= 100 {
                assert(total as int * p as int <= total as int * 100) by (nonlinear_arith)
                    requires p <= 100, total >= 0;
                assert(total as int * 100 / 100 == total as int);
                vstd::arithmetic::div_mod::lemma_div_is_ordered(
                    total as int * p as int,
                    total as int * 100,
                    100,
                );
                assert(total as int * p as int >= 0) by (nonlinear_arith)
                    requires p >= 0, total >= 0;
            }
        },
    }
}

fn resolve(c: Constraint, total: u16) -> (r: u16)
    ensures
        r as int == resolve_constraint(c, total),
        r <= total,
{
    proof {
        lemma_resolve_constraint_bounds(c, total);
    }
    match c {
        Constraint::Length(l) => if l <= total {
            l
        } else {
            total
        },
        Constraint::Percentage(p) => if p <= 100 {
            ((total as u32 * p as u32) / 100) as u16
        } else {
            total
        },
    }
}

/// Centers a sub-rectangle inside `area`, sizing each axis independently by
/// its constraint. The slack on each axis is split evenly; when the slack is
/// odd, the spare cell goes after the rectangle (bias toward the end).
pub fn centered_rect(area: Rect, horizontal: Constraint, vertical: Constraint) -> (r: Rect)
    requires
        rect_wf(area),
    ensures
        rect_wf(r),
        rect_contains(area, r),
        r.width as int == resolve_constraint(horizontal, area.width),
        r.height as int == resolve_constraint(vertical, area.height),
        r.x - area.x == (area.width - r.width) as int / 2,
        r.y - area.y == (area.height - r.height) as int / 2,
{
    let width = resolve(horizontal, area.width);
    let height = resolve(vertical, area.height);
    Rect {
        x: area.x + (area.width - width) / 2,
        y: area.y + (area.height - height) / 2,
        width,
        height,
    }
}

/// The number of blank lines put before a text block of `num_lines` so that
/// it sits vertically centered in `total_height` rows: the floor of half the
/// slack, stepped down by one when `total_height` is even (and the floor is
/// positive), so that repeated renders of the same inputs never jitter.
pub open spec fn vertical_pad_spec(num_lines: int, total_height: int) -> int {
    let base = (total_height - num_lines) / 2;
    if total_height % 2 == 0 && base > 0 {
        base - 1
    } else {
        base
    }
}

/// Blank-line count that vertically centers `num_lines` rows of text within
/// `total_height` rows.
pub fn vertical_pad(num_lines: u16, total_height: u16) -> (r: u16)
    requires
        num_lines <= total_height,
    ensures
        r as int == vertical_pad_spec(num_lines as int, total_height as int),
        r <= total_height,
{
    let base = (total_height - num_lines) / 2;
    if total_height % 2 == 0 && base > 0 {
        base - 1
    } else {
        base
    }
}

/// Vertical padding is deterministic and never negative: for any block that
/// fits (`num_lines <= total_height`), the padding is a single well-defined
/// value between zero and `total_height`.
pub proof fn lemma_vertical_pad_no_jitter(num_lines: int, total_height: int)
    requires
        0 <= num_lines <= total_height,
    ensures
        0 <= vertical_pad_spec(num_lines, total_height) <= total_height,
{
}

/// A run of `k` newline characters.
pub open spec fn newlines(k: nat) -> Seq<char> {
    Seq::new(k, |i: int| '\n')
}

/// The given lines joined with single newline separators.
pub open spec fn joined_lines(ls: Seq<Seq<char>>) -> Seq<char>
    decreases ls.len(),
{
    if ls.len() == 0 {
        Seq::empty()
    } else if ls.len() == 1 {
        ls[0]
    } else {
        joined_lines(ls.drop_last()) + seq!['\n'] + ls.last()
    }
}

/// The text block vertically centered in `height` rows: `vertical_pad`
/// blank lines, then the lines joined by newlines.
pub fn centered_text(lines: &Vec<String>, height: u16) -> (r: String)
    requires
        lines@.len() <= height,
    ensures
        r@ == newlines(vertical_pad_spec(lines@.len() as int, height as int) as nat)
            + joined_lines(lines.deep_view()),
{
    let ghost dv = lines.deep_view();
    let num_lines = lines.len() as u16;
    proof {
        assert(num_lines == lines@.len());
        assert(dv.len() == lines@.len());
    }
    let pad = vertical_pad(num_lines, height);
    let mut out = String::new();
    let mut i: u16 = 0;
    while i < pad
        invariant
            i <= pad,
            out@ == newlines(i as nat),
        decreases pad - i,
    {
        out.push('\n');
        proof {
            assert(out@ =~= newlines((i + 1) as nat));
        }
        i = i + 1;
    }
    let mut j: usize = 0;
    proof {
        assert(out@ =~= newlines(pad as nat) + joined_lines(dv.take(0)));
    }
    while j < lines.len()
        invariant
            j <= lines@.len(),
            dv == lines.deep_view(),
            dv.len() == lines@.len(),
            out@ == newlines(pad as nat) + joined_lines(dv.take(j as int)),
        decreases lines@.len() - j,
    {
        if j > 0 {
            out.push('\n');
        }
        out.append(lines[j].as_str());
        proof {
            assert(dv.take(j + 1 as int).drop_last() =~= dv.take(j as int));
            assert(dv.take(j + 1 as int).last() == dv[j as int]);
            if j > 0 {
                assert(out@ =~= newlines(pad as nat) + joined_lines(dv.take(j + 1 as int)));
            } else {
                assert(out@ =~= newlines(pad as nat) + joined_lines(dv.take(1)));
            }
        }
        j = j + 1;
    }
    proof {
        assert(dv.take(lines@.len() as int) =~= dv);
    }
    out
}

} // verus!
