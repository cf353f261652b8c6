//! Image sizing policy: maps an image's pixel aspect ratio into a
//! character-cell sub-rectangle of the available area, compensating for the
//! cell-to-pixel density of the active rendering protocol.
use crate::layout::{rect_contains, rect_wf, Rect};
use vstd::prelude::*;

verus! {

/// The terminal graphics technique an image is rendered with: glyph-based
/// half-block cells, or one of the true pixel-graphics protocols.
#[derive(Clone, Copy, PartialEq, Eq, Structural, Debug)]
pub enum ProtocolTag {
    Halfblocks,
    Sixel,
    Kitty,
    Iterm2,
}

/// The glyph protocol renders two vertically stacked sub-pixels per cell;
/// everything else draws real pixels.
pub open spec fn is_glyph(p: ProtocolTag) -> bool {
    p is Halfblocks
}

pub open spec fn div_ceil_spec(a: int, b: int) -> int {
    (a + b - 1) / b
}

/// Cell aspect-ratio correction factor for a protocol, as a rational
/// `(numerator, denominator)`: 2 for the glyph protocol (two stacked
/// sub-pixels per cell), 43/20 for pixel-graphics protocols (an empirical
/// cell shape for typical monospace fonts). Callers that know their
/// terminal's cell shape may pass a factor of their own to `image_area`
/// instead.
pub open spec fn default_factor_spec(p: ProtocolTag) -> (u16, u16) {
    if is_glyph(p) {
        (2u16, 1u16)
    } else {
        (43u16, 20u16)
    }
}

/// The default correction factor for a protocol; see `default_factor_spec`.
pub fn default_factor(protocol: ProtocolTag) -> (r: (u16, u16))
    ensures
        r == default_factor_spec(protocol),
{
    match protocol {
        ProtocolTag::Halfblocks => (2, 1),
        _ => (43, 20),
    }
}

/// Target cell height of a landscape image spanning the full area width:
/// the width scaled by the pixel aspect ratio and divided by the correction
/// factor, rounded up for the glyph protocol and down for pixel graphics
/// (the asymmetry avoids edge clipping differently per renderer).
pub open spec fn landscape_height_spec(
    img_w: int,
    img_h: int,
    area_w: int,
    num: int,
    den: int,
    glyph: bool,
) -> int {
    if glyph {
        div_ceil_spec(area_w * img_h * den, img_w * num)
    } else {
        (area_w * img_h * den) / (img_w * num)
    }
}

/// Target cell width of a portrait or square image spanning the full area
/// height: the height scaled by the pixel aspect ratio and multiplied by the
/// correction factor, always rounded up.
pub open spec fn portrait_width_spec(img_w: int, img_h: int, area_h: int, num: int, den: int) -> int {
    div_ceil_spec(area_h * img_w * num, img_h * den)
}

/// Both slacks around the centered axis are non-negative and differ by at
/// most one cell, the spare cell sitting after the rectangle.
pub open spec fn centered_slack_ok(lead: int, trail: int) -> bool {
    &&& 0 <= lead
    &&& 0 <= trail
    &&& trail - lead == 0 || trail - lead == 1
}

proof fn lemma_mul3_bound(a: int, b: int, c: int)
    by (nonlinear_arith)
    requires
        0 <= a <= 0xFFFF,
        0 <= b <= 0xFFFF,
        0 <= c <= 0xFFFF,
    ensures
        0 <= a * b < 0x100000000,
        0 <= a * b * c < 0x1000000000000,
{
}

proof fn lemma_mul_pos(a: int, b: int)
    by (nonlinear_arith)
    requires
        1 <= a <= 0xFFFF,
        1 <= b <= 0xFFFF,
    ensures
        1 <= a * b <= 0xFFFFFFFF,
{
}

/// What `image_area` promises of its result `r`.
pub open spec fn image_area_post(
    img_w: u16,
    img_h: u16,
    area: Rect,
    protocol: ProtocolTag,
    num: u16,
    den: u16,
    r: Rect,
) -> bool {
    &&& rect_wf(r)
    &&& rect_contains(area, r)
    &&& if img_w > img_h {
        let target = landscape_height_spec(
            img_w as int,
            img_h as int,
            area.width as int,
            num as int,
            den as int,
            is_glyph(protocol),
        );
        &&& r.width == area.width
        &&& r.x == area.x
        &&& r.height as int == if target < area.height as int {
            target
        } else {
            area.height as int
        }
        &&& r.y - area.y == (area.height - r.height) as int / 2
        &&& centered_slack_ok(r.y - area.y, area.y + area.height - (r.y + r.height))
    } else {
        let target = portrait_width_spec(
            img_w as int,
            img_h as int,
            area.height as int,
            num as int,
            den as int,
        );
        &&& r.height == area.height
        &&& r.y == area.y
        &&& r.width as int == if target < area.width as int {
            target
        } else {
            area.width as int
        }
        &&& r.x - area.x == (area.width - r.width) as int / 2
        &&& centered_slack_ok(r.x - area.x, area.x + area.width - (r.x + r.width))
    }
}

/// The character-cell sub-rectangle an image of `img_w` by `img_h` pixels
/// should occupy inside `area` under the given protocol and cell
/// aspect-ratio correction factor `num / den`. The image's longer pixel axis
/// spans the full corresponding dimension of `area`; the other axis
/// preserves the aspect ratio, is clamped to `area`, and sits centered.
pub fn image_area(
    img_w: u16,
    img_h: u16,
    area: Rect,
    protocol: ProtocolTag,
    factor_num: u16,
    factor_den: u16,
) -> (r: Rect)
    requires
        img_w > 0,
        img_h > 0,
        factor_num > 0,
        factor_den > 0,
        rect_wf(area),
    ensures
        image_area_post(img_w, img_h, area, protocol, factor_num, factor_den, r),
{
    let glyph = match protocol {
        ProtocolTag::Halfblocks => true,
        _ => false,
    };
    if img_w > img_h {
        proof {
            lemma_mul3_bound(area.width as int, img_h as int, factor_den as int);
            lemma_mul_pos(img_w as int, factor_num as int);
        }
        let numer: u64 = area.width as u64 * img_h as u64 * factor_den as u64;
        let denom: u64 = img_w as u64 * factor_num as u64;
        let raw: u64 = if glyph {
            (numer + denom - 1) / denom
        } else {
            numer / denom
        };
        let target: u16 = if raw < area.height as u64 {
            raw as u16
        } else {
            area.height
        };
        Rect {
            x: area.x,
            y: area.y + (area.height - target) / 2,
            width: area.width,
            height: target,
        }
    } else {
        proof {
            lemma_mul3_bound(area.height as int, img_w as int, factor_num as int);
            lemma_mul_pos(img_h as int, factor_den as int);
        }
        let numer: u64 = area.height as u64 * img_w as u64 * factor_num as u64;
        let denom: u64 = img_h as u64 * factor_den as u64;
        let raw: u64 = (numer + denom - 1) / denom;
        let target: u16 = if raw < area.width as u64 {
            raw as u16
        } else {
            area.width
        };
        Rect {
            x: area.x + (area.width - target) / 2,
            y: area.y,
            width: target,
            height: area.height,
        }
    }
}

/// Sizing under the protocol's default correction factor; see `image_area`.
pub fn image_area_default(img_w: u16, img_h: u16, area: Rect, protocol: ProtocolTag) -> (r: Rect)
    requires
        img_w > 0,
        img_h > 0,
        rect_wf(area),
    ensures
        image_area_post(
            img_w,
            img_h,
            area,
            protocol,
            default_factor_spec(protocol).0,
            default_factor_spec(protocol).1,
            r,
        ),
{
    let (num, den) = default_factor(protocol);
    image_area(img_w, img_h, area, protocol, num, den)
}

} // verus!
