use catalog_tui::layout::{centered_rect, centered_text, vertical_pad, Constraint, Rect};
use catalog_tui::sizing::{default_factor, image_area, image_area_default, ProtocolTag};

#[test]
fn vertical_pad_examples() {
    // Odd height: plain floor of half the slack.
    assert_eq!(vertical_pad(1, 25), 12);
    assert_eq!(vertical_pad(1, 3), 1);
    // Even height: stepped down by one.
    assert_eq!(vertical_pad(1, 24), 10);
    // No slack left: stays at zero, never negative.
    assert_eq!(vertical_pad(3, 3), 0);
    assert_eq!(vertical_pad(4, 4), 0);
    assert_eq!(vertical_pad(0, 0), 0);
}

#[test]
fn vertical_pad_is_deterministic() {
    for h in 0u16..60 {
        for n in 0u16..=h {
            assert_eq!(vertical_pad(n, h), vertical_pad(n, h));
        }
    }
}

#[test]
fn centered_rect_exact_lengths() {
    let area = Rect { x: 0, y: 0, width: 80, height: 24 };
    let r = centered_rect(area, Constraint::Length(10), Constraint::Length(5));
    assert_eq!(r, Rect { x: 35, y: 9, width: 10, height: 5 });
}

#[test]
fn centered_rect_percentages() {
    let area = Rect { x: 0, y: 0, width: 80, height: 24 };
    let r = centered_rect(area, Constraint::Percentage(25), Constraint::Length(3));
    assert_eq!(r, Rect { x: 30, y: 10, width: 20, height: 3 });
    let r = centered_rect(area, Constraint::Percentage(50), Constraint::Percentage(50));
    assert_eq!(r, Rect { x: 20, y: 6, width: 40, height: 12 });
}

#[test]
fn centered_rect_oversized_constraint_clamps() {
    let area = Rect { x: 5, y: 7, width: 30, height: 10 };
    let r = centered_rect(area, Constraint::Length(100), Constraint::Length(100));
    assert_eq!(r, area);
}

#[test]
fn centered_rect_offset_area() {
    let area = Rect { x: 10, y: 20, width: 21, height: 11 };
    let r = centered_rect(area, Constraint::Length(10), Constraint::Length(4));
    // Odd slack: the spare cell goes after the rectangle.
    assert_eq!(r, Rect { x: 15, y: 23, width: 10, height: 4 });
}

#[test]
fn centered_text_pads_and_joins() {
    let lines = vec![String::from("Loading...")];
    assert_eq!(centered_text(&lines, 3), "\nLoading...");
    assert_eq!(centered_text(&lines, 4), "Loading...");
    let two = vec![String::from("a"), String::from("b")];
    assert_eq!(centered_text(&two, 7), "\n\na\nb");
}

#[test]
fn landscape_glyph_sizing_rounds_up() {
    // 1600x900 pixels in an 80x24 cell area under the glyph protocol:
    // ceil(80 * 900/1600 / 2.0) = ceil(22.5) = 23 cells high, full width.
    let area = Rect { x: 0, y: 0, width: 80, height: 24 };
    let r = image_area(1600, 900, area, ProtocolTag::Halfblocks, 2, 1);
    assert_eq!(r.width, 80);
    assert_eq!(r.height, 23);
    assert_eq!(r.x, 0);
    assert_eq!(r.y, 0);
    let d = image_area_default(1600, 900, area, ProtocolTag::Halfblocks);
    assert_eq!(d, r);
}

#[test]
fn landscape_pixel_sizing_rounds_down() {
    // Same image under a pixel-graphics protocol: floor(80 * 900/1600 /
    // 2.15) = floor(20.93) = 20 cells high, centered with one extra trailing
    // cell of slack.
    let area = Rect { x: 0, y: 0, width: 80, height: 24 };
    let r = image_area(1600, 900, area, ProtocolTag::Sixel, 43, 20);
    assert_eq!(r.width, 80);
    assert_eq!(r.height, 20);
    assert_eq!(r.y, 2);
}

#[test]
fn portrait_sizing_spans_full_height() {
    let area = Rect { x: 0, y: 0, width: 80, height: 24 };
    let r = image_area(900, 1600, area, ProtocolTag::Halfblocks, 2, 1);
    // ceil(24 * 900/1600 * 2.0) = 27 cells wide, centered.
    assert_eq!(r.height, 24);
    assert_eq!(r.width, 27);
    assert_eq!(r.x, 26);
    assert_eq!(r.y, 0);
}

#[test]
fn sizing_clamps_to_area() {
    let area = Rect { x: 0, y: 0, width: 80, height: 24 };
    // An extremely wide image still fits: one cell high, vertically centered.
    let r = image_area(10000, 100, area, ProtocolTag::Halfblocks, 2, 1);
    assert_eq!(r.height, 1);
    assert_eq!(r.y, 11);
    // An extremely tall image is clamped to the full area width.
    let r = image_area(100, 10000, area, ProtocolTag::Sixel, 43, 20);
    assert_eq!(r.height, 24);
    assert!(r.width <= 80);
    // A square image takes the portrait branch.
    let r = image_area(500, 500, area, ProtocolTag::Halfblocks, 2, 1);
    assert_eq!(r.height, 24);
    assert_eq!(r.width, 48);
}

#[test]
fn sizing_survives_extreme_dimensions() {
    let area = Rect { x: 0, y: 0, width: 65535, height: 65535 };
    let r = image_area(65535, 1, area, ProtocolTag::Halfblocks, 2, 1);
    assert_eq!(r.width, 65535);
    assert!(r.height >= 1);
    let r = image_area(1, 65535, area, ProtocolTag::Sixel, 43, 20);
    assert_eq!(r.height, 65535);
    assert!(r.width >= 1);
    let tiny = Rect { x: 0, y: 0, width: 1, height: 1 };
    let r = image_area(2, 1, tiny, ProtocolTag::Halfblocks, 2, 1);
    assert_eq!(r, tiny);
}

#[test]
fn default_factors_per_protocol() {
    assert_eq!(default_factor(ProtocolTag::Halfblocks), (2, 1));
    assert_eq!(default_factor(ProtocolTag::Sixel), (43, 20));
    assert_eq!(default_factor(ProtocolTag::Kitty), (43, 20));
    assert_eq!(default_factor(ProtocolTag::Iterm2), (43, 20));
}
