use shoelace_ui::geometry::{Point, Rect, Size};
use shoelace_ui::placement::{Alignment, Placement, Side};
use shoelace_ui::resolve::resolve;

fn rect(x: i64, y: i64, w: i64, h: i64) -> Rect {
    Rect { x, y, w, h }
}

const VIEWPORT: Rect = Rect { x: 0, y: 0, w: 1000, h: 800 };

#[test]
fn bottom_centered_with_distance() {
    // Anchor (100,100,50,20), content 80x30, Bottom, distance 8, skidding 0:
    // centered under the anchor with an 8 px gap below it.
    let anchor = rect(100, 100, 50, 20);
    let content = Size { w: 80, h: 30 };
    let (r, effective) = resolve(
        &anchor,
        content,
        Placement::Bottom,
        &VIEWPORT,
        8,
        0,
        false,
        false,
    );
    assert_eq!(r, rect(85, 128, 80, 30));
    assert_eq!(effective, Placement::Bottom);
}

#[test]
fn top_centered_with_distance_and_skidding() {
    // Same anchor, Top, distance 8, skidding 10: 8 px above the anchor top
    // minus the content height, center shifted +10 on x.
    let anchor = rect(100, 100, 50, 20);
    let content = Size { w: 80, h: 30 };
    let (r, effective) = resolve(
        &anchor,
        content,
        Placement::Top,
        &VIEWPORT,
        8,
        10,
        false,
        false,
    );
    assert_eq!(r, rect(95, 62, 80, 30));
    assert_eq!(effective, Placement::Top);
}

#[test]
fn all_twelve_placements_offsets() {
    // With flip and shift disabled, the primary-axis gap is exactly the
    // distance and the cross-axis origin is the alignment edge plus the
    // skidding, for every placement.
    let anchor = rect(300, 200, 50, 20);
    let content = Size { w: 80, h: 30 };
    let d = 8;
    let s = 10;

    for placement in [
        Placement::Top,
        Placement::TopStart,
        Placement::TopEnd,
        Placement::Right,
        Placement::RightStart,
        Placement::RightEnd,
        Placement::Bottom,
        Placement::BottomStart,
        Placement::BottomEnd,
        Placement::Left,
        Placement::LeftStart,
        Placement::LeftEnd,
    ] {
        let (r, effective) = resolve(&anchor, content, placement, &VIEWPORT, d, s, false, false);
        assert_eq!(effective, placement);
        assert_eq!(r.w, 80);
        assert_eq!(r.h, 30);

        // Primary axis: the gap between the facing edges equals d.
        match placement.side() {
            Side::Top => assert_eq!(anchor.y - (r.y + r.h), d),
            Side::Bottom => assert_eq!(r.y - (anchor.y + anchor.h), d),
            Side::Left => assert_eq!(anchor.x - (r.x + r.w), d),
            Side::Right => assert_eq!(r.x - (anchor.x + anchor.w), d),
        }

        // Cross axis: the alignment-implied anchor edge offset plus s.
        let horizontal_side = matches!(placement.side(), Side::Left | Side::Right);
        let (cross, astart, alen, clen) = if horizontal_side {
            (r.y, anchor.y, anchor.h, content.h)
        } else {
            (r.x, anchor.x, anchor.w, content.w)
        };
        match placement.alignment() {
            Alignment::Start => assert_eq!(cross, astart + s),
            Alignment::Center => assert_eq!(cross, astart + (alen - clen) / 2 + s),
            Alignment::End => assert_eq!(cross, astart + alen - clen + s),
        }
    }
}

#[test]
fn resolve_is_deterministic() {
    let anchor = rect(40, 30, 25, 25);
    let content = Size { w: 120, h: 60 };
    let first = resolve(&anchor, content, Placement::LeftEnd, &VIEWPORT, 5, -3, true, true);
    let second = resolve(&anchor, content, Placement::LeftEnd, &VIEWPORT, 5, -3, true, true);
    assert_eq!(first, second);
}

#[test]
fn flip_top_to_bottom_when_bottom_fits() {
    // The anchor sits near the top: a Top placement overflows the top edge,
    // the mirrored Bottom placement fits, so the placement flips.
    let anchor = rect(100, 10, 50, 20);
    let content = Size { w: 80, h: 30 };
    let (r, effective) = resolve(&anchor, content, Placement::Top, &VIEWPORT, 8, 0, true, false);
    assert_eq!(effective, Placement::Bottom);
    assert_eq!(r, rect(85, 38, 80, 30));
}

#[test]
fn flip_keeps_alignment() {
    let anchor = rect(100, 10, 50, 20);
    let content = Size { w: 80, h: 30 };
    let (_, effective) = resolve(
        &anchor,
        content,
        Placement::TopStart,
        &VIEWPORT,
        8,
        0,
        true,
        false,
    );
    assert_eq!(effective, Placement::BottomStart);
}

#[test]
fn no_flip_when_disabled() {
    let anchor = rect(100, 10, 50, 20);
    let content = Size { w: 80, h: 30 };
    let (r, effective) = resolve(&anchor, content, Placement::Top, &VIEWPORT, 8, 0, false, false);
    assert_eq!(effective, Placement::Top);
    // Overflows the top edge: y is negative.
    assert_eq!(r.y, -28);
}

#[test]
fn no_flip_when_mirrored_side_is_no_better() {
    // The content is taller than the viewport: both sides overflow, and the
    // mirrored side overflows by at least as much, so the original side is
    // kept and overflows.
    let anchor = rect(100, 390, 50, 20);
    let content = Size { w: 80, h: 900 };
    let (_, effective) = resolve(&anchor, content, Placement::Top, &VIEWPORT, 0, 0, true, false);
    assert_eq!(effective, Placement::Top);
}

#[test]
fn shift_clamps_into_viewport() {
    // A Bottom placement near the left edge would start at x = -15; the
    // shift pushes it to the viewport's left edge without touching y.
    let anchor = rect(0, 100, 50, 20);
    let content = Size { w: 80, h: 30 };
    let (r, effective) = resolve(
        &anchor,
        content,
        Placement::Bottom,
        &VIEWPORT,
        8,
        0,
        false,
        true,
    );
    assert_eq!(effective, Placement::Bottom);
    assert_eq!(r, rect(0, 128, 80, 30));
}

#[test]
fn shift_clamps_at_far_edge() {
    let anchor = rect(970, 100, 50, 20);
    let content = Size { w: 80, h: 30 };
    let (r, _) = resolve(
        &anchor,
        content,
        Placement::Bottom,
        &VIEWPORT,
        8,
        0,
        false,
        true,
    );
    // 970 + (50-80)/2 = 955, 955 + 80 = 1035 > 1000: clamped to 920.
    assert_eq!(r.x, 920);
    assert!(r.x >= VIEWPORT.x && r.x + r.w <= VIEWPORT.x + VIEWPORT.w);
}

#[test]
fn shift_aligns_oversized_content_to_near_edge() {
    // Content wider than the viewport cannot be contained; the shift aligns
    // it to the near (left) edge and lets it overflow the far one.
    let anchor = rect(500, 100, 50, 20);
    let content = Size { w: 1200, h: 30 };
    let (r, _) = resolve(
        &anchor,
        content,
        Placement::Bottom,
        &VIEWPORT,
        8,
        0,
        false,
        true,
    );
    assert_eq!(r.x, 0);
}

#[test]
fn zero_size_anchor_acts_as_point() {
    // A zero-size anchor is treated as its own center: centered content
    // straddles the point symmetrically.
    let anchor = rect(200, 150, 0, 0);
    let content = Size { w: 40, h: 20 };
    let (r, _) = resolve(&anchor, content, Placement::Top, &VIEWPORT, 0, 0, false, false);
    assert_eq!(r, rect(180, 130, 40, 20));
}

#[test]
fn negative_distance_overlaps_anchor() {
    let anchor = rect(100, 100, 50, 20);
    let content = Size { w: 80, h: 30 };
    let (r, _) = resolve(&anchor, content, Placement::Bottom, &VIEWPORT, -5, 0, false, false);
    assert_eq!(r.y, 115);
}

#[test]
fn rect_contains_edges() {
    let r = rect(10, 10, 5, 5);
    assert!(r.contains(Point { x: 10, y: 10 }));
    assert!(r.contains(Point { x: 14, y: 14 }));
    assert!(!r.contains(Point { x: 15, y: 10 }));
    assert!(!r.contains(Point { x: 10, y: 15 }));
    assert!(!r.contains(Point { x: 9, y: 10 }));
}

#[test]
fn shift_leaves_fitting_content_alone() {
    // The shift clamps rather than re-centers: content that already fits is
    // not moved at all.
    let anchor = rect(400, 300, 50, 20);
    let content = Size { w: 80, h: 30 };
    let shifted = resolve(&anchor, content, Placement::Bottom, &VIEWPORT, 8, 7, false, true);
    let unshifted = resolve(&anchor, content, Placement::Bottom, &VIEWPORT, 8, 7, false, false);
    assert_eq!(shifted, unshifted);
}
