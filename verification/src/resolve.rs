//! The placement resolver: where floating content goes.
//!
//! Given the anchor's rectangle, the measured content size, a requested
//! placement, the viewport and the distance/skidding offsets, [`resolve`]
//! returns the final content rectangle together with the placement that was
//! actually used. Collision avoidance is optional: `flip` mirrors the
//! placement side when the mirrored side would overflow strictly less, and
//! `shift` clamps the rectangle along the cross axis into the viewport.
//!
//! The resolver is pure and total: it always returns a rectangle, degrading
//! to an overflowing placement when nothing fits. A zero-size anchor needs no
//! special case: the alignment formulas collapse its edges onto its center.

use vstd::prelude::*;

use crate::geometry::{center_offset, center_offset_spec, Rect, Size, COORD_BOUND};
use crate::placement::{Alignment, Placement, Side};

verus! {

/// The cross-axis origin of the content: the alignment-implied anchor edge
/// offset plus the skidding. `astart`/`alen` describe the anchor on the cross
/// axis, `clen` is the content extent on that axis.
pub open spec fn cross_pos_spec(
    astart: int,
    alen: int,
    clen: int,
    align: Alignment,
    skidding: int,
) -> int {
    match align {
        Alignment::Start => astart + skidding,
        Alignment::Center => astart + center_offset_spec(alen, clen) + skidding,
        Alignment::End => astart + alen - clen + skidding,
    }
}

/// The origin of the content box placed adjacent to `anchor` on the side and
/// alignment of `placement`, separated by `distance` along the primary axis
/// and offset by `skidding` along the cross axis.
pub open spec fn placed_origin_spec(
    anchor: Rect,
    content: Size,
    placement: Placement,
    distance: int,
    skidding: int,
) -> (int, int) {
    let align = placement.alignment_spec();
    match placement.side_spec() {
        Side::Top => (
            cross_pos_spec(anchor.x as int, anchor.w as int, content.w as int, align, skidding),
            anchor.y - distance - content.h,
        ),
        Side::Bottom => (
            cross_pos_spec(anchor.x as int, anchor.w as int, content.w as int, align, skidding),
            anchor.y + anchor.h + distance,
        ),
        Side::Left => (
            anchor.x - distance - content.w,
            cross_pos_spec(anchor.y as int, anchor.h as int, content.h as int, align, skidding),
        ),
        Side::Right => (
            anchor.x + anchor.w + distance,
            cross_pos_spec(anchor.y as int, anchor.h as int, content.h as int, align, skidding),
        ),
    }
}

/// By how many pixels a content box with origin `(x, y)` overflows the
/// viewport edge named by `side`. Zero when it does not overflow that edge.
pub open spec fn overflow_spec(x: int, y: int, content: Size, viewport: Rect, side: Side) -> int {
    match side {
        Side::Top => if viewport.y - y > 0 {
            viewport.y - y
        } else {
            0
        },
        Side::Bottom => if y + content.h - viewport.bottom() > 0 {
            y + content.h - viewport.bottom()
        } else {
            0
        },
        Side::Left => if viewport.x - x > 0 {
            viewport.x - x
        } else {
            0
        },
        Side::Right => if x + content.w - viewport.right() > 0 {
            x + content.w - viewport.right()
        } else {
            0
        },
    }
}

/// Whether a single flip to the mirrored side is taken: the requested side
/// overflows its viewport edge and the mirrored side would overflow its own
/// edge strictly less.
pub open spec fn flip_taken_spec(
    anchor: Rect,
    content: Size,
    placement: Placement,
    viewport: Rect,
    distance: int,
    skidding: int,
) -> bool {
    let o = placed_origin_spec(anchor, content, placement, distance, skidding);
    let over = overflow_spec(o.0, o.1, content, viewport, placement.side_spec());
    let m = placement.mirrored_spec();
    let mo = placed_origin_spec(anchor, content, m, distance, skidding);
    let mover = overflow_spec(mo.0, mo.1, content, viewport, m.side_spec());
    over > 0 && mover < over
}

/// The placement that is actually used: the requested one, or its mirror
/// when flipping is enabled and taken.
pub open spec fn effective_placement_spec(
    anchor: Rect,
    content: Size,
    placement: Placement,
    viewport: Rect,
    distance: int,
    skidding: int,
    flip: bool,
) -> Placement {
    if flip && flip_taken_spec(anchor, content, placement, viewport, distance, skidding) {
        placement.mirrored_spec()
    } else {
        placement
    }
}

/// Clamp a span of extent `len` at `pos` into the viewport span starting at
/// `vstart` with extent `vlen`: first pull it back from the far edge, then
/// push it forward from the near edge, so an oversized span ends up aligned
/// to the near edge.
pub open spec fn shift_axis_spec(pos: int, len: int, vstart: int, vlen: int) -> int {
    let pulled = if pos + len > vstart + vlen {
        vstart + vlen - len
    } else {
        pos
    };
    if pulled < vstart {
        vstart
    } else {
        pulled
    }
}

/// The final origin of the content box: primary placement, one optional
/// flip, then an optional cross-axis shift into the viewport.
pub open spec fn resolve_origin_spec(
    anchor: Rect,
    content: Size,
    placement: Placement,
    viewport: Rect,
    distance: int,
    skidding: int,
    flip: bool,
    shift: bool,
) -> (int, int) {
    let eff = effective_placement_spec(anchor, content, placement, viewport, distance, skidding, flip);
    let o = placed_origin_spec(anchor, content, eff, distance, skidding);
    if shift {
        if eff.side_spec().is_horizontal() {
            (o.0, shift_axis_spec(o.1, content.h as int, viewport.y as int, viewport.h as int))
        } else {
            (shift_axis_spec(o.0, content.w as int, viewport.x as int, viewport.w as int), o.1)
        }
    } else {
        o
    }
}

/// The cross-axis origin of the content along one axis of the anchor.
fn cross_pos(astart: i64, alen: i64, clen: i64, align: Alignment, skidding: i64) -> (r: i64)
    requires
        -COORD_BOUND <= astart <= COORD_BOUND,
        0 <= alen <= COORD_BOUND,
        0 <= clen <= COORD_BOUND,
        -COORD_BOUND <= skidding <= COORD_BOUND,
    ensures
        r == cross_pos_spec(astart as int, alen as int, clen as int, align, skidding as int),
        -4 * COORD_BOUND <= r <= 4 * COORD_BOUND,
{
    match align {
        Alignment::Start => astart + skidding,
        Alignment::Center => astart + center_offset(alen, clen) + skidding,
        Alignment::End => astart + alen - clen + skidding,
    }
}

/// Place the content box adjacent to the anchor, with no collision
/// avoidance: the raw placement of the requested side and alignment.
pub fn place(
    anchor: &Rect,
    content: Size,
    placement: Placement,
    distance: i64,
    skidding: i64,
) -> (r: Rect)
    requires
        anchor.wf(),
        content.wf(),
        -COORD_BOUND <= distance <= COORD_BOUND,
        -COORD_BOUND <= skidding <= COORD_BOUND,
    ensures
        r.x == placed_origin_spec(*anchor, content, placement, distance as int, skidding as int).0,
        r.y == placed_origin_spec(*anchor, content, placement, distance as int, skidding as int).1,
        r.w == content.w,
        r.h == content.h,
        -4 * COORD_BOUND <= r.x <= 4 * COORD_BOUND,
        -4 * COORD_BOUND <= r.y <= 4 * COORD_BOUND,
{
    let side = placement.side();
    let align = placement.alignment();
    let (x, y): (i64, i64) = match side {
        Side::Top => (
            cross_pos(anchor.x, anchor.w, content.w, align, skidding),
            anchor.y - distance - content.h,
        ),
        Side::Bottom => (
            cross_pos(anchor.x, anchor.w, content.w, align, skidding),
            anchor.y + anchor.h + distance,
        ),
        Side::Left => (
            anchor.x - distance - content.w,
            cross_pos(anchor.y, anchor.h, content.h, align, skidding),
        ),
        Side::Right => (
            anchor.x + anchor.w + distance,
            cross_pos(anchor.y, anchor.h, content.h, align, skidding),
        ),
    };
    Rect { x, y, w: content.w, h: content.h }
}

/// By how many pixels the content box at `(x, y)` overflows the viewport
/// edge named by `side`.
fn overflow_amount(x: i64, y: i64, content: Size, viewport: &Rect, side: Side) -> (r: i64)
    requires
        -4 * COORD_BOUND <= x <= 4 * COORD_BOUND,
        -4 * COORD_BOUND <= y <= 4 * COORD_BOUND,
        content.wf(),
        viewport.wf(),
    ensures
        r == overflow_spec(x as int, y as int, content, *viewport, side),
{
    let amount: i64 = match side {
        Side::Top => viewport.y - y,
        Side::Bottom => (y + content.h) - (viewport.y + viewport.h),
        Side::Left => viewport.x - x,
        Side::Right => (x + content.w) - (viewport.x + viewport.w),
    };
    if amount > 0 {
        amount
    } else {
        0
    }
}

/// Clamp a span into the viewport along one axis.
fn shift_axis(pos: i64, len: i64, vstart: i64, vlen: i64) -> (r: i64)
    requires
        -4 * COORD_BOUND <= pos <= 4 * COORD_BOUND,
        0 <= len <= COORD_BOUND,
        -COORD_BOUND <= vstart <= COORD_BOUND,
        0 <= vlen <= COORD_BOUND,
    ensures
        r == shift_axis_spec(pos as int, len as int, vstart as int, vlen as int),
{
    let pulled: i64 = if pos + len > vstart + vlen {
        vstart + vlen - len
    } else {
        pos
    };
    if pulled < vstart {
        vstart
    } else {
        pulled
    }
}

/// Resolve the final rectangle for floating content.
///
/// Steps: place the content on the requested side and alignment, separated
/// by `distance` and offset by `skidding`; if `flip` is enabled and the
/// placed box overflows the viewport on the placement side while the
/// mirrored side would overflow strictly less, mirror the side (one attempt
/// only); if `shift` is enabled, clamp the box along the cross axis into the
/// viewport. Returns the rectangle and the placement actually used.
pub fn resolve(
    anchor: &Rect,
    content: Size,
    placement: Placement,
    viewport: &Rect,
    distance: i64,
    skidding: i64,
    flip: bool,
    shift: bool,
) -> (r: (Rect, Placement))
    requires
        anchor.wf(),
        content.wf(),
        viewport.wf(),
        -COORD_BOUND <= distance <= COORD_BOUND,
        -COORD_BOUND <= skidding <= COORD_BOUND,
    ensures
        r.0.x == resolve_origin_spec(
            *anchor,
            content,
            placement,
            *viewport,
            distance as int,
            skidding as int,
            flip,
            shift,
        ).0,
        r.0.y == resolve_origin_spec(
            *anchor,
            content,
            placement,
            *viewport,
            distance as int,
            skidding as int,
            flip,
            shift,
        ).1,
        r.0.w == content.w,
        r.0.h == content.h,
        r.1 == effective_placement_spec(
            *anchor,
            content,
            placement,
            *viewport,
            distance as int,
            skidding as int,
            flip,
        ),
{
    let mut effective = placement;
    let mut rect = place(anchor, content, placement, distance, skidding);

    if flip {
        let over = overflow_amount(rect.x, rect.y, content, viewport, placement.side());
        if over > 0 {
            let mirrored = placement.mirrored();
            let mrect = place(anchor, content, mirrored, distance, skidding);
            let mover = overflow_amount(mrect.x, mrect.y, content, viewport, mirrored.side());
            if mover < over {
                effective = mirrored;
                rect = mrect;
            }
        }
    }

    if shift {
        if effective.side().is_horizontal_side() {
            rect.y = shift_axis(rect.y, content.h, viewport.y, viewport.h);
        } else {
            rect.x = shift_axis(rect.x, content.w, viewport.x, viewport.w);
        }
    }

    (rect, effective)
}

/// Law: with flip and shift disabled, the returned rectangle's offset from
/// the anchor along the primary axis is exactly `distance` (measured between
/// the facing edges), and along the cross axis its origin is the
/// alignment-implied anchor edge offset plus `skidding`.
pub proof fn lemma_plain_placement_offsets(
    anchor: Rect,
    content: Size,
    placement: Placement,
    viewport: Rect,
    distance: int,
    skidding: int,
)
    ensures
        ({
            let o = resolve_origin_spec(
                anchor,
                content,
                placement,
                viewport,
                distance,
                skidding,
                false,
                false,
            );
            match placement.side_spec() {
                Side::Top => anchor.y - (o.1 + content.h) == distance,
                Side::Bottom => o.1 - (anchor.y + anchor.h) == distance,
                Side::Left => anchor.x - (o.0 + content.w) == distance,
                Side::Right => o.0 - (anchor.x + anchor.w) == distance,
            }
        }),
        ({
            let o = resolve_origin_spec(
                anchor,
                content,
                placement,
                viewport,
                distance,
                skidding,
                false,
                false,
            );
            let cross = if placement.side_spec().is_horizontal() {
                o.1
            } else {
                o.0
            };
            let astart: int = if placement.side_spec().is_horizontal() {
                anchor.y as int
            } else {
                anchor.x as int
            };
            let alen: int = if placement.side_spec().is_horizontal() {
                anchor.h as int
            } else {
                anchor.w as int
            };
            let clen: int = if placement.side_spec().is_horizontal() {
                content.h as int
            } else {
                content.w as int
            };
            match placement.alignment_spec() {
                Alignment::Start => cross == astart + skidding,
                Alignment::Center => cross == astart + center_offset_spec(alen, clen) + skidding,
                Alignment::End => cross == astart + alen - clen + skidding,
            }
        }),
{
}

/// Law: the resolver is a pure function of its inputs. Two resolutions with
/// identical inputs yield an identical rectangle and effective placement.
pub proof fn lemma_resolve_deterministic(
    anchor1: Rect,
    content1: Size,
    placement1: Placement,
    viewport1: Rect,
    distance1: int,
    skidding1: int,
    flip1: bool,
    shift1: bool,
    anchor2: Rect,
    content2: Size,
    placement2: Placement,
    viewport2: Rect,
    distance2: int,
    skidding2: int,
    flip2: bool,
    shift2: bool,
)
    requires
        anchor1 == anchor2,
        content1 == content2,
        placement1 == placement2,
        viewport1 == viewport2,
        distance1 == distance2,
        skidding1 == skidding2,
        flip1 == flip2,
        shift1 == shift2,
    ensures
        resolve_origin_spec(
            anchor1,
            content1,
            placement1,
            viewport1,
            distance1,
            skidding1,
            flip1,
            shift1,
        ) == resolve_origin_spec(
            anchor2,
            content2,
            placement2,
            viewport2,
            distance2,
            skidding2,
            flip2,
            shift2,
        ),
        effective_placement_spec(
            anchor1,
            content1,
            placement1,
            viewport1,
            distance1,
            skidding1,
            flip1,
        ) == effective_placement_spec(
            anchor2,
            content2,
            placement2,
            viewport2,
            distance2,
            skidding2,
            flip2,
        ),
{
}

/// Law: if placing on the requested top side would overflow the viewport's
/// top edge by strictly more than placing on the bottom side would overflow
/// the bottom edge, and flipping is enabled, the effective side is the
/// bottom.
pub proof fn lemma_flip_top_to_bottom(
    anchor: Rect,
    content: Size,
    placement: Placement,
    viewport: Rect,
    distance: int,
    skidding: int,
)
    requires
        placement.side_spec() == Side::Top,
        ({
            let o = placed_origin_spec(anchor, content, placement, distance, skidding);
            let mo = placed_origin_spec(
                anchor,
                content,
                placement.mirrored_spec(),
                distance,
                skidding,
            );
            overflow_spec(o.0, o.1, content, viewport, Side::Top) > overflow_spec(
                mo.0,
                mo.1,
                content,
                viewport,
                Side::Bottom,
            )
        }),
    ensures
        effective_placement_spec(
            anchor,
            content,
            placement,
            viewport,
            distance,
            skidding,
            true,
        ).side_spec() == Side::Bottom,
{
    crate::placement::lemma_mirrored_decomposition(placement);
}

/// Containment given by the cross-axis clamp: a span no larger than the
/// viewport span ends up fully inside it.
proof fn lemma_shift_axis_contains(pos: int, len: int, vstart: int, vlen: int)
    requires
        0 <= len <= vlen,
    ensures
        vstart <= shift_axis_spec(pos, len, vstart, vlen),
        shift_axis_spec(pos, len, vstart, vlen) + len <= vstart + vlen,
{
}

/// Law: distance and skidding are independent. Distance never affects the
/// cross-axis position of the placed content, and skidding never affects
/// its primary-axis position.
pub proof fn lemma_distance_skidding_independent(
    anchor: Rect,
    content: Size,
    placement: Placement,
    distance1: int,
    skidding1: int,
    distance2: int,
    skidding2: int,
)
    ensures
        ({
            let a = placed_origin_spec(anchor, content, placement, distance1, skidding1);
            let b = placed_origin_spec(anchor, content, placement, distance2, skidding2);
            if placement.side_spec().is_horizontal() {
                (skidding1 == skidding2 ==> a.1 == b.1) && (distance1 == distance2 ==> a.0 == b.0)
            } else {
                (skidding1 == skidding2 ==> a.0 == b.0) && (distance1 == distance2 ==> a.1 == b.1)
            }
        }),
{
}

/// Law: the shift clamps and never re-centers. When the placed rectangle
/// already lies inside the viewport on the cross axis, shifting leaves it
/// exactly where distance, skidding and alignment put it; so a shift moves
/// the rectangle by the minimum amount that containment allows.
pub proof fn lemma_shift_is_a_clamp(
    anchor: Rect,
    content: Size,
    placement: Placement,
    viewport: Rect,
    distance: int,
    skidding: int,
    flip: bool,
)
    requires
        ({
            let eff = effective_placement_spec(
                anchor,
                content,
                placement,
                viewport,
                distance,
                skidding,
                flip,
            );
            let o = placed_origin_spec(anchor, content, eff, distance, skidding);
            if eff.side_spec().is_horizontal() {
                viewport.y <= o.1 && o.1 + content.h <= viewport.bottom()
            } else {
                viewport.x <= o.0 && o.0 + content.w <= viewport.right()
            }
        }),
    ensures
        resolve_origin_spec(anchor, content, placement, viewport, distance, skidding, flip, true)
            == resolve_origin_spec(
            anchor,
            content,
            placement,
            viewport,
            distance,
            skidding,
            flip,
            false,
        ),
{
}

/// Law: with shifting enabled, the resulting rectangle's projection onto the
/// cross axis is fully contained in the viewport's projection on that axis,
/// whenever the content's cross-axis extent is no larger than the
/// viewport's. This holds with or without flipping, since mirroring a side
/// keeps its cross axis.
pub proof fn lemma_shift_cross_containment(
    anchor: Rect,
    content: Size,
    placement: Placement,
    viewport: Rect,
    distance: int,
    skidding: int,
    flip: bool,
)
    requires
        content.wf(),
        viewport.wf(),
        placement.side_spec().is_horizontal() ==> content.h <= viewport.h,
        !placement.side_spec().is_horizontal() ==> content.w <= viewport.w,
    ensures
        ({
            let o = resolve_origin_spec(
                anchor,
                content,
                placement,
                viewport,
                distance,
                skidding,
                flip,
                true,
            );
            if placement.side_spec().is_horizontal() {
                viewport.y <= o.1 && o.1 + content.h <= viewport.bottom()
            } else {
                viewport.x <= o.0 && o.0 + content.w <= viewport.right()
            }
        }),
{
    let eff = effective_placement_spec(anchor, content, placement, viewport, distance, skidding, flip);
    crate::placement::lemma_mirrored_decomposition(placement);
    let o = placed_origin_spec(anchor, content, eff, distance, skidding);
    if eff.side_spec().is_horizontal() {
        lemma_shift_axis_contains(o.1, content.h as int, viewport.y as int, viewport.h as int);
    } else {
        lemma_shift_axis_contains(o.0, content.w as int, viewport.x as int, viewport.w as int);
    }
}

} // verus!
