//! The library's laws: properties that relate several operations,
//! stated over the spec functions the operations' own contracts use,
//! and proved here once and for all.

use vstd::prelude::*;

use crate::engine::{spec_take_position, EngineView};
use crate::frame::{spec_frame_from, DisplayPrimitiveView, FrameView};
use crate::json::{spec_as_u64, spec_obj_get, Json};
use crate::listener::spec_clear_view;
use crate::json::spec_as_u32;
use crate::render::{
    spec_add_border, spec_add_rect, spec_add_text, spec_apply_changes_from,
    spec_apply_render_entry, spec_change_step, spec_render_from, spec_set_rect, spec_set_text,
    spec_update_self, BoundsField, RenderStepView,
};
use crate::scene::{BoundingClientRect, DisplayItemView, RectPosition, RectSize, SceneError};

verus! {

/// The item an add entry appends, mirroring the dispatch order of
/// [`spec_apply_render_entry`]; nothing for entries of any other
/// kind.
pub open spec fn spec_added_item(j: Json) -> Option<DisplayItemView> {
    if spec_obj_get(j, "UpdateSelf"@) is Some {
        None
    } else {
        match spec_obj_get(j, "AddRect"@) {
            Some(u) => spec_add_rect(u),
            None => match spec_obj_get(j, "AddBorder"@) {
                Some(u) => spec_add_border(u),
                None => match spec_obj_get(j, "AddText"@) {
                    Some(u) => spec_add_text(u),
                    None => None,
                },
            },
        }
    }
}

/// An entry that appends one well-formed item.
pub open spec fn is_add_entry(j: Json) -> bool {
    spec_added_item(j) is Some
}

/// A batch holding add entries only.
pub open spec fn all_add_entries(entries: Seq<Json>) -> bool {
    forall|k: int| 0 <= k < entries.len() ==> is_add_entry(#[trigger] entries[k])
}

proof fn lemma_add_batch_from(items: Seq<DisplayItemView>, entries: Seq<Json>, i: int)
    requires
        0 <= i <= entries.len(),
        all_add_entries(entries),
    ensures
        ({
            let out = spec_render_from(items, entries, i);
            &&& out.error is None
            &&& out.set_redraw
            &&& out.items.len() == items.len() + (entries.len() - i)
        }),
    decreases entries.len() - i,
{
    if i < entries.len() {
        assert(is_add_entry(entries[i]));
        match spec_added_item(entries[i]) {
            Some(it) => {
                assert(spec_apply_render_entry(items, entries[i]) == (RenderStepView {
                    items: items.push(it),
                    stale: false,
                    error: None,
                }));
                lemma_add_batch_from(items.push(it), entries, i + 1);
            },
            None => {
            },
        }
    }
}

/// The scene after a sequence of render batches, applied in arrival
/// order.
pub open spec fn spec_render_batches(
    items: Seq<DisplayItemView>,
    batches: Seq<Seq<Json>>,
    b: int,
) -> Seq<DisplayItemView>
    decreases batches.len() - b,
{
    if b < 0 || b >= batches.len() {
        items
    } else {
        spec_render_batches(spec_render_from(items, batches[b], 0).items, batches, b + 1)
    }
}

/// The total entry count of a sequence of batches.
pub open spec fn spec_total_entries(batches: Seq<Seq<Json>>, b: int) -> nat
    decreases batches.len() - b,
{
    if b < 0 || b >= batches.len() {
        0
    } else {
        batches[b].len() + spec_total_entries(batches, b + 1)
    }
}

proof fn lemma_scene_length_from(items: Seq<DisplayItemView>, batches: Seq<Seq<Json>>, b: int)
    requires
        0 <= b <= batches.len(),
        forall|k: int| 0 <= k < batches.len() ==> all_add_entries(#[trigger] batches[k]),
    ensures
        spec_render_batches(items, batches, b).len() == items.len() + spec_total_entries(
            batches,
            b,
        ),
    decreases batches.len() - b,
{
    if b < batches.len() {
        lemma_add_batch_from(items, batches[b], 0);
        lemma_scene_length_from(spec_render_from(items, batches[b], 0).items, batches, b + 1);
    }
}

/// Law: over any sequence of batches made of `AddRect`, `AddBorder`
/// and `AddText` entries, the resulting scene length equals the scene
/// length before plus the total count of entries across the batches —
/// such batches are never stale and never fail, so none is discarded.
pub proof fn lemma_scene_length_counts_adds(items: Seq<DisplayItemView>, batches: Seq<Seq<Json>>)
    requires
        forall|k: int| 0 <= k < batches.len() ==> all_add_entries(#[trigger] batches[k]),
    ensures
        spec_render_batches(items, batches, 0).len() == items.len() + spec_total_entries(
            batches,
            0,
        ),
{
    lemma_scene_length_from(items, batches, 0);
}

/// The number of entries of a batch, from position `i` on, that are
/// not partial updates.  In a batch that completes, every such entry
/// appended exactly one item.
pub open spec fn spec_add_count(entries: Seq<Json>, i: int) -> nat
    decreases entries.len() - i,
{
    if i < 0 || i >= entries.len() {
        0
    } else {
        (if spec_obj_get(entries[i], "UpdateSelf"@) is Some {
            0nat
        } else {
            1nat
        }) + spec_add_count(entries, i + 1)
    }
}

proof fn lemma_batch_length_from(items: Seq<DisplayItemView>, entries: Seq<Json>, i: int)
    requires
        0 <= i <= entries.len(),
        spec_render_from(items, entries, i).error is None,
        spec_render_from(items, entries, i).set_redraw,
    ensures
        spec_render_from(items, entries, i).items.len() == items.len() + spec_add_count(
            entries,
            i,
        ),
    decreases entries.len() - i,
{
    if i < entries.len() {
        let step = spec_apply_render_entry(items, entries[i]);
        match spec_obj_get(entries[i], "UpdateSelf"@) {
            Some(u) => {
                assert(step == spec_update_self(items, u));
                assert(!step.stale);
                match u {
                    Json::Array(parts) => {
                        if parts@.len() >= 2 && items.len() > 0 {
                            match spec_as_u64(parts@[0]) {
                                Some(index) => {
                                    match parts@[1] {
                                        Json::Array(cs) => {
                                            lemma_changes_frame(items, index as int, cs@, 0);
                                        },
                                        _ => {
                                        },
                                    }
                                },
                                None => {
                                },
                            }
                        }
                    },
                    _ => {
                    },
                }
                assert(step.error is None ==> step.items.len() == items.len());
            },
            None => {
            },
        }
        if step.error is None {
            lemma_batch_length_from(step.items, entries, i + 1);
        }
    }
}

/// Law: a render batch that runs to completion grows the scene by
/// exactly its count of `AddRect`/`AddBorder`/`AddText` entries;
/// partial updates never change the scene length.
pub proof fn lemma_batch_length_counts_adds(items: Seq<DisplayItemView>, entries: Seq<Json>)
    requires
        spec_render_from(items, entries, 0).error is None,
        spec_render_from(items, entries, 0).set_redraw,
    ensures
        spec_render_from(items, entries, 0).items.len() == items.len() + spec_add_count(
            entries,
            0,
        ),
{
    lemma_batch_length_from(items, entries, 0);
}

/// Law: a clear followed immediately by frame production yields an
/// empty display list with no failures, and the clear left the redraw
/// flag set.
pub proof fn lemma_clear_then_empty_frame(v: EngineView)
    ensures
        spec_clear_view(v).redraw == true,
        spec_frame_from(
            spec_clear_view(v).items,
            spec_clear_view(v).families,
            spec_clear_view(v).sizes,
            0,
        ) == (FrameView {
            primitives: Seq::<DisplayPrimitiveView>::empty(),
            failures: Seq::<(int, SceneError)>::empty(),
        }),
{
}

/// Law: a bounds update replaces exactly one scalar of the addressed
/// item; every other field of that item, and every other item of the
/// scene, is unchanged.
pub proof fn lemma_update_isolation(items: Seq<DisplayItemView>, i: int, sel: BoundsField, v: u32)
    requires
        0 <= i < items.len(),
        items[i] is Rect,
    ensures
        spec_set_rect(items, i, sel, v) is Ok,
        (spec_set_rect(items, i, sel, v) matches Ok(res) ==> {
            &&& res.len() == items.len()
            &&& (forall|j: int| 0 <= j < items.len() && j != i ==> res[j] == items[j])
            &&& (items[i] matches DisplayItemView::Rect { rect, color } ==> res[i] == (
            DisplayItemView::Rect {
                rect: (match sel {
                    BoundsField::Left => (BoundingClientRect {
                        position: RectPosition { left: v, top: rect.position.top },
                        size: rect.size,
                    }),
                    BoundsField::Top => (BoundingClientRect {
                        position: RectPosition { left: rect.position.left, top: v },
                        size: rect.size,
                    }),
                    BoundsField::Width => (BoundingClientRect {
                        position: rect.position,
                        size: RectSize { width: v, height: rect.size.height },
                    }),
                    BoundsField::Height => (BoundingClientRect {
                        position: rect.position,
                        size: RectSize { width: rect.size.width, height: v },
                    }),
                }),
                color,
            }))
        }),
{
}

/// Law: an `UpdateSelf` entry reaching an empty scene makes the whole
/// batch stale: it is discarded silently — scene unchanged, no error
/// raised, no dirty mark.
pub proof fn lemma_stale_batch(items: Seq<DisplayItemView>, entries: Seq<Json>, u: Json)
    requires
        items.len() == 0,
        entries.len() >= 1,
        spec_obj_get(entries[0], "UpdateSelf"@) == Some(u),
        (u matches Json::Array(parts) && parts@.len() >= 1 && spec_as_u64(parts@[0]) is Some),
    ensures
        ({
            let out = spec_render_from(items, entries, 0);
            &&& out.items == items
            &&& out.error is None
            &&& !out.set_redraw
        }),
{
}

/// Law: replaying an identical add entry is a true append, not a
/// structural merge: the second copy lands at the next index, equal
/// to the first.
pub proof fn lemma_replay_add_appends_twice(items: Seq<DisplayItemView>, e: Json)
    requires
        is_add_entry(e),
    ensures
        ({
            let out = spec_render_from(items, seq![e, e], 0);
            &&& out.error is None
            &&& out.set_redraw
            &&& out.items.len() == items.len() + 2
            &&& out.items[items.len() as int] == out.items[items.len() as int + 1]
            &&& (spec_added_item(e) matches Some(it) ==> out.items[items.len() as int] == it)
        }),
{
    let es = seq![e, e];
    assert(es[0] == e && es[1] == e);
    match spec_added_item(e) {
        Some(it) => {
            assert(spec_apply_render_entry(items, e) == (RenderStepView {
                items: items.push(it),
                stale: false,
                error: None,
            }));
            assert(spec_apply_render_entry(items.push(it), e) == (RenderStepView {
                items: items.push(it).push(it),
                stale: false,
                error: None,
            }));
            assert(spec_render_from(items.push(it).push(it), es, 2) == (
            crate::render::RenderOutcomeView {
                items: items.push(it).push(it),
                set_redraw: true,
                error: None,
            }));
            assert(spec_render_from(items.push(it), es, 1) == spec_render_from(
                items.push(it).push(it),
                es,
                2,
            ));
            assert(spec_render_from(items, es, 0) == spec_render_from(items.push(it), es, 1));
            assert(items.push(it).push(it)[items.len() as int] == it);
            assert(items.push(it).push(it)[items.len() as int + 1] == it);
        },
        None => {
        },
    }
}

/// The state-independent class of one change descriptor: what it
/// writes, or that it is tolerably ignored, or that its shape is
/// malformed.
pub enum ChangeClass {
    Ignored,
    WriteText(Seq<char>),
    WriteBounds(BoundsField, u32),
    Bad,
}

pub open spec fn spec_classify_bounds(c: Json) -> ChangeClass {
    match spec_obj_get(c, "Bounds"@) {
        Some(sp) => match spec_obj_get(sp, "x"@) {
            Some(xv) => match spec_as_u32(xv) {
                Some(v) => ChangeClass::WriteBounds(BoundsField::Left, v),
                None => ChangeClass::Bad,
            },
            None => match spec_obj_get(sp, "y"@) {
                Some(yv) => match spec_as_u32(yv) {
                    Some(v) => ChangeClass::WriteBounds(BoundsField::Top, v),
                    None => ChangeClass::Bad,
                },
                None => match spec_obj_get(sp, "width"@) {
                    Some(wv) => match spec_as_u32(wv) {
                        Some(v) => ChangeClass::WriteBounds(BoundsField::Width, v),
                        None => ChangeClass::Bad,
                    },
                    None => match spec_obj_get(sp, "height"@) {
                        Some(hv) => match spec_as_u32(hv) {
                            Some(v) => ChangeClass::WriteBounds(BoundsField::Height, v),
                            None => ChangeClass::Bad,
                        },
                        None => ChangeClass::Ignored,
                    },
                },
            },
        },
        None => ChangeClass::Ignored,
    }
}

pub open spec fn spec_classify_change(c: Json) -> ChangeClass {
    match spec_obj_get(c, "Text"@) {
        Some(sp) => match spec_obj_get(sp, "content"@) {
            Some(content) => match content {
                Json::Str(s) => ChangeClass::WriteText(s@),
                _ => ChangeClass::Bad,
            },
            None => spec_classify_bounds(c),
        },
        None => spec_classify_bounds(c),
    }
}

/// A change step behaves exactly by its class: the shape analysis of
/// the descriptor is independent of the scene it is applied to.
proof fn lemma_step_by_class(items: Seq<DisplayItemView>, index: int, c: Json)
    ensures
        spec_change_step(items, index, c) == (match spec_classify_change(c) {
            ChangeClass::Ignored => Ok::<Seq<DisplayItemView>, SceneError>(items),
            ChangeClass::Bad => Err::<Seq<DisplayItemView>, SceneError>(
                SceneError::MalformedMessage,
            ),
            ChangeClass::WriteText(s) => spec_set_text(items, index, s),
            ChangeClass::WriteBounds(f, v) => spec_set_rect(items, index, f, v),
        }),
{
}

/// Some change at or after position `ci` writes text content.
pub open spec fn spec_written_text(cs: Seq<Json>, ci: int) -> bool {
    exists|k: int| ci <= k < cs.len() && (#[trigger] spec_classify_change(cs[k])) is WriteText
}

/// Some change at or after position `ci` writes the bounds scalar `f`.
pub open spec fn spec_written_bounds(cs: Seq<Json>, ci: int, f: BoundsField) -> bool {
    exists|k: int|
        ci <= k < cs.len() && ((#[trigger] spec_classify_change(
            cs[k],
        )) matches ChangeClass::WriteBounds(g, v) && g == f)
}

proof fn lemma_written_text_advance(cs: Seq<Json>, ci: int)
    requires
        spec_written_text(cs, ci),
        !(spec_classify_change(cs[ci]) is WriteText),
    ensures
        spec_written_text(cs, ci + 1),
{
    let k = choose|k: int|
        ci <= k < cs.len() && (#[trigger] spec_classify_change(cs[k])) is WriteText;
    assert(k != ci);
    assert(ci + 1 <= k < cs.len() && spec_classify_change(cs[k]) is WriteText);
}

proof fn lemma_written_bounds_advance(cs: Seq<Json>, ci: int, f: BoundsField)
    requires
        spec_written_bounds(cs, ci, f),
        !(spec_classify_change(cs[ci]) matches ChangeClass::WriteBounds(g, v) && g == f),
    ensures
        spec_written_bounds(cs, ci + 1, f),
{
    let k = choose|k: int|
        ci <= k < cs.len() && ((#[trigger] spec_classify_change(
            cs[k],
        )) matches ChangeClass::WriteBounds(g, v) && g == f);
    assert(k != ci);
    assert(ci + 1 <= k < cs.len() && (spec_classify_change(
        cs[k],
    ) matches ChangeClass::WriteBounds(g, v) && g == f));
}

/// A write at or after `ci + 1` is a write at or after `ci`.
proof fn lemma_written_mono_all(cs: Seq<Json>, ci: int)
    ensures
        forall|f: BoundsField|
            spec_written_bounds(cs, ci + 1, f) ==> #[trigger] spec_written_bounds(cs, ci, f),
        spec_written_text(cs, ci + 1) ==> spec_written_text(cs, ci),
{
    assert forall|f: BoundsField| spec_written_bounds(cs, ci + 1, f) implies #[trigger]
    spec_written_bounds(cs, ci, f) by {
        let k = choose|k: int|
            ci + 1 <= k < cs.len() && ((#[trigger] spec_classify_change(
                cs[k],
            )) matches ChangeClass::WriteBounds(g, v) && g == f);
        assert(ci <= k < cs.len() && (spec_classify_change(
            cs[k],
        ) matches ChangeClass::WriteBounds(g, v) && g == f));
    }
    if spec_written_text(cs, ci + 1) {
        let k = choose|k: int|
            ci + 1 <= k < cs.len() && (#[trigger] spec_classify_change(cs[k])) is WriteText;
        assert(ci <= k < cs.len() && spec_classify_change(cs[k]) is WriteText);
    }
}

/// `y` differs from `x` at most in fields that some change at or
/// after `ci` writes, and has the same kind.
pub open spec fn similar_items(
    x: DisplayItemView,
    y: DisplayItemView,
    cs: Seq<Json>,
    ci: int,
) -> bool {
    match (x, y) {
        (
            DisplayItemView::Text {
                rect: xr,
                color: xc,
                text: xt,
                font_key: xfk,
                font_instance_key: xfik,
            },
            DisplayItemView::Text {
                rect: yr,
                color: yc,
                text: yt,
                font_key: yfk,
                font_instance_key: yfik,
            },
        ) => yr == xr && yc == xc && yfk == xfk && yfik == xfik && (yt == xt || spec_written_text(
            cs,
            ci,
        )),
        (
            DisplayItemView::Rect { rect: xr, color: xc },
            DisplayItemView::Rect { rect: yr, color: yc },
        ) => yc == xc && (yr.position.left == xr.position.left || spec_written_bounds(
            cs,
            ci,
            BoundsField::Left,
        )) && (yr.position.top == xr.position.top || spec_written_bounds(
            cs,
            ci,
            BoundsField::Top,
        )) && (yr.size.width == xr.size.width || spec_written_bounds(
            cs,
            ci,
            BoundsField::Width,
        )) && (yr.size.height == xr.size.height || spec_written_bounds(
            cs,
            ci,
            BoundsField::Height,
        )),
        (DisplayItemView::Border { .. }, DisplayItemView::Border { .. }) => y == x,
        (DisplayItemView::Image, DisplayItemView::Image) => true,
        _ => false,
    }
}

/// Applying changes touches nothing but the addressed item, and that
/// item only in the fields the changes write.
proof fn lemma_changes_frame(items: Seq<DisplayItemView>, index: int, cs: Seq<Json>, ci: int)
    requires
        0 <= ci <= cs.len(),
    ensures
        ({
            let o = spec_apply_changes_from(items, index, cs, ci);
            &&& o.0.len() == items.len()
            &&& (forall|j: int| 0 <= j < items.len() && j != index ==> o.0[j] == items[j])
            &&& (0 <= index < items.len() ==> similar_items(items[index], o.0[index], cs, ci))
            &&& (!(0 <= index < items.len()) ==> o.0 == items)
        }),
    decreases cs.len() - ci,
{
    if ci < cs.len() {
        lemma_step_by_class(items, index, cs[ci]);
        match spec_change_step(items, index, cs[ci]) {
            Ok(items1) => {
                lemma_changes_frame(items1, index, cs, ci + 1);
                lemma_written_mono_all(cs, ci);
                let o = spec_apply_changes_from(items, index, cs, ci);
                assert(o == spec_apply_changes_from(items1, index, cs, ci + 1));
                if 0 <= index < items.len() {
                    match spec_classify_change(cs[ci]) {
                        ChangeClass::Ignored => {
                            assert(items1 == items);
                        },
                        ChangeClass::Bad => {
                            assert(false);
                        },
                        ChangeClass::WriteText(s) => {
                            assert(spec_classify_change(cs[ci]) is WriteText);
                            assert(spec_written_text(cs, ci));
                            assert(items1 == items.update(
                                index,
                                spec_replace_text(items[index], s),
                            ));
                            assert(items1.len() == items.len());
                            assert(items1[index] == spec_replace_text(items[index], s));
                            assert(similar_items(items1[index], o.0[index], cs, ci + 1));
                            assert(similar_items(items[index], o.0[index], cs, ci));
                        },
                        ChangeClass::WriteBounds(f, v) => {
                            assert(spec_classify_change(
                                cs[ci],
                            ) matches ChangeClass::WriteBounds(g, w) && g == f);
                            assert(spec_written_bounds(cs, ci, f));
                            assert(items1.len() == items.len());
                            assert(similar_items(items1[index], o.0[index], cs, ci + 1));
                            assert(similar_items(items[index], o.0[index], cs, ci));
                        },
                    }
                    assert(forall|j: int|
                        0 <= j < items.len() && j != index ==> items1[j] == items[j]);
                } else {
                    match spec_classify_change(cs[ci]) {
                        ChangeClass::Ignored => {
                            assert(items1 == items);
                        },
                        _ => {
                            assert(false);
                        },
                    }
                }
            },
            Err(e) => {
            },
        }
    }
}

/// The absorption argument behind replay idempotence: a scene that
/// differs from `x` only in fields the remaining changes overwrite
/// anyway ends at exactly the same result.
proof fn lemma_changes_absorb(
    x: Seq<DisplayItemView>,
    y: Seq<DisplayItemView>,
    index: int,
    cs: Seq<Json>,
    ci: int,
)
    requires
        0 <= ci <= cs.len(),
        spec_apply_changes_from(x, index, cs, ci).1 is None,
        y.len() == x.len(),
        forall|j: int| 0 <= j < x.len() && j != index ==> y[j] == x[j],
        0 <= index < x.len() ==> similar_items(x[index], y[index], cs, ci),
        !(0 <= index < x.len()) ==> y == x,
    ensures
        spec_apply_changes_from(y, index, cs, ci) == (
            spec_apply_changes_from(x, index, cs, ci).0,
            None::<SceneError>,
        ),
    decreases cs.len() - ci,
{
    if ci >= cs.len() {
        if 0 <= index < x.len() {
            assert(y[index] == x[index]);
        }
        assert(y =~= x);
    } else {
        lemma_step_by_class(x, index, cs[ci]);
        lemma_step_by_class(y, index, cs[ci]);
        match spec_classify_change(cs[ci]) {
            ChangeClass::Ignored => {
                if 0 <= index < x.len() {
                    if x[index] is Text {
                        if !(spec_written_text(cs, ci + 1)) {
                            if spec_written_text(cs, ci) {
                                lemma_written_text_advance(cs, ci);
                            }
                        }
                    }
                    if x[index] is Rect {
                        lemma_bounds_advance_all(cs, ci);
                    }
                }
                lemma_changes_absorb(x, y, index, cs, ci + 1);
            },
            ChangeClass::Bad => {
                assert(false);
            },
            ChangeClass::WriteText(s) => {
                let x1 = spec_set_text(x, index, s);
                match x1 {
                    Ok(x1v) => {
                        let y1v = y.update(
                            index,
                            spec_replace_text(y[index], s),
                        );
                        assert(spec_set_text(y, index, s) == Ok::<
                            Seq<DisplayItemView>,
                            SceneError,
                        >(y1v));
                        lemma_changes_absorb(x1v, y1v, index, cs, ci + 1);
                    },
                    Err(e) => {
                        assert(false);
                    },
                }
            },
            ChangeClass::WriteBounds(f, v) => {
                let x1 = spec_set_rect(x, index, f, v);
                match x1 {
                    Ok(x1v) => {
                        match spec_set_rect(y, index, f, v) {
                            Ok(y1v) => {
                                lemma_bounds_advance_all(cs, ci);
                                lemma_changes_absorb(x1v, y1v, index, cs, ci + 1);
                            },
                            Err(e) => {
                                assert(false);
                            },
                        }
                    },
                    Err(e) => {
                        assert(false);
                    },
                }
            },
        }
    }
}

/// Whatever scalar position `ci` writes (or none), every *other*
/// scalar written at or after `ci` is also written at or after
/// `ci + 1`.
proof fn lemma_bounds_advance_all(cs: Seq<Json>, ci: int)
    requires
        0 <= ci < cs.len(),
    ensures
        forall|f: BoundsField|
            spec_written_bounds(cs, ci, f) && !(spec_classify_change(
                cs[ci],
            ) matches ChangeClass::WriteBounds(g, v) && g == f) ==> spec_written_bounds(
                cs,
                ci + 1,
                f,
            ),
        spec_written_text(cs, ci) && !(spec_classify_change(cs[ci]) is WriteText)
            ==> spec_written_text(cs, ci + 1),
{
    assert forall|f: BoundsField|
        spec_written_bounds(cs, ci, f) && !(spec_classify_change(
            cs[ci],
        ) matches ChangeClass::WriteBounds(g, v) && g == f) implies spec_written_bounds(
        cs,
        ci + 1,
        f,
    ) by {
        lemma_written_bounds_advance(cs, ci, f);
    }
    if spec_written_text(cs, ci) && !(spec_classify_change(cs[ci]) is WriteText) {
        lemma_written_text_advance(cs, ci);
    }
}

/// The text item `x` with its content replaced.
pub open spec fn spec_replace_text(x: DisplayItemView, s: Seq<char>) -> DisplayItemView {
    match x {
        DisplayItemView::Text { rect, color, text, font_key, font_instance_key } => (
        DisplayItemView::Text { rect, color, text: s, font_key, font_instance_key }),
        _ => x,
    }
}

/// Law: re-applying an identical list of partial-update descriptors
/// that applied cleanly is a true no-op on scene content.
pub proof fn lemma_changes_idempotent(items: Seq<DisplayItemView>, index: int, cs: Seq<Json>)
    requires
        spec_apply_changes_from(items, index, cs, 0).1 is None,
    ensures
        ({
            let r = spec_apply_changes_from(items, index, cs, 0).0;
            spec_apply_changes_from(r, index, cs, 0) == (r, None::<SceneError>)
        }),
{
    let r = spec_apply_changes_from(items, index, cs, 0).0;
    lemma_changes_frame(items, index, cs, 0);
    lemma_changes_absorb(items, r, index, cs, 0);
}

/// Law: re-applying an identical `UpdateSelf` entry that applied
/// cleanly (and was not stale) is a true no-op on scene content.
pub proof fn lemma_replay_update_self(items: Seq<DisplayItemView>, u: Json)
    requires
        !spec_update_self(items, u).stale,
        spec_update_self(items, u).error is None,
    ensures
        spec_update_self(spec_update_self(items, u).items, u) == (RenderStepView {
            items: spec_update_self(items, u).items,
            stale: false,
            error: None,
        }),
{
    match u {
        Json::Array(parts) => {
            if parts@.len() >= 1 {
                match spec_as_u64(parts@[0]) {
                    Some(index) => {
                        if items.len() > 0 && parts@.len() >= 2 {
                            match parts@[1] {
                                Json::Array(cs) => {
                                    lemma_changes_frame(items, index as int, cs@, 0);
                                    lemma_changes_idempotent(items, index as int, cs@);
                                },
                                _ => {
                                },
                            }
                        }
                    },
                    None => {
                    },
                }
            }
        },
        _ => {
        },
    }
}

/// Law: the override slots have single-slot take semantics — after a
/// write, the first read returns the written value and empties the
/// slot, so the second read returns nothing.
pub proof fn lemma_override_single_slot(v: EngineView, p: (i32, i32))
    ensures
        ({
            let written = EngineView { pending_position: Some(p), ..v };
            let first = spec_take_position(written);
            let second = spec_take_position(first.0);
            &&& first.1 == Some(p)
            &&& second.1 is None
            &&& second.0 == first.0
        }),
{
}

} // verus!
