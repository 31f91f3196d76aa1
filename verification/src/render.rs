//! Render operations: the core diff-application algorithm.
//!
//! A "render" batch is a sequence of entries, each dispatched by its
//! marker key: partial updates of an existing item (`UpdateSelf`), or
//! appends of a rectangle, border or text item.  The batch is applied
//! entry by entry; the scene is marked dirty once per fully processed
//! batch, never per entry.

use vstd::prelude::*;
use vstd::string::StringExecFns;

use crate::engine::{items_view, Engine, EngineView};
use crate::json::{
    spec_field_u32, spec_field_u64, spec_field_u8, spec_as_u32, spec_as_u64, spec_obj_get,
    as_array, as_u32, as_u64, field_u32, field_u64, field_u8, obj_get, Json,
};
use crate::scene::{
    BorderColors, BorderStyle, BorderStyles, BorderWidths, BoundingClientRect, Color,
    DisplayItemView, RectPosition, RectSize, RemoteBorderItem, RemoteDisplayItem, RemoteRectItem,
    RemoteTextItem, SceneError,
};

verus! {

/// The geometry sub-object of an add entry: `bounds.position.left`,
/// `bounds.position.top`, `bounds.size.width`, `bounds.size.height`.
pub open spec fn spec_bounding_client_rect(v: Json) -> Option<BoundingClientRect> {
    match spec_obj_get(v, "bounds"@) {
        Some(b) => match (spec_obj_get(b, "position"@), spec_obj_get(b, "size"@)) {
            (Some(p), Some(s)) => match (
                spec_field_u32(p, "left"@),
                spec_field_u32(p, "top"@),
                spec_field_u32(s, "width"@),
                spec_field_u32(s, "height"@),
            ) {
                (Some(left), Some(top), Some(width), Some(height)) => Some(
                    BoundingClientRect {
                        position: RectPosition { left, top },
                        size: RectSize { width, height },
                    },
                ),
                _ => None,
            },
            _ => None,
        },
        None => None,
    }
}

/// The single color sub-object of an add entry: `display.color`.
pub open spec fn spec_color(v: Json) -> Option<Color> {
    match spec_obj_get(v, "display"@) {
        Some(d) => match spec_obj_get(d, "color"@) {
            Some(c) => match (
                spec_field_u8(c, "red"@),
                spec_field_u8(c, "green"@),
                spec_field_u8(c, "blue"@),
                spec_field_u8(c, "alpha"@),
            ) {
                (Some(red), Some(green), Some(blue), Some(alpha)) => Some(
                    Color { red, green, blue, alpha },
                ),
                _ => None,
            },
            None => None,
        },
        None => None,
    }
}

/// One edge color of a border entry: `display.colors[index]`.
pub open spec fn spec_border_color(v: Json, index: int) -> Option<Color> {
    match spec_obj_get(v, "display"@) {
        Some(d) => match spec_obj_get(d, "colors"@) {
            Some(cs) => match cs {
                Json::Array(els) => if 0 <= index && index < els@.len() {
                    match (
                        spec_field_u8(els@[index], "red"@),
                        spec_field_u8(els@[index], "green"@),
                        spec_field_u8(els@[index], "blue"@),
                        spec_field_u8(els@[index], "alpha"@),
                    ) {
                        (Some(red), Some(green), Some(blue), Some(alpha)) => Some(
                            Color { red, green, blue, alpha },
                        ),
                        _ => None,
                    }
                } else {
                    None
                },
                _ => None,
            },
            None => None,
        },
        None => None,
    }
}

pub open spec fn spec_border_colors(v: Json) -> Option<BorderColors> {
    match (
        spec_border_color(v, 0),
        spec_border_color(v, 1),
        spec_border_color(v, 2),
        spec_border_color(v, 3),
    ) {
        (Some(top), Some(right), Some(bottom), Some(left)) => Some(
            BorderColors { top, right, bottom, left },
        ),
        _ => None,
    }
}

/// The text of one source-text fragment.  A fragment tagged `Owned` —
/// or, failing that, `Static` — contributes its string; a fragment of
/// any other shape contributes nothing and is tolerated.
pub open spec fn spec_fragment_text(f: Json) -> Seq<char> {
    match spec_obj_get(f, "Owned"@) {
        Some(x) => match x {
            Json::Str(s) => s@,
            _ => Seq::empty(),
        },
        None => match spec_obj_get(f, "Static"@) {
            Some(x) => match x {
                Json::Str(s) => s@,
                _ => Seq::empty(),
            },
            None => Seq::empty(),
        },
    }
}

/// The concatenation of the fragment texts from position `i` on, in
/// fragment order.
pub open spec fn spec_concat_from(frags: Seq<Json>, i: int) -> Seq<char>
    decreases frags.len() - i,
{
    if i < 0 || i >= frags.len() {
        Seq::empty()
    } else {
        spec_fragment_text(frags[i]) + spec_concat_from(frags, i + 1)
    }
}

/// The concatenated source text of a text entry:
/// `display.source_text`, fragments joined in order.
pub open spec fn spec_source_text(v: Json) -> Option<Seq<char>> {
    match spec_obj_get(v, "display"@) {
        Some(d) => match spec_obj_get(d, "source_text"@) {
            Some(st) => match st {
                Json::Array(frags) => Some(spec_concat_from(frags@, 0)),
                _ => None,
            },
            None => None,
        },
        None => None,
    }
}

/// The font key of the first shaped-text descriptor:
/// `display.shaped_text[0].font_key`.
pub open spec fn spec_font_key(v: Json) -> Option<u64> {
    match spec_obj_get(v, "display"@) {
        Some(d) => match spec_obj_get(d, "shaped_text"@) {
            Some(st) => match st {
                Json::Array(els) => if els@.len() >= 1 {
                    spec_field_u64(els@[0], "font_key"@)
                } else {
                    None
                },
                _ => None,
            },
            None => None,
        },
        None => None,
    }
}

/// The instance key of the first shaped-text descriptor.
pub open spec fn spec_font_instance_key(v: Json) -> Option<u64> {
    match spec_obj_get(v, "display"@) {
        Some(d) => match spec_obj_get(d, "shaped_text"@) {
            Some(st) => match st {
                Json::Array(els) => if els@.len() >= 1 {
                    spec_field_u64(els@[0], "font_instance_key"@)
                } else {
                    None
                },
                _ => None,
            },
            None => None,
        },
        None => None,
    }
}

/// The item an `AddRect` entry appends.
pub open spec fn spec_add_rect(u: Json) -> Option<DisplayItemView> {
    match (spec_bounding_client_rect(u), spec_color(u)) {
        (Some(rect), Some(color)) => Some(DisplayItemView::Rect { rect, color }),
        _ => None,
    }
}

/// The item an `AddBorder` entry appends.  Styles and widths are the
/// fixed placeholders the protocol carries no encoding for yet.
pub open spec fn spec_add_border(u: Json) -> Option<DisplayItemView> {
    match (spec_bounding_client_rect(u), spec_border_colors(u)) {
        (Some(rect), Some(colors)) => Some(
            DisplayItemView::Border {
                rect,
                colors,
                styles: (BorderStyles {
                    top: BorderStyle::Solid,
                    right: BorderStyle::Solid,
                    bottom: BorderStyle::Solid,
                    left: BorderStyle::Solid,
                }),
                widths: (BorderWidths { top: 1, right: 1, bottom: 1, left: 1 }),
            },
        ),
        _ => None,
    }
}

/// The item an `AddText` entry appends.
pub open spec fn spec_add_text(u: Json) -> Option<DisplayItemView> {
    match (
        spec_bounding_client_rect(u),
        spec_color(u),
        spec_source_text(u),
        spec_font_key(u),
        spec_font_instance_key(u),
    ) {
        (Some(rect), Some(color), Some(text), Some(font_key), Some(font_instance_key)) => Some(
            DisplayItemView::Text { rect, color, text, font_key, font_instance_key },
        ),
        _ => None,
    }
}

/// Which scalar of an item's rectangle a bounds change replaces.
#[derive(Clone, Copy, PartialEq, Eq, Structural, Debug)]
pub enum BoundsField {
    Left,
    Top,
    Width,
    Height,
}

/// Replaces one scalar of the rectangle of the item at `index`: the
/// addressed item must exist and be a rectangle; nothing else of the
/// item, and no other item, changes.
pub open spec fn spec_set_rect(
    items: Seq<DisplayItemView>,
    index: int,
    sel: BoundsField,
    v: u32,
) -> Result<Seq<DisplayItemView>, SceneError> {
    if index < 0 || index >= items.len() {
        Err(SceneError::IndexOutOfRange)
    } else {
        match items[index] {
            DisplayItemView::Rect { rect, color } => {
                let rect2 = match sel {
                    BoundsField::Left => (BoundingClientRect {
                        position: RectPosition { left: v, top: rect.position.top },
                        size: rect.size,
                    }),
                    BoundsField::Top => (BoundingClientRect {
                        position: RectPosition { left: rect.position.left, top: v },
                        size: rect.size,
                    }),
                    BoundsField::Width => (BoundingClientRect {
                        position: rect.position,
                        size: RectSize { width: v, height: rect.size.height },
                    }),
                    BoundsField::Height => (BoundingClientRect {
                        position: rect.position,
                        size: RectSize { width: rect.size.width, height: v },
                    }),
                };
                Ok(items.update(index, DisplayItemView::Rect { rect: rect2, color }))
            },
            _ => Err(SceneError::WrongItemKind),
        }
    }
}

/// Replaces the text of the item at `index`, which must exist and be
/// a text item.
pub open spec fn spec_set_text(
    items: Seq<DisplayItemView>,
    index: int,
    s: Seq<char>,
) -> Result<Seq<DisplayItemView>, SceneError> {
    if index < 0 || index >= items.len() {
        Err(SceneError::IndexOutOfRange)
    } else {
        match items[index] {
            DisplayItemView::Text { rect, color, text, font_key, font_instance_key } => Ok(
                items.update(
                    index,
                    DisplayItemView::Text { rect, color, text: s, font_key, font_instance_key },
                ),
            ),
            _ => Err(SceneError::WrongItemKind),
        }
    }
}

/// A bounds-change descriptor: the first of the keys `x`, `y`,
/// `width`, `height` present selects the scalar; a `Bounds` object
/// with none of them, like a change with no recognized marker at all,
/// is silently ignored for the sake of forward-compatible peers.
pub open spec fn spec_bounds_step(items: Seq<DisplayItemView>, index: int, c: Json) -> Result<
    Seq<DisplayItemView>,
    SceneError,
> {
    match spec_obj_get(c, "Bounds"@) {
        Some(sp) => match spec_obj_get(sp, "x"@) {
            Some(xv) => match spec_as_u32(xv) {
                Some(v) => spec_set_rect(items, index, BoundsField::Left, v),
                None => Err(SceneError::MalformedMessage),
            },
            None => match spec_obj_get(sp, "y"@) {
                Some(yv) => match spec_as_u32(yv) {
                    Some(v) => spec_set_rect(items, index, BoundsField::Top, v),
                    None => Err(SceneError::MalformedMessage),
                },
                None => match spec_obj_get(sp, "width"@) {
                    Some(wv) => match spec_as_u32(wv) {
                        Some(v) => spec_set_rect(items, index, BoundsField::Width, v),
                        None => Err(SceneError::MalformedMessage),
                    },
                    None => match spec_obj_get(sp, "height"@) {
                        Some(hv) => match spec_as_u32(hv) {
                            Some(v) => spec_set_rect(items, index, BoundsField::Height, v),
                            None => Err(SceneError::MalformedMessage),
                        },
                        None => Ok(items),
                    },
                },
            },
        },
        None => Ok(items),
    }
}

/// One change descriptor of an `UpdateSelf` entry: a text-content
/// replacement when marked so, else a bounds change, else ignored.
pub open spec fn spec_change_step(items: Seq<DisplayItemView>, index: int, c: Json) -> Result<
    Seq<DisplayItemView>,
    SceneError,
> {
    match spec_obj_get(c, "Text"@) {
        Some(sp) => match spec_obj_get(sp, "content"@) {
            Some(content) => match content {
                Json::Str(s) => spec_set_text(items, index, s@),
                _ => Err(SceneError::MalformedMessage),
            },
            None => spec_bounds_step(items, index, c),
        },
        None => spec_bounds_step(items, index, c),
    }
}

/// Applies the change descriptors from position `ci` on, in order.
/// The first failing change aborts the rest; changes already applied
/// stay applied.
pub open spec fn spec_apply_changes_from(
    items: Seq<DisplayItemView>,
    index: int,
    cs: Seq<Json>,
    ci: int,
) -> (Seq<DisplayItemView>, Option<SceneError>)
    decreases cs.len() - ci,
{
    if ci < 0 || ci >= cs.len() {
        (items, None)
    } else {
        match spec_change_step(items, index, cs[ci]) {
            Ok(items2) => spec_apply_changes_from(items2, index, cs, ci + 1),
            Err(e) => (items, Some(e)),
        }
    }
}

/// The effect of one render entry on the item sequence.
pub struct RenderStepView {
    pub items: Seq<DisplayItemView>,
    /// The entry was an `UpdateSelf` against an empty scene: the whole
    /// batch is stale and silently discarded.
    pub stale: bool,
    pub error: Option<SceneError>,
}

pub open spec fn render_step_err(items: Seq<DisplayItemView>, e: SceneError) -> RenderStepView {
    RenderStepView { items, stale: false, error: Some(e) }
}

/// An `UpdateSelf` payload: `[index, [change, ...]]`.  A scene that is
/// currently empty makes the batch stale — the listener started after
/// the peer's document already held items it never announced here —
/// which is deliberate recovery, not an error.
pub open spec fn spec_update_self(items: Seq<DisplayItemView>, u: Json) -> RenderStepView {
    match u {
        Json::Array(parts) => if parts@.len() < 1 {
            render_step_err(items, SceneError::MalformedMessage)
        } else {
            match spec_as_u64(parts@[0]) {
                Some(index) => if items.len() == 0 {
                    RenderStepView { items, stale: true, error: None }
                } else if parts@.len() < 2 {
                    render_step_err(items, SceneError::MalformedMessage)
                } else {
                    match parts@[1] {
                        Json::Array(cs) => {
                            let o = spec_apply_changes_from(items, index as int, cs@, 0);
                            RenderStepView { items: o.0, stale: false, error: o.1 }
                        },
                        _ => render_step_err(items, SceneError::MalformedMessage),
                    }
                },
                None => render_step_err(items, SceneError::MalformedMessage),
            }
        },
        _ => render_step_err(items, SceneError::MalformedMessage),
    }
}

/// One render entry, dispatched by marker key in the fixed order
/// `UpdateSelf`, `AddRect`, `AddBorder`, `AddText`; an entry matching
/// none of them is a protocol violation.
pub open spec fn spec_apply_render_entry(items: Seq<DisplayItemView>, j: Json) -> RenderStepView {
    match spec_obj_get(j, "UpdateSelf"@) {
        Some(u) => spec_update_self(items, u),
        None => match spec_obj_get(j, "AddRect"@) {
            Some(u) => match spec_add_rect(u) {
                Some(item) => RenderStepView { items: items.push(item), stale: false, error: None },
                None => render_step_err(items, SceneError::MalformedMessage),
            },
            None => match spec_obj_get(j, "AddBorder"@) {
                Some(u) => match spec_add_border(u) {
                    Some(item) => RenderStepView {
                        items: items.push(item),
                        stale: false,
                        error: None,
                    },
                    None => render_step_err(items, SceneError::MalformedMessage),
                },
                None => match spec_obj_get(j, "AddText"@) {
                    Some(u) => match spec_add_text(u) {
                        Some(item) => RenderStepView {
                            items: items.push(item),
                            stale: false,
                            error: None,
                        },
                        None => render_step_err(items, SceneError::MalformedMessage),
                    },
                    None => render_step_err(items, SceneError::UnknownDiffKind),
                },
            },
        },
    }
}

/// The outcome of a whole render batch.
pub struct RenderOutcomeView {
    pub items: Seq<DisplayItemView>,
    /// Whether the batch ran to completion and so marks the scene
    /// dirty — exactly once, however many entries it held.
    pub set_redraw: bool,
    pub error: Option<SceneError>,
}

/// Applies the entries of a render batch from position `i` on.  A
/// stale batch is discarded whole without error; the first failing
/// entry aborts the rest, keeping what was applied before it; only a
/// batch that completes marks the scene dirty.
pub open spec fn spec_render_from(
    items: Seq<DisplayItemView>,
    entries: Seq<Json>,
    i: int,
) -> RenderOutcomeView
    decreases entries.len() - i,
{
    if i < 0 || i >= entries.len() {
        RenderOutcomeView { items, set_redraw: true, error: None }
    } else {
        let step = spec_apply_render_entry(items, entries[i]);
        if step.stale {
            RenderOutcomeView { items, set_redraw: false, error: None }
        } else {
            match step.error {
                Some(e) => RenderOutcomeView { items: step.items, set_redraw: false, error: Some(e) },
                None => spec_render_from(step.items, entries, i + 1),
            }
        }
    }
}

/// Decodes the geometry sub-object of an add entry.
pub fn get_bounding_client_rect(v: &Json) -> (r: Option<BoundingClientRect>)
    ensures
        r == spec_bounding_client_rect(*v),
{
    let b = match obj_get(v, "bounds") {
        Some(b) => b,
        None => {
            return None;
        },
    };
    let p = match obj_get(b, "position") {
        Some(p) => p,
        None => {
            return None;
        },
    };
    let s = match obj_get(b, "size") {
        Some(s) => s,
        None => {
            return None;
        },
    };
    let left = match field_u32(p, "left") {
        Some(n) => n,
        None => {
            return None;
        },
    };
    let top = match field_u32(p, "top") {
        Some(n) => n,
        None => {
            return None;
        },
    };
    let width = match field_u32(s, "width") {
        Some(n) => n,
        None => {
            return None;
        },
    };
    let height = match field_u32(s, "height") {
        Some(n) => n,
        None => {
            return None;
        },
    };
    Some(
        BoundingClientRect {
            position: RectPosition { left, top },
            size: RectSize { width, height },
        },
    )
}

/// Decodes the color sub-object of an add entry.
pub fn get_color(v: &Json) -> (r: Option<Color>)
    ensures
        r == spec_color(*v),
{
    let d = match obj_get(v, "display") {
        Some(d) => d,
        None => {
            return None;
        },
    };
    let c = match obj_get(d, "color") {
        Some(c) => c,
        None => {
            return None;
        },
    };
    let red = match field_u8(c, "red") {
        Some(n) => n,
        None => {
            return None;
        },
    };
    let green = match field_u8(c, "green") {
        Some(n) => n,
        None => {
            return None;
        },
    };
    let blue = match field_u8(c, "blue") {
        Some(n) => n,
        None => {
            return None;
        },
    };
    let alpha = match field_u8(c, "alpha") {
        Some(n) => n,
        None => {
            return None;
        },
    };
    Some(Color { red, green, blue, alpha })
}

/// Decodes one edge color of a border entry.
pub fn get_border_color(v: &Json, index: usize) -> (r: Option<Color>)
    ensures
        r == spec_border_color(*v, index as int),
{
    let d = match obj_get(v, "display") {
        Some(d) => d,
        None => {
            return None;
        },
    };
    let cs = match obj_get(d, "colors") {
        Some(cs) => cs,
        None => {
            return None;
        },
    };
    let els = match as_array(cs) {
        Some(els) => els,
        None => {
            return None;
        },
    };
    if index >= els.len() {
        return None;
    }
    let c = &els[index];
    let red = match field_u8(c, "red") {
        Some(n) => n,
        None => {
            return None;
        },
    };
    let green = match field_u8(c, "green") {
        Some(n) => n,
        None => {
            return None;
        },
    };
    let blue = match field_u8(c, "blue") {
        Some(n) => n,
        None => {
            return None;
        },
    };
    let alpha = match field_u8(c, "alpha") {
        Some(n) => n,
        None => {
            return None;
        },
    };
    Some(Color { red, green, blue, alpha })
}

/// The border style of one edge.  The wire protocol carries no style
/// encoding yet, so this is the fixed placeholder; decoding a real
/// style is a known extension point.
pub fn get_border_style(_v: &Json, _index: usize) -> (r: BorderStyle)
    ensures
        r == BorderStyle::Solid,
{
    BorderStyle::Solid
}

/// The border width of one edge: the fixed placeholder, as with the
/// style.
pub fn get_border_width(_v: &Json, _index: usize) -> (r: u32)
    ensures
        r == 1u32,
{
    1
}

pub fn get_border_colors(v: &Json) -> (r: Option<BorderColors>)
    ensures
        r == spec_border_colors(*v),
{
    let top = match get_border_color(v, 0) {
        Some(c) => c,
        None => {
            return None;
        },
    };
    let right = match get_border_color(v, 1) {
        Some(c) => c,
        None => {
            return None;
        },
    };
    let bottom = match get_border_color(v, 2) {
        Some(c) => c,
        None => {
            return None;
        },
    };
    let left = match get_border_color(v, 3) {
        Some(c) => c,
        None => {
            return None;
        },
    };
    Some(BorderColors { top, right, bottom, left })
}

pub fn get_border_styles(v: &Json) -> (r: BorderStyles)
    ensures
        r == (BorderStyles {
            top: BorderStyle::Solid,
            right: BorderStyle::Solid,
            bottom: BorderStyle::Solid,
            left: BorderStyle::Solid,
        }),
{
    BorderStyles {
        top: get_border_style(v, 0),
        right: get_border_style(v, 1),
        bottom: get_border_style(v, 2),
        left: get_border_style(v, 3),
    }
}

pub fn get_border_widths(v: &Json) -> (r: BorderWidths)
    ensures
        r == (BorderWidths { top: 1, right: 1, bottom: 1, left: 1 }),
{
    BorderWidths {
        top: get_border_width(v, 0),
        right: get_border_width(v, 1),
        bottom: get_border_width(v, 2),
        left: get_border_width(v, 3),
    }
}

/// Decodes and concatenates the source-text fragments of a text
/// entry, in fragment order; fragments of an unrecognized shape
/// contribute nothing.
pub fn get_source_text(v: &Json) -> (r: Option<String>)
    ensures
        (match r {
            Some(s) => spec_source_text(*v) == Some(s@),
            None => spec_source_text(*v) is None,
        }),
{
    let d = match obj_get(v, "display") {
        Some(d) => d,
        None => {
            return None;
        },
    };
    let st = match obj_get(d, "source_text") {
        Some(st) => st,
        None => {
            return None;
        },
    };
    let frags = match as_array(st) {
        Some(f) => f,
        None => {
            return None;
        },
    };
    let mut out = String::new();
    let mut i: usize = 0;
    while i < frags.len()
        invariant
            i <= frags@.len(),
            spec_source_text(*v) == Some(spec_concat_from(frags@, 0)),
            spec_concat_from(frags@, 0) == out@ + spec_concat_from(frags@, i as int),
        decreases frags@.len() - i,
    {
        let frag = &frags[i];
        let ghost out_before = out@;
        let piece = match obj_get(frag, "Owned") {
            Some(x) => Some(x),
            None => obj_get(frag, "Static"),
        };
        match piece {
            Some(x) => match x {
                Json::Str(s) => {
                    out.append(s.as_str());
                },
                _ => {
                },
            },
            None => {
            },
        }
        proof {
            assert(out@ == out_before + spec_fragment_text(frags@[i as int]));
            assert(out_before + spec_concat_from(frags@, i as int) == out_before + (
            spec_fragment_text(frags@[i as int]) + spec_concat_from(frags@, i as int + 1)));
            assert(out_before + (spec_fragment_text(frags@[i as int]) + spec_concat_from(
                frags@,
                i as int + 1,
            )) =~= (out_before + spec_fragment_text(frags@[i as int])) + spec_concat_from(
                frags@,
                i as int + 1,
            ));
        }
        i = i + 1;
    }
    proof {
        assert(out@ + spec_concat_from(frags@, i as int) =~= out@);
    }
    Some(out)
}

/// The font key of the first shaped-text descriptor of a text entry.
pub fn get_font_key(v: &Json) -> (r: Option<u64>)
    ensures
        r == spec_font_key(*v),
{
    let d = match obj_get(v, "display") {
        Some(d) => d,
        None => {
            return None;
        },
    };
    let st = match obj_get(d, "shaped_text") {
        Some(st) => st,
        None => {
            return None;
        },
    };
    let els = match as_array(st) {
        Some(els) => els,
        None => {
            return None;
        },
    };
    if els.len() == 0 {
        return None;
    }
    field_u64(&els[0], "font_key")
}

/// The instance key of the first shaped-text descriptor of a text
/// entry.
pub fn get_font_instance_key(v: &Json) -> (r: Option<u64>)
    ensures
        r == spec_font_instance_key(*v),
{
    let d = match obj_get(v, "display") {
        Some(d) => d,
        None => {
            return None;
        },
    };
    let st = match obj_get(d, "shaped_text") {
        Some(st) => st,
        None => {
            return None;
        },
    };
    let els = match as_array(st) {
        Some(els) => els,
        None => {
            return None;
        },
    };
    if els.len() == 0 {
        return None;
    }
    field_u64(&els[0], "font_instance_key")
}

/// Replaces one scalar of the rectangle of the item at `index`.
fn set_rect_bounds(items: &mut Vec<RemoteDisplayItem>, index: u64, sel: BoundsField, v: u32) -> (r:
    Result<(), SceneError>)
    ensures
        (match spec_set_rect(items_view(old(items)@), index as int, sel, v) {
            Ok(iv2) => r is Ok && items_view(final(items)@) == iv2,
            Err(e) => r == Err::<(), SceneError>(e) && final(items)@ == old(items)@,
        }),
{
    if index >= items.len() as u64 {
        return Err(SceneError::IndexOutOfRange);
    }
    let idx = index as usize;
    let mut ri: RemoteRectItem = match &items[idx] {
        RemoteDisplayItem::Rect(ri) => *ri,
        _ => {
            return Err(SceneError::WrongItemKind);
        },
    };
    match sel {
        BoundsField::Left => {
            ri.rect.position.left = v;
        },
        BoundsField::Top => {
            ri.rect.position.top = v;
        },
        BoundsField::Width => {
            ri.rect.size.width = v;
        },
        BoundsField::Height => {
            ri.rect.size.height = v;
        },
    }
    items[idx] = RemoteDisplayItem::Rect(ri);
    proof {
        assert(items_view(items@) =~= items_view(old(items)@).update(
            idx as int,
            items@[idx as int]@,
        ));
    }
    Ok(())
}

/// Replaces the text of the item at `index`.
fn set_text_content(items: &mut Vec<RemoteDisplayItem>, index: u64, s: &String) -> (r: Result<
    (),
    SceneError,
>)
    ensures
        (match spec_set_text(items_view(old(items)@), index as int, s@) {
            Ok(iv2) => r is Ok && items_view(final(items)@) == iv2,
            Err(e) => r == Err::<(), SceneError>(e) && final(items)@ == old(items)@,
        }),
{
    if index >= items.len() as u64 {
        return Err(SceneError::IndexOutOfRange);
    }
    let idx = index as usize;
    let ti: RemoteTextItem = match &items[idx] {
        RemoteDisplayItem::Text(t) => (RemoteTextItem {
            rect: t.rect,
            color: t.color,
            text: s.clone(),
            font_key: t.font_key,
            font_instance_key: t.font_instance_key,
        }),
        _ => {
            return Err(SceneError::WrongItemKind);
        },
    };
    items[idx] = RemoteDisplayItem::Text(ti);
    proof {
        assert(items_view(items@) =~= items_view(old(items)@).update(
            idx as int,
            items@[idx as int]@,
        ));
    }
    Ok(())
}

/// Applies one change descriptor of an `UpdateSelf` entry.
fn apply_change_step(items: &mut Vec<RemoteDisplayItem>, index: u64, c: &Json) -> (r: Result<
    (),
    SceneError,
>)
    ensures
        (match spec_change_step(items_view(old(items)@), index as int, *c) {
            Ok(iv2) => r is Ok && items_view(final(items)@) == iv2,
            Err(e) => r == Err::<(), SceneError>(e) && final(items)@ == old(items)@,
        }),
{
    if let Some(sp) = obj_get(c, "Text") {
        if let Some(content) = obj_get(sp, "content") {
            let s = match content {
                Json::Str(s) => s,
                _ => {
                    return Err(SceneError::MalformedMessage);
                },
            };
            return set_text_content(items, index, s);
        }
    }
    apply_bounds_step(items, index, c)
}

/// Applies the bounds-change half of a change descriptor; a change
/// with no recognized scalar key is silently ignored.
fn apply_bounds_step(items: &mut Vec<RemoteDisplayItem>, index: u64, c: &Json) -> (r: Result<
    (),
    SceneError,
>)
    ensures
        (match spec_bounds_step(items_view(old(items)@), index as int, *c) {
            Ok(iv2) => r is Ok && items_view(final(items)@) == iv2,
            Err(e) => r == Err::<(), SceneError>(e) && final(items)@ == old(items)@,
        }),
{
    let sp = match obj_get(c, "Bounds") {
        Some(sp) => sp,
        None => {
            return Ok(());
        },
    };
    if let Some(xv) = obj_get(sp, "x") {
        let v = match as_u32(xv) {
            Some(v) => v,
            None => {
                return Err(SceneError::MalformedMessage);
            },
        };
        return set_rect_bounds(items, index, BoundsField::Left, v);
    }
    if let Some(yv) = obj_get(sp, "y") {
        let v = match as_u32(yv) {
            Some(v) => v,
            None => {
                return Err(SceneError::MalformedMessage);
            },
        };
        return set_rect_bounds(items, index, BoundsField::Top, v);
    }
    if let Some(wv) = obj_get(sp, "width") {
        let v = match as_u32(wv) {
            Some(v) => v,
            None => {
                return Err(SceneError::MalformedMessage);
            },
        };
        return set_rect_bounds(items, index, BoundsField::Width, v);
    }
    if let Some(hv) = obj_get(sp, "height") {
        let v = match as_u32(hv) {
            Some(v) => v,
            None => {
                return Err(SceneError::MalformedMessage);
            },
        };
        return set_rect_bounds(items, index, BoundsField::Height, v);
    }
    Ok(())
}

/// How an `UpdateSelf` entry ended.
#[derive(Clone, Copy, PartialEq, Eq, Structural, Debug)]
pub enum UpdateOutcome {
    /// Every change applied (or was tolerably ignored).
    Applied,
    /// The scene was empty: the batch is stale and must be discarded.
    Stale,
    /// A change failed; what preceded it stays applied.
    Failed(SceneError),
}

impl Engine {
    /// Applies one `UpdateSelf` payload to the scene.
    fn apply_update_self(&mut self, u: &Json) -> (r: UpdateOutcome)
        ensures
            ({
                let s = spec_update_self(old(self)@.items, *u);
                &&& final(self)@ == (EngineView { items: s.items, ..old(self)@ })
                &&& r == (if s.stale {
                    UpdateOutcome::Stale
                } else {
                    match s.error {
                        None => UpdateOutcome::Applied,
                        Some(e) => UpdateOutcome::Failed(e),
                    }
                })
            }),
    {
        let parts = match as_array(u) {
            Some(p) => p,
            None => {
                return UpdateOutcome::Failed(SceneError::MalformedMessage);
            },
        };
        if parts.len() < 1 {
            return UpdateOutcome::Failed(SceneError::MalformedMessage);
        }
        let index = match as_u64(&parts[0]) {
            Some(n) => n,
            None => {
                return UpdateOutcome::Failed(SceneError::MalformedMessage);
            },
        };
        if self.items.len() == 0 {
            return UpdateOutcome::Stale;
        }
        if parts.len() < 2 {
            return UpdateOutcome::Failed(SceneError::MalformedMessage);
        }
        let cs = match as_array(&parts[1]) {
            Some(c) => c,
            None => {
                return UpdateOutcome::Failed(SceneError::MalformedMessage);
            },
        };
        let ghost iv0 = items_view(self.items@);
        let mut ci: usize = 0;
        while ci < cs.len()
            invariant
                ci <= cs@.len(),
                *u == Json::Array(*parts),
                parts@.len() >= 2,
                spec_as_u64(parts@[0]) == Some(index),
                parts@[1] == Json::Array(*cs),
                iv0 == old(self)@.items,
                iv0.len() > 0,
                self@ == (EngineView { items: items_view(self.items@), ..old(self)@ }),
                spec_apply_changes_from(iv0, index as int, cs@, 0) == spec_apply_changes_from(
                    items_view(self.items@),
                    index as int,
                    cs@,
                    ci as int,
                ),
            decreases cs@.len() - ci,
        {
            let ghost cur = items_view(self.items@);
            match apply_change_step(&mut self.items, index, &cs[ci]) {
                Ok(()) => {
                    proof {
                        assert(spec_apply_changes_from(cur, index as int, cs@, ci as int)
                            == spec_apply_changes_from(
                            items_view(self.items@),
                            index as int,
                            cs@,
                            ci as int + 1,
                        ));
                    }
                },
                Err(e) => {
                    proof {
                        assert(spec_apply_changes_from(cur, index as int, cs@, ci as int) == (
                        cur,
                        Some(e),
                        ));
                    }
                    return UpdateOutcome::Failed(e);
                },
            }
            ci = ci + 1;
        }
        proof {
            let cur = items_view(self.items@);
            assert(spec_apply_changes_from(cur, index as int, cs@, ci as int) == (
            cur,
            None::<SceneError>,
            ));
        }
        UpdateOutcome::Applied
    }

    /// Applies a "render" batch: dispatches each entry in order, then
    /// — only when the whole batch was processed — marks the scene
    /// dirty exactly once.  A stale batch (an `UpdateSelf` against an
    /// empty scene) is discarded whole, silently, and does not dirty
    /// the scene; the first failing entry aborts the rest of the
    /// batch, keeping what was applied before it.
    pub fn receive_render(&mut self, msg: &Json) -> (r: Result<(), SceneError>)
        ensures
            (match *msg {
                Json::Array(entries) => {
                    let out = spec_render_from(old(self)@.items, entries@, 0);
                    &&& final(self)@ == (EngineView {
                        items: out.items,
                        redraw: if out.set_redraw {
                            true
                        } else {
                            old(self)@.redraw
                        },
                        ..old(self)@
                    })
                    &&& r == (match out.error {
                        None => Ok::<(), SceneError>(()),
                        Some(e) => Err::<(), SceneError>(e),
                    })
                },
                _ => r == Err::<(), SceneError>(SceneError::MalformedMessage) && final(self)@
                    == old(self)@,
            }),
    {
        let entries = match msg {
            Json::Array(a) => a,
            _ => {
                return Err(SceneError::MalformedMessage);
            },
        };
        let ghost full = spec_render_from(old(self)@.items, entries@, 0);
        let mut i: usize = 0;
        while i < entries.len()
            invariant
                i <= entries@.len(),
                *msg == Json::Array(*entries),
                self@ == (EngineView { items: items_view(self.items@), ..old(self)@ }),
                full == spec_render_from(items_view(self.items@), entries@, i as int),
                full == spec_render_from(old(self)@.items, entries@, 0),
            decreases entries@.len() - i,
        {
            let entry = &entries[i];
            let ghost cur = items_view(self.items@);
            let ghost step = spec_apply_render_entry(cur, entries@[i as int]);
            if let Some(u) = obj_get(entry, "UpdateSelf") {
                match self.apply_update_self(u) {
                    UpdateOutcome::Applied => {
                        proof {
                            assert(full == spec_render_from(
                                items_view(self.items@),
                                entries@,
                                i as int + 1,
                            ));
                        }
                    },
                    UpdateOutcome::Stale => {
                        proof {
                            assert(full == RenderOutcomeView {
                                items: items_view(self.items@),
                                set_redraw: false,
                                error: None,
                            });
                        }
                        return Ok(());
                    },
                    UpdateOutcome::Failed(e) => {
                        proof {
                            assert(full == RenderOutcomeView {
                                items: items_view(self.items@),
                                set_redraw: false,
                                error: Some(e),
                            });
                        }
                        return Err(e);
                    },
                }
            } else if let Some(u) = obj_get(entry, "AddRect") {
                let rect = match get_bounding_client_rect(u) {
                    Some(rc) => rc,
                    None => {
                        return Err(SceneError::MalformedMessage);
                    },
                };
                let color = match get_color(u) {
                    Some(c) => c,
                    None => {
                        return Err(SceneError::MalformedMessage);
                    },
                };
                let item = RemoteDisplayItem::Rect(RemoteRectItem { rect, color });
                proof {
                    assert(items_view(self.items@.push(item)) =~= cur.push(item@));
                }
                self.items.push(item);
            } else if let Some(u) = obj_get(entry, "AddBorder") {
                let rect = match get_bounding_client_rect(u) {
                    Some(rc) => rc,
                    None => {
                        return Err(SceneError::MalformedMessage);
                    },
                };
                let colors = match get_border_colors(u) {
                    Some(c) => c,
                    None => {
                        return Err(SceneError::MalformedMessage);
                    },
                };
                let styles = get_border_styles(u);
                let widths = get_border_widths(u);
                let item = RemoteDisplayItem::Border(
                    RemoteBorderItem { rect, colors, styles, widths },
                );
                proof {
                    assert(items_view(self.items@.push(item)) =~= cur.push(item@));
                }
                self.items.push(item);
            } else if let Some(u) = obj_get(entry, "AddText") {
                let rect = match get_bounding_client_rect(u) {
                    Some(rc) => rc,
                    None => {
                        return Err(SceneError::MalformedMessage);
                    },
                };
                let color = match get_color(u) {
                    Some(c) => c,
                    None => {
                        return Err(SceneError::MalformedMessage);
                    },
                };
                let text = match get_source_text(u) {
                    Some(t) => t,
                    None => {
                        return Err(SceneError::MalformedMessage);
                    },
                };
                let font_key = match get_font_key(u) {
                    Some(k) => k,
                    None => {
                        return Err(SceneError::MalformedMessage);
                    },
                };
                let font_instance_key = match get_font_instance_key(u) {
                    Some(k) => k,
                    None => {
                        return Err(SceneError::MalformedMessage);
                    },
                };
                let item = RemoteDisplayItem::Text(
                    RemoteTextItem { rect, color, text, font_key, font_instance_key },
                );
                proof {
                    assert(item@ == (DisplayItemView::Text {
                        rect,
                        color,
                        text: item->Text_0.text@,
                        font_key,
                        font_instance_key,
                    }));
                    assert(items_view(self.items@.push(item)) =~= cur.push(item@));
                }
                self.items.push(item);
            } else {
                proof {
                    assert(step == render_step_err(cur, SceneError::UnknownDiffKind));
                }
                return Err(SceneError::UnknownDiffKind);
            }
            i = i + 1;
        }
        self.redraw = true;
        Ok(())
    }
}

} // verus!
