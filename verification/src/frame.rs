//! Frame production: walking the scene in index order and emitting
//! renderer-consumable primitives, resolving text fonts against the
//! translation tables.

use vstd::prelude::*;

use crate::engine::{families_view, Engine};
use crate::scene::{
    BorderColors, BorderStyles, BorderWidths, BoundingClientRect, Color, DisplayItemView,
    RemoteDisplayItem, SceneError,
};

verus! {

broadcast use vstd::std_specs::hash::group_hash_axioms;

/// One primitive of a produced display list, carrying everything the
/// host's display-list builder needs: text items arrive with their
/// font already resolved to a family name and point size.
#[derive(Clone, PartialEq, Eq, Debug)]
pub enum DisplayPrimitive {
    Rect { rect: BoundingClientRect, color: Color },
    Border {
        rect: BoundingClientRect,
        colors: BorderColors,
        styles: BorderStyles,
        widths: BorderWidths,
    },
    Text { rect: BoundingClientRect, color: Color, family: String, size: u32, text: String },
}

/// The mathematical value of a primitive.
pub enum DisplayPrimitiveView {
    Rect { rect: BoundingClientRect, color: Color },
    Border {
        rect: BoundingClientRect,
        colors: BorderColors,
        styles: BorderStyles,
        widths: BorderWidths,
    },
    Text { rect: BoundingClientRect, color: Color, family: Seq<char>, size: u32, text: Seq<char> },
}

impl View for DisplayPrimitive {
    type V = DisplayPrimitiveView;

    open spec fn view(&self) -> DisplayPrimitiveView {
        match self {
            DisplayPrimitive::Rect { rect, color } => (DisplayPrimitiveView::Rect {
                rect: *rect,
                color: *color,
            }),
            DisplayPrimitive::Border { rect, colors, styles, widths } => (
            DisplayPrimitiveView::Border {
                rect: *rect,
                colors: *colors,
                styles: *styles,
                widths: *widths,
            }),
            DisplayPrimitive::Text { rect, color, family, size, text } => (
            DisplayPrimitiveView::Text {
                rect: *rect,
                color: *color,
                family: family@,
                size: *size,
                text: text@,
            }),
        }
    }
}

/// A display item that failed to render: the item keeps its place in
/// the scene, the failure is reported, and the rest of the frame
/// proceeds.
#[derive(Clone, Copy, PartialEq, Eq, Structural, Debug)]
pub struct FrameFailure {
    pub index: usize,
    pub error: SceneError,
}

/// A produced frame: the primitives in item order, and one report per
/// item that could not render.
pub struct FrameOutput {
    pub primitives: Vec<DisplayPrimitive>,
    pub failures: Vec<FrameFailure>,
}

pub open spec fn prims_view(ps: Seq<DisplayPrimitive>) -> Seq<DisplayPrimitiveView> {
    ps.map_values(|p: DisplayPrimitive| p@)
}

pub open spec fn failures_view(fs: Seq<FrameFailure>) -> Seq<(int, SceneError)> {
    fs.map_values(|f: FrameFailure| (f.index as int, f.error))
}

/// The mathematical value of a produced frame.
pub struct FrameView {
    pub primitives: Seq<DisplayPrimitiveView>,
    pub failures: Seq<(int, SceneError)>,
}

/// Walks the scene from position `i` on, in index order.  Rectangles
/// and borders always render; a text item renders exactly when both
/// its font key and its instance key have resolved translations, and
/// is reported missing otherwise; the image stub is reported
/// unsupported.  No failure aborts the walk.
pub open spec fn spec_frame_from(
    items: Seq<DisplayItemView>,
    families: Map<u64, Seq<char>>,
    sizes: Map<u64, u32>,
    i: int,
) -> FrameView
    decreases items.len() - i,
{
    if i < 0 || i >= items.len() {
        FrameView { primitives: Seq::empty(), failures: Seq::empty() }
    } else {
        let rest = spec_frame_from(items, families, sizes, i + 1);
        match items[i] {
            DisplayItemView::Rect { rect, color } => FrameView {
                primitives: seq![DisplayPrimitiveView::Rect { rect, color }] + rest.primitives,
                failures: rest.failures,
            },
            DisplayItemView::Border { rect, colors, styles, widths } => FrameView {
                primitives: seq![DisplayPrimitiveView::Border { rect, colors, styles, widths }]
                    + rest.primitives,
                failures: rest.failures,
            },
            DisplayItemView::Image => FrameView {
                primitives: rest.primitives,
                failures: seq![(i, SceneError::UnsupportedResource)] + rest.failures,
            },
            DisplayItemView::Text { rect, color, text, font_key, font_instance_key } => {
                if families.contains_key(font_key) && sizes.contains_key(font_instance_key) {
                    FrameView {
                        primitives: seq![
                            DisplayPrimitiveView::Text {
                                rect,
                                color,
                                family: families[font_key],
                                size: sizes[font_instance_key],
                                text,
                            },
                        ] + rest.primitives,
                        failures: rest.failures,
                    }
                } else {
                    FrameView {
                        primitives: rest.primitives,
                        failures: seq![(i, SceneError::MissingFont)] + rest.failures,
                    }
                }
            },
        }
    }
}

impl Engine {
    /// Produces one display list from the current scene: the walk of
    /// [`spec_frame_from`] over the items and the translation tables
    /// as they stand at this call.  Reads only; draining pending
    /// resources beforehand is the caller's tick via
    /// [`Engine::take_resource_updates`].
    pub fn generate_display_list(&self) -> (out: FrameOutput)
        ensures
            ({
                let f = spec_frame_from(self@.items, self@.families, self@.sizes, 0);
                &&& prims_view(out.primitives@) == f.primitives
                &&& failures_view(out.failures@) == f.failures
            }),
    {
        let ghost iv = self@.items;
        let ghost f_full = spec_frame_from(self@.items, self@.families, self@.sizes, 0);
        let mut primitives: Vec<DisplayPrimitive> = Vec::new();
        let mut failures: Vec<FrameFailure> = Vec::new();
        let mut i: usize = 0;
        proof {
            assert(prims_view(primitives@) =~= Seq::<DisplayPrimitiveView>::empty());
            assert(failures_view(failures@) =~= Seq::<(int, SceneError)>::empty());
        }
        while i < self.items.len()
            invariant
                i <= self.items@.len(),
                iv == self@.items,
                f_full == spec_frame_from(self@.items, self@.families, self@.sizes, 0),
                ({
                    let rest = spec_frame_from(iv, self@.families, self@.sizes, i as int);
                    &&& f_full.primitives == prims_view(primitives@) + rest.primitives
                    &&& f_full.failures == failures_view(failures@) + rest.failures
                }),
            decreases self.items@.len() - i,
        {
            let ghost rest_before = spec_frame_from(iv, self@.families, self@.sizes, i as int);
            let ghost prims_old = primitives@;
            let ghost fails_old = failures@;
            match &self.items[i] {
                RemoteDisplayItem::Rect(ri) => {
                    let p = DisplayPrimitive::Rect { rect: ri.rect, color: ri.color };
                    proof {
                        assert(prims_view(prims_old.push(p)) =~= prims_view(prims_old).push(p@));
                        assert(prims_view(prims_old).push(p@) + rest_before.primitives.drop_first()
                            =~= prims_view(prims_old) + rest_before.primitives);
                    }
                    primitives.push(p);
                },
                RemoteDisplayItem::Border(bi) => {
                    let p = DisplayPrimitive::Border {
                        rect: bi.rect,
                        colors: bi.colors,
                        styles: bi.styles,
                        widths: bi.widths,
                    };
                    proof {
                        assert(prims_view(prims_old.push(p)) =~= prims_view(prims_old).push(p@));
                        assert(prims_view(prims_old).push(p@) + rest_before.primitives.drop_first()
                            =~= prims_view(prims_old) + rest_before.primitives);
                    }
                    primitives.push(p);
                },
                RemoteDisplayItem::Image(_) => {
                    let fl = FrameFailure { index: i, error: SceneError::UnsupportedResource };
                    proof {
                        assert(failures_view(fails_old.push(fl)) =~= failures_view(
                            fails_old,
                        ).push((i as int, SceneError::UnsupportedResource)));
                        assert(failures_view(fails_old).push((i as int, SceneError::UnsupportedResource))
                            + rest_before.failures.drop_first() =~= failures_view(fails_old)
                            + rest_before.failures);
                    }
                    failures.push(fl);
                },
                RemoteDisplayItem::Text(ti) => {
                    let fam = match self.families.get(&ti.font_key) {
                        Some(fam) => Some(fam.clone()),
                        None => None,
                    };
                    let sz = match self.sizes.get(&ti.font_instance_key) {
                        Some(sz) => Some(*sz),
                        None => None,
                    };
                    proof {
                        assert(self@.families == families_view(self.families@));
                        assert(self@.families.contains_key(ti.font_key) == self.families@
                            .contains_key(ti.font_key));
                        if self.families@.contains_key(ti.font_key) {
                            assert(self@.families[ti.font_key] == self.families@[ti.font_key]@);
                        }
                    }
                    match (fam, sz) {
                        (Some(family), Some(size)) => {
                            let p = DisplayPrimitive::Text {
                                rect: ti.rect,
                                color: ti.color,
                                family,
                                size,
                                text: ti.text.clone(),
                            };
                            proof {
                                assert(prims_view(prims_old.push(p)) =~= prims_view(
                                    prims_old,
                                ).push(p@));
                                assert(prims_view(prims_old).push(p@)
                                    + rest_before.primitives.drop_first() =~= prims_view(prims_old)
                                    + rest_before.primitives);
                            }
                            primitives.push(p);
                        },
                        _ => {
                            let fl = FrameFailure { index: i, error: SceneError::MissingFont };
                            proof {
                                assert(failures_view(fails_old.push(fl)) =~= failures_view(
                                    fails_old,
                                ).push((i as int, SceneError::MissingFont)));
                                assert(failures_view(fails_old).push((
                                    i as int,
                                    SceneError::MissingFont,
                                )) + rest_before.failures.drop_first() =~= failures_view(fails_old)
                                    + rest_before.failures);
                            }
                            failures.push(fl);
                        },
                    }
                },
            }
            i = i + 1;
        }
        proof {
            let rest = spec_frame_from(iv, self@.families, self@.sizes, i as int);
            assert(rest.primitives == Seq::<DisplayPrimitiveView>::empty());
            assert(f_full.primitives =~= prims_view(primitives@));
            assert(f_full.failures =~= failures_view(failures@));
        }
        FrameOutput { primitives, failures }
    }
}

} // verus!
