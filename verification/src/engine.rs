//! The scene engine: the single aggregate holding the display-item
//! sequence, the pending-resource queue, the font translation tables,
//! the window-control override slots and the redraw flag.
//!
//! One engine value is the whole mutable state of the mirror.  Every
//! diff-application operation is one exclusive `&mut` call, so each
//! operation is atomic with respect to any concurrent frame producer
//! by construction; a host that shares the engine between a listener
//! and a render loop guards the whole value, not single fields.

use std::collections::HashMap;

use vstd::prelude::*;

use crate::json::{spec_as_i32, spec_as_u32, Json};
use crate::json::{as_i32, as_u32};
use crate::scene::{DisplayItemView, RemoteDisplayItem, RemoteResource, ResourceView, SceneError};

verus! {

broadcast use vstd::std_specs::hash::group_hash_axioms;

/// The mathematical value of an engine: every field as the model the
/// contracts speak of.
pub struct EngineView {
    /// Pending resources, in arrival order, not yet drained by a frame.
    pub resources: Seq<ResourceView>,
    /// The display items, addressed by positional index.
    pub items: Seq<DisplayItemView>,
    /// Resolved font translations: remote font key to family name.
    pub families: Map<u64, Seq<char>>,
    /// Resolved instance translations: instance key to point size.
    pub sizes: Map<u64, u32>,
    /// Unconsumed window-position override, at most one.
    pub pending_position: Option<(i32, i32)>,
    /// Unconsumed window-size override, at most one.
    pub pending_size: Option<(u32, u32)>,
    /// Whether scene content changed since the last redraw poll.
    pub redraw: bool,
}

pub open spec fn resources_view(rs: Seq<RemoteResource>) -> Seq<ResourceView> {
    rs.map_values(|r: RemoteResource| r@)
}

pub open spec fn items_view(items: Seq<RemoteDisplayItem>) -> Seq<DisplayItemView> {
    items.map_values(|i: RemoteDisplayItem| i@)
}

pub open spec fn families_view(m: Map<u64, String>) -> Map<u64, Seq<char>> {
    m.map_values(|s: String| s@)
}

/// The engine state.  Fields are public: the engine is a passive
/// aggregate with no hidden invariant, and every mutation the protocol
/// allows goes through the operations below.
pub struct Engine {
    pub resources: Vec<RemoteResource>,
    pub items: Vec<RemoteDisplayItem>,
    pub families: HashMap<u64, String>,
    pub sizes: HashMap<u64, u32>,
    pub pending_position: Option<(i32, i32)>,
    pub pending_size: Option<(u32, u32)>,
    pub redraw: bool,
}

impl View for Engine {
    type V = EngineView;

    open spec fn view(&self) -> EngineView {
        EngineView {
            resources: resources_view(self.resources@),
            items: items_view(self.items@),
            families: families_view(self.families@),
            sizes: self.sizes@,
            pending_position: self.pending_position,
            pending_size: self.pending_size,
            redraw: self.redraw,
        }
    }
}

/// A window position message: an array holding at least two signed
/// coordinates; anything else is malformed.
pub open spec fn spec_parse_pair_i32(msg: Json) -> Option<(i32, i32)> {
    match msg {
        Json::Array(els) => if els@.len() >= 2 {
            match (spec_as_i32(els@[0]), spec_as_i32(els@[1])) {
                (Some(x), Some(y)) => Some((x, y)),
                _ => None,
            }
        } else {
            None
        },
        _ => None,
    }
}

/// A window size message: an array holding at least two unsigned
/// extents; anything else is malformed.
pub open spec fn spec_parse_pair_u32(msg: Json) -> Option<(u32, u32)> {
    match msg {
        Json::Array(els) => if els@.len() >= 2 {
            match (spec_as_u32(els@[0]), spec_as_u32(els@[1])) {
                (Some(w), Some(h)) => Some((w, h)),
                _ => None,
            }
        } else {
            None
        },
        _ => None,
    }
}

/// Consuming the position override: the slot empties, the caller gets
/// whatever was there.
pub open spec fn spec_take_position(v: EngineView) -> (EngineView, Option<(i32, i32)>) {
    (EngineView { pending_position: None, ..v }, v.pending_position)
}

/// Consuming the size override.
pub open spec fn spec_take_size(v: EngineView) -> (EngineView, Option<(u32, u32)>) {
    (EngineView { pending_size: None, ..v }, v.pending_size)
}

impl Engine {
    /// A fresh engine: empty scene, empty registry, no overrides, no
    /// redraw pending.
    pub fn new() -> (e: Engine)
        ensures
            e@.resources == Seq::<ResourceView>::empty(),
            e@.items == Seq::<DisplayItemView>::empty(),
            e@.families == Map::<u64, Seq<char>>::empty(),
            e@.sizes == Map::<u64, u32>::empty(),
            e@.pending_position is None,
            e@.pending_size is None,
            e@.redraw == false,
    {
        let e = Engine {
            resources: Vec::new(),
            items: Vec::new(),
            families: HashMap::new(),
            sizes: HashMap::new(),
            pending_position: None,
            pending_size: None,
            redraw: false,
        };
        proof {
            assert(e@.resources =~= Seq::<ResourceView>::empty());
            assert(e@.items =~= Seq::<DisplayItemView>::empty());
            assert(e@.families =~= Map::<u64, Seq<char>>::empty());
        }
        e
    }

    /// Tears the mirrored document down: removes every display item
    /// and every pending resource in one operation and marks the scene
    /// dirty unconditionally.  The translation tables and the override
    /// slots persist; resolved keys are never revoked.
    pub fn receive_clear(&mut self)
        ensures
            final(self)@ == (EngineView {
                resources: Seq::<ResourceView>::empty(),
                items: Seq::<DisplayItemView>::empty(),
                redraw: true,
                ..old(self)@
            }),
    {
        self.resources.clear();
        self.items.clear();
        self.redraw = true;
        proof {
            assert(final(self)@.resources =~= Seq::<ResourceView>::empty());
            assert(final(self)@.items =~= Seq::<DisplayItemView>::empty());
        }
    }

    /// Stores a window-position override, replacing any unconsumed
    /// one, when the message decodes as a coordinate pair; a message of
    /// any other shape is rejected as malformed and changes nothing.
    pub fn receive_position(&mut self, msg: &Json) -> (r: Result<(), SceneError>)
        ensures
            (match spec_parse_pair_i32(*msg) {
                Some(p) => r is Ok && final(self)@ == (EngineView {
                    pending_position: Some(p),
                    ..old(self)@
                }),
                None => r == Err::<(), SceneError>(SceneError::MalformedMessage) && final(self)@
                    == old(self)@,
            }),
    {
        match msg {
            Json::Array(els) => if els.len() >= 2 {
                match (as_i32(&els[0]), as_i32(&els[1])) {
                    (Some(x), Some(y)) => {
                        self.pending_position = Some((x, y));
                        Ok(())
                    },
                    _ => Err(SceneError::MalformedMessage),
                }
            } else {
                Err(SceneError::MalformedMessage)
            },
            _ => Err(SceneError::MalformedMessage),
        }
    }

    /// Stores a window-size override, replacing any unconsumed one,
    /// when the message decodes as an extent pair; a message of any
    /// other shape is rejected as malformed and changes nothing.
    pub fn receive_size(&mut self, msg: &Json) -> (r: Result<(), SceneError>)
        ensures
            (match spec_parse_pair_u32(*msg) {
                Some(p) => r is Ok && final(self)@ == (EngineView {
                    pending_size: Some(p),
                    ..old(self)@
                }),
                None => r == Err::<(), SceneError>(SceneError::MalformedMessage) && final(self)@
                    == old(self)@,
            }),
    {
        match msg {
            Json::Array(els) => if els.len() >= 2 {
                match (as_u32(&els[0]), as_u32(&els[1])) {
                    (Some(w), Some(h)) => {
                        self.pending_size = Some((w, h));
                        Ok(())
                    },
                    _ => Err(SceneError::MalformedMessage),
                }
            } else {
                Err(SceneError::MalformedMessage)
            },
            _ => Err(SceneError::MalformedMessage),
        }
    }

    /// Consumes the window-position override: the first read after a
    /// write returns the written pair, and clears the slot, so a
    /// second read returns nothing until the next write.
    pub fn should_set_window_position(&mut self) -> (r: Option<(i32, i32)>)
        ensures
            r == old(self)@.pending_position,
            final(self)@ == (EngineView { pending_position: None, ..old(self)@ }),
            (final(self)@, r) == spec_take_position(old(self)@),
    {
        let r = self.pending_position;
        self.pending_position = None;
        r
    }

    /// Consumes the window-size override, with the same single-slot
    /// take semantics as the position override.
    pub fn should_set_window_size(&mut self) -> (r: Option<(u32, u32)>)
        ensures
            r == old(self)@.pending_size,
            final(self)@ == (EngineView { pending_size: None, ..old(self)@ }),
            (final(self)@, r) == spec_take_size(old(self)@),
    {
        let r = self.pending_size;
        self.pending_size = None;
        r
    }

    /// Consumes the redraw flag: reports whether content changed since
    /// the last poll and clears the flag exactly once.
    pub fn should_redraw(&mut self) -> (r: bool)
        ensures
            r == old(self)@.redraw,
            final(self)@ == (EngineView { redraw: false, ..old(self)@ }),
    {
        let r = self.redraw;
        self.redraw = false;
        r
    }
}

} // verus!
