//! Message routing: one decoded inbound message carries any subset of
//! the top-level fields `clear`, `position`, `size`, `resources`,
//! `render`, handled in that priority order.  Absence of a field is
//! not an error; the first failing field aborts the rest of the
//! message.

use vstd::prelude::*;

use crate::engine::{
    spec_parse_pair_i32, spec_parse_pair_u32, Engine, EngineView,
};
use crate::json::{spec_obj_get, obj_get, Json};
use crate::render::spec_render_from;
use crate::resources::spec_apply_resources_from;
use crate::scene::{DisplayItemView, ResourceView, SceneError};

verus! {

/// The state after a clear: scene and queue emptied atomically, scene
/// dirty, tables and override slots untouched.
pub open spec fn spec_clear_view(v: EngineView) -> EngineView {
    EngineView {
        resources: Seq::<ResourceView>::empty(),
        items: Seq::<DisplayItemView>::empty(),
        redraw: true,
        ..v
    }
}

/// The `render` field of a message, when present.
pub open spec fn spec_msg_render(v: EngineView, msg: Json) -> (EngineView, Result<
    (),
    SceneError,
>) {
    match spec_obj_get(msg, "render"@) {
        Some(rj) => match rj {
            Json::Array(entries) => {
                let out = spec_render_from(v.items, entries@, 0);
                let v2 = EngineView {
                    items: out.items,
                    redraw: if out.set_redraw {
                        true
                    } else {
                        v.redraw
                    },
                    ..v
                };
                match out.error {
                    None => (v2, Ok(())),
                    Some(e) => (v2, Err(e)),
                }
            },
            _ => (v, Err(SceneError::MalformedMessage)),
        },
        None => (v, Ok(())),
    }
}

/// The `resources` field of a message, when present, then `render`.
pub open spec fn spec_msg_resources(v: EngineView, msg: Json) -> (EngineView, Result<
    (),
    SceneError,
>) {
    match spec_obj_get(msg, "resources"@) {
        Some(rj) => match rj {
            Json::Array(entries) => {
                let out = spec_apply_resources_from(v.resources, entries@, 0);
                let v2 = EngineView { resources: out.0, ..v };
                match out.1 {
                    None => spec_msg_render(v2, msg),
                    Some(e) => (v2, Err(e)),
                }
            },
            _ => (v, Err(SceneError::MalformedMessage)),
        },
        None => spec_msg_render(v, msg),
    }
}

/// The `size` field of a message, when present, then the rest.
pub open spec fn spec_msg_size(v: EngineView, msg: Json) -> (EngineView, Result<(), SceneError>) {
    match spec_obj_get(msg, "size"@) {
        Some(s) => match spec_parse_pair_u32(s) {
            Some(p) => spec_msg_resources(EngineView { pending_size: Some(p), ..v }, msg),
            None => (v, Err(SceneError::MalformedMessage)),
        },
        None => spec_msg_resources(v, msg),
    }
}

/// One whole inbound message against an engine state: `clear`, then
/// `position`, `size`, `resources`, `render`, each only when present.
pub open spec fn spec_receive_message(v: EngineView, msg: Json) -> (EngineView, Result<
    (),
    SceneError,
>) {
    let v1 = if spec_obj_get(msg, "clear"@) is Some {
        spec_clear_view(v)
    } else {
        v
    };
    match spec_obj_get(msg, "position"@) {
        Some(p) => match spec_parse_pair_i32(p) {
            Some(pr) => spec_msg_size(EngineView { pending_position: Some(pr), ..v1 }, msg),
            None => (v1, Err(SceneError::MalformedMessage)),
        },
        None => spec_msg_size(v1, msg),
    }
}

impl Engine {
    /// Applies one decoded inbound message: each present top-level
    /// field invokes its operation, in the fixed priority order
    /// `clear`, `position`, `size`, `resources`, `render`.  A missing
    /// field is skipped; the first failing operation ends the message
    /// with its error, leaving what the earlier fields applied.
    pub fn receive_message(&mut self, msg: &Json) -> (r: Result<(), SceneError>)
        ensures
            ({
                let o = spec_receive_message(old(self)@, *msg);
                &&& final(self)@ == o.0
                &&& r == o.1
            }),
    {
        if let Some(_c) = obj_get(msg, "clear") {
            self.receive_clear();
        }
        if let Some(p) = obj_get(msg, "position") {
            match self.receive_position(p) {
                Ok(_) => {
                },
                Err(e) => {
                    return Err(e);
                },
            }
        }
        if let Some(s) = obj_get(msg, "size") {
            match self.receive_size(s) {
                Ok(_) => {
                },
                Err(e) => {
                    return Err(e);
                },
            }
        }
        if let Some(rj) = obj_get(msg, "resources") {
            match self.receive_resources(rj) {
                Ok(_) => {
                },
                Err(e) => {
                    return Err(e);
                },
            }
        }
        if let Some(rj) = obj_get(msg, "render") {
            match self.receive_render(rj) {
                Ok(_) => {
                },
                Err(e) => {
                    return Err(e);
                },
            }
        }
        Ok(())
    }
}

} // verus!
