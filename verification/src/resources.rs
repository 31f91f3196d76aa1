//! Resource operations: queueing font resources from a "resources"
//! batch, and draining the queue at frame-production time into the
//! translation tables and a list of registrations for the host's font
//! service.

use vstd::prelude::*;

use crate::engine::{families_view, resources_view, Engine, EngineView};
use crate::json::{
    spec_field_string, spec_field_u32, spec_field_u64, spec_obj_get, field_string, field_u32,
    field_u64, obj_get, Json,
};
use crate::scene::{
    RemoteFontInstanceResource, RemoteFontResource, RemoteResource, ResourceView, SceneError,
};

verus! {

broadcast use vstd::std_specs::hash::group_hash_axioms;

/// One entry of a "resources" batch, decoded.  `AddFont` carries the
/// remote key and the encoded payload; `AddFontInstance` a sized
/// instance of an already-announced font.  Any other shape is either
/// malformed (a recognized kind with a bad field) or an unknown diff
/// kind (a protocol violation).
pub open spec fn spec_parse_resource_entry(j: Json) -> Result<ResourceView, SceneError> {
    match spec_obj_get(j, "AddFont"@) {
        Some(u) => match (spec_field_u64(u, "key"@), spec_field_string(u, "data_uri"@)) {
            (Some(key), Some(uri)) => Ok(ResourceView::Font { key, data_uri: uri }),
            _ => Err(SceneError::MalformedMessage),
        },
        None => match spec_obj_get(j, "AddFontInstance"@) {
            Some(u) => match (
                spec_field_u64(u, "key"@),
                spec_field_u64(u, "instance_key"@),
                spec_field_u32(u, "size"@),
            ) {
                (Some(key), Some(instance_key), Some(size)) => Ok(
                    ResourceView::FontInstance { key, instance_key, size },
                ),
                _ => Err(SceneError::MalformedMessage),
            },
            None => Err(SceneError::UnknownDiffKind),
        },
    }
}

/// Applies the entries of a "resources" batch from position `i` on:
/// each decoded entry is queued in arrival order, and the first entry
/// that fails to decode aborts the rest of the batch, keeping what was
/// queued before it.
pub open spec fn spec_apply_resources_from(rs: Seq<ResourceView>, entries: Seq<Json>, i: int) -> (
    Seq<ResourceView>,
    Option<SceneError>,
)
    decreases entries.len() - i,
{
    if i < 0 || i >= entries.len() {
        (rs, None)
    } else {
        match spec_parse_resource_entry(entries[i]) {
            Ok(rv) => spec_apply_resources_from(rs.push(rv), entries, i + 1),
            Err(e) => (rs, Some(e)),
        }
    }
}

/// The number of pending font resources from position `i` on.
pub open spec fn spec_font_count_from(rs: Seq<ResourceView>, i: int) -> nat
    decreases rs.len() - i,
{
    if i < 0 || i >= rs.len() {
        0
    } else {
        (if rs[i] is Font {
            1nat
        } else {
            0nat
        }) + spec_font_count_from(rs, i + 1)
    }
}

/// The number of pending font resources.
pub open spec fn spec_font_count(rs: Seq<ResourceView>) -> nat {
    spec_font_count_from(rs, 0)
}

/// A registration the frame producer hands to the host's font service
/// while draining the queue.
#[derive(Clone, PartialEq, Eq, Debug)]
pub enum ResourceUpdate {
    /// Register the encoded font payload under a name derived from the
    /// remote key.
    RegisterFont { key: u64, data_uri: String },
    /// Request a sized handle for an already-registered family.
    RegisterSizedFont { family: String, size: u32 },
}

/// The mathematical value of a registration.
pub enum ResourceUpdateView {
    RegisterFont { key: u64, data_uri: Seq<char> },
    RegisterSizedFont { family: Seq<char>, size: u32 },
}

impl View for ResourceUpdate {
    type V = ResourceUpdateView;

    open spec fn view(&self) -> ResourceUpdateView {
        match self {
            ResourceUpdate::RegisterFont { key, data_uri } => (ResourceUpdateView::RegisterFont {
                key: *key,
                data_uri: data_uri@,
            }),
            ResourceUpdate::RegisterSizedFont { family, size } => (
            ResourceUpdateView::RegisterSizedFont { family: family@, size: *size }),
        }
    }
}

pub open spec fn updates_view(us: Seq<ResourceUpdate>) -> Seq<ResourceUpdateView> {
    us.map_values(|u: ResourceUpdate| u@)
}

pub open spec fn strings_view(ss: Seq<String>) -> Seq<Seq<char>> {
    ss.map_values(|s: String| s@)
}

/// The outcome of draining the pending-resource queue.
pub struct DrainView {
    /// The family table after the drain.
    pub families: Map<u64, Seq<char>>,
    /// The size table after the drain.
    pub sizes: Map<u64, u32>,
    /// The registrations handed to the font service, in drain order.
    pub updates: Seq<ResourceUpdateView>,
    /// One report per resource that could not resolve, in drain order.
    pub failures: Seq<SceneError>,
}

/// Drains the pending resources from position `i` on, in arrival
/// order.  `fams`, read from position `fi` on, supplies the family
/// name the font service reports for each font payload, in the same
/// order.  A font records its translation and is registered; an
/// instance resolves against the families drained so far, in the same
/// or an earlier batch — the engine never reorders — and a font
/// missing at that point is reported, as is the image stub.  A failed
/// resource is reported and the drain proceeds: no resource failure
/// ends frame production.
pub open spec fn spec_drain_from(
    rs: Seq<ResourceView>,
    fams: Seq<Seq<char>>,
    fi: int,
    families: Map<u64, Seq<char>>,
    sizes: Map<u64, u32>,
    i: int,
) -> DrainView
    decreases rs.len() - i,
{
    if i < 0 || i >= rs.len() {
        DrainView {
            families,
            sizes,
            updates: Seq::empty(),
            failures: Seq::empty(),
        }
    } else {
        match rs[i] {
            ResourceView::Font { key, data_uri } => {
                let rest = spec_drain_from(
                    rs,
                    fams,
                    fi + 1,
                    families.insert(key, fams[fi]),
                    sizes,
                    i + 1,
                );
                DrainView {
                    updates: seq![ResourceUpdateView::RegisterFont { key, data_uri }]
                        + rest.updates,
                    ..rest
                }
            },
            ResourceView::FontInstance { key, instance_key, size } => {
                if families.contains_key(key) {
                    let rest = spec_drain_from(
                        rs,
                        fams,
                        fi,
                        families,
                        sizes.insert(instance_key, size),
                        i + 1,
                    );
                    DrainView {
                        updates: seq![
                            ResourceUpdateView::RegisterSizedFont {
                                family: families[key],
                                size,
                            },
                        ] + rest.updates,
                        ..rest
                    }
                } else {
                    let rest = spec_drain_from(rs, fams, fi, families, sizes, i + 1);
                    DrainView { failures: seq![SceneError::MissingFont] + rest.failures, ..rest }
                }
            },
            ResourceView::Image => {
                let rest = spec_drain_from(rs, fams, fi, families, sizes, i + 1);
                DrainView {
                    failures: seq![SceneError::UnsupportedResource] + rest.failures,
                    ..rest
                }
            },
        }
    }
}

/// Decodes one entry of a "resources" batch.
pub fn parse_resource_entry(j: &Json) -> (r: Result<RemoteResource, SceneError>)
    ensures
        (match r {
            Ok(res) => spec_parse_resource_entry(*j) == Ok::<ResourceView, SceneError>(res@),
            Err(e) => spec_parse_resource_entry(*j) == Err::<ResourceView, SceneError>(e),
        }),
{
    if let Some(u) = obj_get(j, "AddFont") {
        let key = match field_u64(u, "key") {
            Some(k) => k,
            None => {
                return Err(SceneError::MalformedMessage);
            },
        };
        let data_uri = match field_string(u, "data_uri") {
            Some(s) => s.clone(),
            None => {
                return Err(SceneError::MalformedMessage);
            },
        };
        Ok(RemoteResource::Font(RemoteFontResource { key, data_uri }))
    } else if let Some(u) = obj_get(j, "AddFontInstance") {
        let key = match field_u64(u, "key") {
            Some(k) => k,
            None => {
                return Err(SceneError::MalformedMessage);
            },
        };
        let instance_key = match field_u64(u, "instance_key") {
            Some(k) => k,
            None => {
                return Err(SceneError::MalformedMessage);
            },
        };
        let size = match field_u32(u, "size") {
            Some(s) => s,
            None => {
                return Err(SceneError::MalformedMessage);
            },
        };
        Ok(
            RemoteResource::FontInstance(
                RemoteFontInstanceResource { key, instance_key, size },
            ),
        )
    } else {
        Err(SceneError::UnknownDiffKind)
    }
}

impl Engine {
    /// Applies a "resources" batch: queues each `AddFont` and
    /// `AddFontInstance` entry as a pending resource, in order.  The
    /// first entry that decodes to no recognized shape aborts the rest
    /// of the batch — earlier entries stay queued — and nothing else of
    /// the engine changes; queueing never touches the redraw flag.
    pub fn receive_resources(&mut self, msg: &Json) -> (r: Result<(), SceneError>)
        ensures
            (match *msg {
                Json::Array(entries) => {
                    let out = spec_apply_resources_from(old(self)@.resources, entries@, 0);
                    &&& final(self)@ == (EngineView { resources: out.0, ..old(self)@ })
                    &&& r == (match out.1 {
                        None => Ok::<(), SceneError>(()),
                        Some(e) => Err::<(), SceneError>(e),
                    })
                },
                _ => r == Err::<(), SceneError>(SceneError::MalformedMessage) && final(self)@
                    == old(self)@,
            }),
    {
        let entries = match msg {
            Json::Array(a) => a,
            _ => {
                return Err(SceneError::MalformedMessage);
            },
        };
        let ghost full = spec_apply_resources_from(old(self)@.resources, entries@, 0);
        let mut i: usize = 0;
        while i < entries.len()
            invariant
                i <= entries@.len(),
                *msg == Json::Array(*entries),
                self@ == (EngineView { resources: resources_view(self.resources@), ..old(self)@ }),
                full == spec_apply_resources_from(
                    resources_view(self.resources@),
                    entries@,
                    i as int,
                ),
                full == spec_apply_resources_from(old(self)@.resources, entries@, 0),
            decreases entries@.len() - i,
        {
            match parse_resource_entry(&entries[i]) {
                Ok(res) => {
                    proof {
                        let rv = resources_view(self.resources@);
                        assert(spec_apply_resources_from(rv, entries@, i as int)
                            == spec_apply_resources_from(rv.push(res@), entries@, i as int + 1));
                        assert(resources_view(self.resources@.push(res)) =~= rv.push(res@));
                    }
                    self.resources.push(res);
                },
                Err(e) => {
                    proof {
                        let rv = resources_view(self.resources@);
                        assert(spec_apply_resources_from(rv, entries@, i as int) == (rv, Some(e)));
                    }
                    return Err(e);
                },
            }
            i = i + 1;
        }
        proof {
            let rv = resources_view(self.resources@);
            assert(spec_apply_resources_from(rv, entries@, i as int) == (rv, None::<SceneError>));
        }
        Ok(())
    }

    /// How many pending font payloads the next drain will consume: the
    /// caller of [`Engine::take_resource_updates`] supplies one family
    /// name per font, in queue order.
    pub fn pending_font_count(&self) -> (n: usize)
        ensures
            n == spec_font_count(self@.resources),
    {
        let mut n: usize = 0;
        let mut i: usize = 0;
        while i < self.resources.len()
            invariant
                i <= self.resources@.len(),
                n <= i,
                spec_font_count(resources_view(self.resources@)) == n + spec_font_count_from(
                    resources_view(self.resources@),
                    i as int,
                ),
            decreases self.resources@.len() - i,
        {
            match &self.resources[i] {
                RemoteResource::Font(_) => {
                    n = n + 1;
                },
                _ => {
                },
            }
            i = i + 1;
        }
        n
    }

    /// Drains every pending resource, in arrival order, resolving each
    /// against the translation tables: fonts record their reported
    /// family name — `families` supplies one name per pending font
    /// payload, in queue order — and produce a registration;
    /// instances resolve their font key against the families drained
    /// so far and record their size, or are reported missing; image
    /// stubs are reported unsupported.  Failures are reported
    /// per-resource and never abort the drain.  The queue is empty
    /// afterwards; the scene and the override slots are untouched.
    pub fn take_resource_updates(&mut self, families: &Vec<String>) -> (out: (
        Vec<ResourceUpdate>,
        Vec<SceneError>,
    ))
        requires
            families@.len() == spec_font_count(old(self)@.resources),
        ensures
            ({
                let d = spec_drain_from(
                    old(self)@.resources,
                    strings_view(families@),
                    0,
                    old(self)@.families,
                    old(self)@.sizes,
                    0,
                );
                &&& final(self)@ == (EngineView {
                    resources: Seq::<ResourceView>::empty(),
                    families: d.families,
                    sizes: d.sizes,
                    ..old(self)@
                })
                &&& updates_view(out.0@) == d.updates
                &&& out.1@ == d.failures
            }),
    {
        let ghost rv = resources_view(self.resources@);
        let ghost fams = strings_view(families@);
        let ghost full = spec_drain_from(rv, fams, 0, self@.families, self@.sizes, 0);
        let mut updates: Vec<ResourceUpdate> = Vec::new();
        let mut failures: Vec<SceneError> = Vec::new();
        let mut fi: usize = 0;
        let mut i: usize = 0;
        proof {
            assert(updates_view(updates@) =~= Seq::<ResourceUpdateView>::empty());
        }
        while i < self.resources.len()
            invariant
                i <= self.resources@.len(),
                fi <= families@.len(),
                rv == resources_view(self.resources@),
                fams == strings_view(families@),
                fams.len() == families@.len(),
                self@ == (EngineView {
                    families: families_view(self.families@),
                    sizes: self.sizes@,
                    ..old(self)@
                }),
                spec_font_count_from(rv, i as int) == fams.len() - fi,
                ({
                    let rest = spec_drain_from(
                        rv,
                        fams,
                        fi as int,
                        families_view(self.families@),
                        self.sizes@,
                        i as int,
                    );
                    &&& full.families == rest.families
                    &&& full.sizes == rest.sizes
                    &&& full.updates == updates_view(updates@) + rest.updates
                    &&& full.failures == failures@ + rest.failures
                }),
                full == spec_drain_from(
                    old(self)@.resources,
                    strings_view(families@),
                    0,
                    old(self)@.families,
                    old(self)@.sizes,
                    0,
                ),
            decreases self.resources@.len() - i,
        {
            let ghost rest_before = spec_drain_from(
                rv,
                fams,
                fi as int,
                families_view(self.families@),
                self.sizes@,
                i as int,
            );
            match &self.resources[i] {
                RemoteResource::Font(f) => {
                    proof {
                        assert(rv[i as int] == self.resources@[i as int]@);
                        assert(rv[i as int] is Font);
                        assert(spec_font_count_from(rv, i as int) == 1 + spec_font_count_from(
                            rv,
                            i as int + 1,
                        ));
                        assert(fi < families@.len());
                    }
                    let upd = ResourceUpdate::RegisterFont {
                        key: f.key,
                        data_uri: f.data_uri.clone(),
                    };
                    let ghost updates_old = updates@;
                    updates.push(upd);
                    let key = f.key;
                    let fam = families[fi].clone();
                    proof {
                        assert(fams[fi as int] == families@[fi as int]@);
                        assert(families_view(self.families@.insert(key, fam)) =~= families_view(
                            self.families@,
                        ).insert(key, fam@));
                        assert(updates_view(updates_old.push(upd)) =~= updates_view(
                            updates_old,
                        ).push(upd@));
                        assert(updates_view(updates_old).push(upd@) + rest_before.updates.drop_first()
                            =~= updates_view(updates_old) + rest_before.updates);
                    }
                    self.families.insert(key, fam);
                    let flen = families.len();
                    proof {
                        assert(fi < flen);
                    }
                    fi = fi + 1;
                },
                RemoteResource::FontInstance(f) => {
                    proof {
                        assert(rv[i as int] == self.resources@[i as int]@);
                        assert(spec_font_count_from(rv, i as int) == spec_font_count_from(
                            rv,
                            i as int + 1,
                        ));
                    }
                    let instance_key = f.instance_key;
                    let size = f.size;
                    match self.families.get(&f.key) {
                        Some(fam) => {
                            proof {
                                assert(families_view(self.families@).contains_key(f.key));
                                assert(families_view(self.families@)[f.key] == fam@);
                            }
                            let upd = ResourceUpdate::RegisterSizedFont {
                                family: fam.clone(),
                                size,
                            };
                            let ghost updates_old = updates@;
                            updates.push(upd);
                            proof {
                                assert(updates_view(updates_old.push(upd)) =~= updates_view(
                                    updates_old,
                                ).push(upd@));
                                assert(updates_view(updates_old).push(upd@)
                                    + rest_before.updates.drop_first() =~= updates_view(updates_old)
                                    + rest_before.updates);
                            }
                            self.sizes.insert(instance_key, size);
                        },
                        None => {
                            proof {
                                assert(!families_view(self.families@).contains_key(f.key));
                                assert(failures@.push(SceneError::MissingFont)
                                    + rest_before.failures.drop_first() =~= failures@
                                    + rest_before.failures);
                            }
                            failures.push(SceneError::MissingFont);
                        },
                    }
                },
                RemoteResource::Image(_) => {
                    proof {
                        assert(rv[i as int] == self.resources@[i as int]@);
                        assert(spec_font_count_from(rv, i as int) == spec_font_count_from(
                            rv,
                            i as int + 1,
                        ));
                        assert(failures@.push(SceneError::UnsupportedResource)
                            + rest_before.failures.drop_first() =~= failures@
                            + rest_before.failures);
                    }
                    failures.push(SceneError::UnsupportedResource);
                },
            }
            i = i + 1;
        }
        proof {
            let rest = spec_drain_from(
                rv,
                fams,
                fi as int,
                families_view(self.families@),
                self.sizes@,
                i as int,
            );
            assert(rest.updates == Seq::<ResourceUpdateView>::empty());
            assert(full.updates =~= updates_view(updates@));
            assert(full.failures =~= failures@);
        }
        self.resources = Vec::new();
        proof {
            assert(resources_view(self.resources@) =~= Seq::<ResourceView>::empty());
        }
        (updates, failures)
    }
}

} // verus!
