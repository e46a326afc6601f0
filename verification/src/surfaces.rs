//! Browsing-context manager: the set of live per-server isolated surfaces.
//!
//! Each surface is identified by a unique label and owns an on-disk
//! profile directory keyed by its server id. The manager model enforces
//! that at most one live surface exists per label: creating a second one
//! with the same label first tears down the first, and a failure to close
//! the old surface is propagated, not swallowed. The host performs the
//! platform work (closing and attaching the actual embedded surfaces) and
//! reports its outcome to the manager.

use vstd::prelude::*;
use vstd::string::StringExecFns;
use crate::devices::DevicePreference;
use crate::isolation::{isolation_token, uuid_to_bytes};
use crate::script::{build_device_script, build_init_script, mediation_script_of, opt_label};
use crate::text::str_eq;

verus! {

/// Why a surface could not be created.
#[derive(Clone, Copy, PartialEq, Eq, Structural, Debug)]
pub enum CreationError {
    /// The target URL does not parse as an absolute URL.
    InvalidUrl,
    /// A surface with this label exists and closing it failed.
    CloseFailed,
    /// The per-server profile directory could not be created.
    ProfileDirUnavailable,
    /// The main application window is gone.
    HostWindowMissing,
}

/// An operation named a surface that is not live.
#[derive(Clone, Copy, PartialEq, Eq, Structural, Debug)]
pub enum SurfaceError {
    NotFound,
}

/// One live surface: its unique label and its stable account identifier.
pub struct Surface {
    pub label: String,
    pub server_id: String,
}

/// Everything the host needs to attach a new surface: where its profile
/// lives, the initialization payload, and the storage-isolation token.
pub struct SurfacePlan {
    /// Path of the profile directory, relative to the application data
    /// directory.
    pub profile_subpath: String,
    /// Context-menu script and mediation script combined, injected before
    /// first navigation.
    pub init_script: String,
    /// Deterministic 16-byte value for the platform's storage-isolation
    /// layer.
    pub isolation_token: [u8; 16],
}

/// Validate a creation request and compute its surface plan.
///
/// Fails exactly when the target URL is unparsable; the profile subpath,
/// the combined initialization script, and the isolation token are all
/// deterministic in the inputs.
pub fn prepare_surface(
    url: &str,
    server_id: &str,
    prefs: &DevicePreference,
    context_menu_script: &str,
) -> (r: Result<SurfacePlan, CreationError>)
    ensures
        r is Ok <==> url_ok(url@),
        r matches Ok(plan) ==> {
            &&& plan.profile_subpath@ == "servers/"@ + server_id@
            &&& plan.init_script@ == context_menu_script@ + "\n"@ + mediation_script_of(
                opt_label(prefs.mic),
                opt_label(prefs.cam),
                opt_label(prefs.speaker),
            ) + "\n"@
            &&& plan.isolation_token@ == isolation_token(server_id@)
        },
        r matches Err(e) ==> e == CreationError::InvalidUrl,
{
    if !url_parses(url) {
        return Result::Err(CreationError::InvalidUrl);
    }
    let mut subpath = String::new();
    subpath.append("servers/");
    subpath.append(server_id);
    let device_script = build_device_script(prefs);
    let init_script = build_init_script(context_menu_script, device_script.as_str());
    let token = uuid_to_bytes(server_id);
    Result::Ok(
        SurfacePlan { profile_subpath: subpath, init_script, isolation_token: token },
    )
}

/// Whether a string parses as an absolute URL.
pub uninterp spec fn url_ok(s: Seq<char>) -> bool;

/// Relies on url::Url::parse (the WHATWG URL parser, reached through
/// str::parse): whether a string parses as an absolute URL depends on the
/// string alone.
#[verifier::external_body]
fn url_parses(s: &str) -> (r: bool)
    ensures
        r == url_ok(s@),
{
    s.parse::<url::Url>().is_ok()
}

/// Predicate on a surface: its label is `label`.
pub open spec fn label_is_fn(label: Seq<char>) -> spec_fn(Surface) -> bool {
    |s: Surface| s.label@ == label
}

/// Predicate on a surface: its label is not `label`.
pub open spec fn label_is_not_fn(label: Seq<char>) -> spec_fn(Surface) -> bool {
    |s: Surface| s.label@ != label
}

/// The manager owning the set of live surfaces.
pub struct SurfaceManager {
    pub surfaces: Vec<Surface>,
}

impl SurfaceManager {
    /// Labels of live surfaces are pairwise distinct.
    pub open spec fn wf(&self) -> bool {
        forall|i: int, j: int|
            0 <= i < j < self.surfaces@.len() ==> self.surfaces@[i].label@
                != self.surfaces@[j].label@
    }

    /// A surface with this label is live.
    pub open spec fn is_live(&self, label: Seq<char>) -> bool {
        exists|i: int| 0 <= i < self.surfaces@.len() && self.surfaces@[i].label@ == label
    }

    /// No surfaces yet.
    pub fn new() -> (m: Self)
        ensures
            m.wf(),
            m.surfaces@.len() == 0,
    {
        SurfaceManager { surfaces: Vec::new() }
    }

    /// The index of the live surface with this label, if any.
    pub fn find_surface(&self, label: &str) -> (r: Option<usize>)
        ensures
            match r {
                Option::Some(i) => i < self.surfaces@.len() && self.surfaces@[
                    i as int
                ].label@ == label@,
                Option::None => !self.is_live(label@),
            },
    {
        let mut i: usize = 0;
        while i < self.surfaces.len()
            invariant
                i <= self.surfaces@.len(),
                forall|k: int| 0 <= k < i ==> self.surfaces@[k].label@ != label@,
            decreases self.surfaces@.len() - i,
        {
            if str_eq(self.surfaces[i].label.as_str(), label) {
                return Option::Some(i);
            }
            i += 1;
        }
        Option::None
    }

    /// Drop the surface with this label from the model, reporting whether
    /// one was live. The host closes the platform surface itself.
    fn drop_label(&mut self, label: &str) -> (was: bool)
        ensures
            final(self).surfaces@ == old(self).surfaces@.filter(label_is_not_fn(label@)),
            was == old(self).is_live(label@),
            old(self).wf() ==> final(self).wf(),
    {
        let ghost s_old = self.surfaces@;
        let mut kept: Vec<Surface> = Vec::new();
        let mut was = false;
        let mut i: usize = 0;
        while i < self.surfaces.len()
            invariant
                i <= s_old.len(),
                self.surfaces@ == s_old,
                kept@ == s_old.take(i as int).filter(label_is_not_fn(label@)),
                was == (exists|k: int| 0 <= k < i && s_old[k].label@ == label@),
            decreases s_old.len() - i,
        {
            proof {
                reveal(Seq::filter);
                assert(s_old.take(i as int + 1).drop_last() =~= s_old.take(i as int));
                assert(s_old.take(i as int + 1).last() == s_old[i as int]);
            }
            if str_eq(self.surfaces[i].label.as_str(), label) {
                was = true;
            } else {
                let entry = Surface {
                    label: self.surfaces[i].label.clone(),
                    server_id: self.surfaces[i].server_id.clone(),
                };
                proof {
                    assert(entry == s_old[i as int]);
                }
                kept.push(entry);
            }
            i += 1;
        }
        proof {
            assert(s_old.take(s_old.len() as int) =~= s_old);
            if old(self).wf() {
                lemma_filter_keeps_unique(s_old, label_is_not_fn(label@));
            }
        }
        self.surfaces = kept;
        was
    }

    /// Replace whatever surface holds this label. When one is live the
    /// host has first tried to close it; `close_ok` reports that outcome,
    /// and a failed close is propagated without touching the model. On
    /// success exactly one surface with this label is live, the new one.
    pub fn create_or_replace(&mut self, label: String, server_id: String, close_ok: bool) -> (r:
        Result<(), CreationError>)
        ensures
            r is Ok <==> !(old(self).is_live(label@) && !close_ok),
            old(self).is_live(label@) && !close_ok <==> r == Err::<(), CreationError>(
                CreationError::CloseFailed,
            ),
            r is Err ==> final(self).surfaces@ == old(self).surfaces@,
            r is Ok ==> final(self).surfaces@ == old(self).surfaces@.filter(
                label_is_not_fn(label@),
            ) + seq![(Surface { label, server_id })],
            r is Ok ==> final(self).is_live(label@),
            old(self).wf() ==> final(self).wf(),
    {
        let live = self.find_surface(label.as_str()).is_some();
        if live && !close_ok {
            return Result::Err(CreationError::CloseFailed);
        }
        let ghost s_old = self.surfaces@;
        self.drop_label(label.as_str());
        let ghost kept = self.surfaces@;
        self.surfaces.push(Surface { label, server_id });
        proof {
            assert(self.surfaces@ =~= kept + seq![self.surfaces@[kept.len() as int]]);
            let n = self.surfaces@.len() - 1;
            assert forall|a: int| 0 <= a < kept.len() implies kept[a].label@ != self.surfaces@[
                n
            ].label@ by {
                s_old.lemma_filter_pred(label_is_not_fn(self.surfaces@[n].label@), a);
            }
            if old(self).wf() {
                assert forall|i: int, j: int|
                    0 <= i < j < self.surfaces@.len() implies self.surfaces@[i].label@
                    != self.surfaces@[j].label@ by {
                    if j == n {
                        assert(kept[i].label@ != self.surfaces@[n].label@);
                    }
                }
            }
        }
        Result::Ok(())
    }

    /// Whether a reload can be issued: succeeds exactly for a live label;
    /// the host performs the platform reload on success.
    pub fn reload_surface(&self, label: &str) -> (r: Result<(), SurfaceError>)
        ensures
            r is Ok <==> self.is_live(label@),
            r is Err ==> r == Err::<(), SurfaceError>(SurfaceError::NotFound),
    {
        match self.find_surface(label) {
            Option::Some(_) => Result::Ok(()),
            Option::None => Result::Err(SurfaceError::NotFound),
        }
    }

    /// Remove a surface the host has destroyed. Idempotent: removing an
    /// unknown label changes nothing and reports `false`.
    pub fn remove_surface(&mut self, label: &str) -> (was: bool)
        ensures
            final(self).surfaces@ == old(self).surfaces@.filter(label_is_not_fn(label@)),
            was == old(self).is_live(label@),
            old(self).wf() ==> final(self).wf(),
    {
        self.drop_label(label)
    }
}

/// Law: a well-formed manager never holds two live surfaces for one
/// label. Together with `create_or_replace` preserving well-formedness
/// and closing the old surface first, two consecutive creations with the
/// same label leave at most one live surface for it.
pub proof fn lemma_at_most_one_live(m: SurfaceManager, label: Seq<char>)
    requires
        m.wf(),
    ensures
        m.surfaces@.filter(label_is_fn(label)).len() <= 1,
{
    lemma_unique_filter_le_one(m.surfaces@, label)
}

/// Filtering a sequence whose labels are pairwise distinct yields one
/// whose labels are pairwise distinct.
proof fn lemma_filter_keeps_unique(s: Seq<Surface>, pred: spec_fn(Surface) -> bool)
    requires
        forall|i: int, j: int| 0 <= i < j < s.len() ==> s[i].label@ != s[j].label@,
    ensures
        forall|i: int, j: int|
            0 <= i < j < s.filter(pred).len() ==> s.filter(pred)[i].label@ != s.filter(
                pred,
            )[j].label@,
    decreases s.len(),
{
    reveal(Seq::filter);
    if s.len() > 0 {
        let d = s.drop_last();
        lemma_filter_keeps_unique(d, pred);
        let f = s.filter(pred);
        let df = d.filter(pred);
        if pred(s.last()) {
            assert(f =~= df.push(s.last()));
            assert forall|i: int, j: int|
                0 <= i < j < f.len() implies f[i].label@ != f[j].label@ by {
                if j == f.len() - 1 {
                    assert(df.contains(df[i]));
                    d.lemma_filter_contains_rev(pred, df[i]);
                    let b = choose|b: int| 0 <= b < d.len() && d[b] == df[i];
                    assert(s[b].label@ != s[s.len() - 1].label@);
                }
            }
        }
    }
}

proof fn lemma_unique_filter_le_one(s: Seq<Surface>, label: Seq<char>)
    requires
        forall|i: int, j: int| 0 <= i < j < s.len() ==> s[i].label@ != s[j].label@,
    ensures
        s.filter(label_is_fn(label)).len() <= 1,
    decreases s.len(),
{
    reveal(Seq::filter);
    if s.len() > 0 {
        let d = s.drop_last();
        lemma_unique_filter_le_one(d, label);
        if label_is_fn(label)(s.last()) {
            assert forall|i: int| 0 <= i < d.len() implies !label_is_fn(label)(d[i]) by {
                assert(s[i].label@ != s[s.len() - 1].label@);
            }
            d.lemma_all_neg_filter_empty(label_is_fn(label));
        }
    }
}

} // verus!
