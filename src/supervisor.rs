//! The auto-attach supervisor: the profiles of devices to keep attached, keyed
//! by persisted GUID, and the long-running attach process of each.
//!
//! Adding a device takes four steps. [`AutoAttacher::prepare_add`] checks that
//! the device is bound and connected and says what to run: an attach first
//! when the device is not attached, so that a failure shows at once rather
//! than in the background, then the auto-attach process. The caller runs the
//! attach and waits for the device to show as attached. [`AutoAttacher::check_untracked`]
//! then refuses a profile that is tracked already. Only after that does the
//! caller start the auto-attach process and hand it to
//! [`AutoAttacher::insert`], which registers profile and process together.
//! Nothing is registered before that, so a failure at any step leaves the
//! supervisor as it was.
use vstd::prelude::*;

use crate::commands::{auto_attach_args, make_auto_attach_args};
use crate::device::{opt_view, UsbDevice};
use crate::error::{Requirement, UsbipError};
use crate::operation::{Operation, OperationView};
use crate::text::strs;
use crate::version::Version;

verus! {

/// A device to keep attached, identified by its persisted GUID. Two profiles
/// with the same `id` are the same profile, whatever their descriptions.
#[derive(Debug)]
pub struct AutoAttachProfile {
    /// The persisted GUID of the device.
    pub id: String,
    pub description: Option<String>,
}

pub struct ProfileView {
    pub id: Seq<char>,
    pub description: Option<Seq<char>>,
}

impl View for AutoAttachProfile {
    type V = ProfileView;

    open spec fn view(&self) -> ProfileView {
        ProfileView { id: self.id@, description: opt_view(self.description) }
    }
}

impl PartialEq for AutoAttachProfile {
    fn eq(&self, other: &AutoAttachProfile) -> (r: bool) {
        self.id == other.id
    }
}

impl vstd::std_specs::cmp::PartialEqSpecImpl for AutoAttachProfile {
    open spec fn obeys_eq_spec() -> bool {
        true
    }

    open spec fn eq_spec(&self, other: &AutoAttachProfile) -> bool {
        self.id@ == other.id@
    }
}

impl Eq for AutoAttachProfile {

}

impl AutoAttachProfile {
    /// A copy of the profile.
    pub fn duplicate(&self) -> (r: AutoAttachProfile)
        ensures
            r@ == self@,
    {
        let description = match &self.description {
            Some(d) => Some(d.clone()),
            None => None,
        };
        AutoAttachProfile { id: self.id.clone(), description }
    }
}

pub open spec fn profile_views(s: Seq<AutoAttachProfile>) -> Seq<ProfileView> {
    s.map_values(|p: AutoAttachProfile| p@)
}

/// What the caller runs to add a device: the attach operation, if the device
/// is not attached yet, then the auto-attach process with `launch_args`.
pub struct PendingAdd {
    pub profile: AutoAttachProfile,
    pub attach: Option<Operation>,
    pub launch_args: Vec<String>,
}

/// The profiles and the processes, of handle type `H`, that keep them attached.
pub struct AutoAttacher<H> {
    profiles: Vec<AutoAttachProfile>,
    process_ids: Vec<String>,
    handles: Vec<H>,
}

pub struct SupervisorView<H> {
    pub profiles: Seq<ProfileView>,
    /// The profile id each process serves, in step with `handles`.
    pub process_ids: Seq<Seq<char>>,
    pub handles: Seq<H>,
}

impl<H> SupervisorView<H> {
    pub open spec fn tracks(self, id: Seq<char>) -> bool {
        exists|i: int| 0 <= i < self.profiles.len() && (#[trigger] self.profiles[i]).id == id
    }

    pub open spec fn has_process(self, id: Seq<char>) -> bool {
        exists|i: int| 0 <= i < self.process_ids.len() && #[trigger] self.process_ids[i] == id
    }

    /// Profiles are unique by id, each profile has at most one process, and
    /// each process serves a tracked profile.
    pub open spec fn wf(self) -> bool {
        &&& self.process_ids.len() == self.handles.len()
        &&& forall|i: int, j: int|
            0 <= i < j < self.profiles.len() ==> (#[trigger] self.profiles[i]).id != (
            #[trigger] self.profiles[j]).id
        &&& forall|i: int, j: int|
            0 <= i < j < self.process_ids.len() ==> #[trigger] self.process_ids[i]
                != #[trigger] self.process_ids[j]
        &&& forall|i: int|
            0 <= i < self.process_ids.len() ==> self.tracks(#[trigger] self.process_ids[i])
    }

    /// The position of the profile with this id.
    pub open spec fn profile_at(self, id: Seq<char>) -> int {
        choose|i: int| 0 <= i < self.profiles.len() && (#[trigger] self.profiles[i]).id == id
    }

    /// The position of the process serving this id.
    pub open spec fn process_at(self, id: Seq<char>) -> int {
        choose|i: int| 0 <= i < self.process_ids.len() && #[trigger] self.process_ids[i] == id
    }

    /// Why a device cannot be prepared for adding, if it cannot: it must be
    /// bound, so that it has a persisted GUID, and it must have a bus ID, to
    /// be attached.
    pub open spec fn add_refusal(d: UsbDevice) -> Option<UsbipError> {
        match d.persisted_guid {
            None => Some(UsbipError::Precondition(Requirement::PersistedGuid)),
            Some(_) => if d.bus_id is None {
                Some(UsbipError::Precondition(Requirement::BusId))
            } else {
                None
            },
        }
    }

    /// Whether a profile may be registered: refused as a duplicate when its
    /// id is tracked already.
    pub open spec fn admission(self, p: ProfileView) -> Result<(), UsbipError> {
        if self.tracks(p.id) {
            Err(UsbipError::Duplicate)
        } else {
            Ok(())
        }
    }

    /// The supervisor with the profile and its process added.
    pub open spec fn added(self, p: ProfileView, h: H) -> SupervisorView<H> {
        SupervisorView {
            profiles: self.profiles.push(p),
            process_ids: self.process_ids.push(p.id),
            handles: self.handles.push(h),
        }
    }

    /// Registering a profile with its process: refused, handing the process
    /// back, when the id is tracked already.
    pub open spec fn inserted(self, p: ProfileView, h: H) -> (Result<(), H>, SupervisorView<H>) {
        if self.tracks(p.id) {
            (Err(h), self)
        } else {
            (Ok(()), self.added(p, h))
        }
    }

    /// The supervisor without the profile of this id and without its process.
    pub open spec fn removed(self, id: Seq<char>) -> SupervisorView<H> {
        SupervisorView {
            profiles: if self.tracks(id) {
                self.profiles.remove(self.profile_at(id))
            } else {
                self.profiles
            },
            process_ids: if self.has_process(id) {
                self.process_ids.remove(self.process_at(id))
            } else {
                self.process_ids
            },
            handles: if self.has_process(id) {
                self.handles.remove(self.process_at(id))
            } else {
                self.handles
            },
        }
    }

    /// The process that removing this id hands out for termination.
    pub open spec fn removed_handle(self, id: Seq<char>) -> Option<H> {
        if self.has_process(id) {
            Some(self.handles[self.process_at(id)])
        } else {
            None
        }
    }
}

/// Adding a device twice: once a profile is registered, `check_untracked` refuses any
/// profile with its id as a duplicate, and registering a profile with the
/// same id again hands the process back and leaves the supervisor, and so its
/// number of profiles, unchanged.
pub proof fn lemma_add_twice<H>(
    s: SupervisorView<H>,
    p: ProfileView,
    h1: H,
    q: ProfileView,
    h2: H,
)
    requires
        !s.tracks(p.id),
        q.id == p.id,
    ensures
        s.admission(p) == Ok::<(), UsbipError>(()),
        s.inserted(p, h1).0 is Ok,
        s.inserted(p, h1).1.profiles.len() == s.profiles.len() + 1,
        s.inserted(p, h1).1.admission(q) == Err::<(), UsbipError>(UsbipError::Duplicate),
        s.inserted(p, h1).1.inserted(q, h2) == (Err::<(), H>(h2), s.inserted(p, h1).1),
{
    let s1 = s.inserted(p, h1).1;
    assert(s1.profiles[s.profiles.len() as int].id == p.id);
    assert(s1.tracks(p.id));
}

/// Removing a profile that is not tracked changes nothing and hands out no
/// process.
pub proof fn lemma_remove_untracked<H>(s: SupervisorView<H>, id: Seq<char>)
    requires
        s.wf(),
        !s.tracks(id),
    ensures
        s.removed(id) == s,
        s.removed_handle(id) is None,
{
    if s.has_process(id) {
        let i = choose|i: int| 0 <= i < s.process_ids.len() && #[trigger] s.process_ids[i] == id;
        assert(s.tracks(s.process_ids[i]));
    }
}

impl<H> View for AutoAttacher<H> {
    type V = SupervisorView<H>;

    closed spec fn view(&self) -> SupervisorView<H> {
        SupervisorView {
            profiles: profile_views(self.profiles@),
            process_ids: strs(self.process_ids@),
            handles: self.handles@,
        }
    }
}

impl<H> AutoAttacher<H> {
    /// A supervisor with no profiles.
    pub fn new() -> (r: AutoAttacher<H>)
        ensures
            r@.wf(),
            r@.profiles.len() == 0,
            r@.handles.len() == 0,
    {
        let r = AutoAttacher { profiles: Vec::new(), process_ids: Vec::new(), handles: Vec::new() };
        proof {
            assert(r@.profiles =~= Seq::<ProfileView>::empty());
            assert(r@.process_ids =~= Seq::<Seq<char>>::empty());
        }
        r
    }

    fn find_profile(&self, id: &String) -> (r: Option<usize>)
        ensures
            r matches Some(i) ==> i < self@.profiles.len() && self@.profiles[i as int].id == id@,
            r is None ==> !self@.tracks(id@),
    {
        let mut i: usize = 0;
        while i < self.profiles.len()
            invariant
                i <= self.profiles@.len(),
                self@.profiles.len() == self.profiles@.len(),
                forall|j: int| 0 <= j < i ==> (#[trigger] self@.profiles[j]).id != id@,
            decreases self.profiles@.len() - i,
        {
            if self.profiles[i].id == *id {
                return Some(i);
            }
            i = i + 1;
        }
        None
    }

    fn find_process(&self, id: &String) -> (r: Option<usize>)
        ensures
            r matches Some(i) ==> i < self@.process_ids.len() && self@.process_ids[i as int] == id@,
            r is None ==> !self@.has_process(id@),
    {
        let mut i: usize = 0;
        while i < self.process_ids.len()
            invariant
                i <= self.process_ids@.len(),
                self@.process_ids.len() == self.process_ids@.len(),
                forall|j: int| 0 <= j < i ==> #[trigger] self@.process_ids[j] != id@,
            decreases self.process_ids@.len() - i,
        {
            if self.process_ids[i] == *id {
                return Some(i);
            }
            i = i + 1;
        }
        None
    }

    /// Whether a profile with this id is tracked.
    pub fn contains(&self, id: &String) -> (r: bool)
        ensures
            r == self@.tracks(id@),
    {
        self.find_profile(id).is_some()
    }

    /// Checks that `device` is bound, so that it has a persisted GUID, and
    /// connected, so that it can be attached. Nothing needs to be run first.
    pub fn check_addable(device: &UsbDevice) -> (r: Result<(), UsbipError>)
        ensures
            match SupervisorView::<H>::add_refusal(*device) {
                Some(e) => r == Err::<(), UsbipError>(e),
                None => r is Ok,
            },
    {
        if device.persisted_guid.is_none() {
            Err(UsbipError::Precondition(Requirement::PersistedGuid))
        } else if device.bus_id.is_none() {
            Err(UsbipError::Precondition(Requirement::BusId))
        } else {
            Ok(())
        }
    }

    /// Checks that `device` is bound and connected and says what to run to
    /// add it: the attach operation when the device is not attached, then the
    /// auto-attach process. `version` is that of the installed `usbipd`.
    /// Whether the profile is tracked already is checked after the attach, by
    /// [`AutoAttacher::check_untracked`].
    pub fn prepare_add(&self, device: &UsbDevice, version: &Version) -> (r: Result<
        PendingAdd,
        UsbipError,
    >)
        ensures
            match SupervisorView::<H>::add_refusal(*device) {
                Some(e) => r == Err::<PendingAdd, UsbipError>(e),
                None => r matches Ok(p) && {
                    let b = device.bus_id->Some_0@;
                    let legacy = version.legacy_spec();
                    &&& p.profile@ == ProfileView {
                        id: device.persisted_guid->Some_0@,
                        description: opt_view(device.description),
                    }
                    &&& p.attach is None <==> device.attached()
                    &&& p.attach matches Some(op) ==> op@.wf() && op@ == OperationView::fresh(
                        device.attach_plan(b, legacy),
                    )
                    &&& strs(p.launch_args@) == auto_attach_args(b, legacy)
                },
            },
    {
        let id = match &device.persisted_guid {
            None => {
                return Err(UsbipError::Precondition(Requirement::PersistedGuid));
            },
            Some(g) => g,
        };
        let bus_id = match &device.bus_id {
            None => {
                return Err(UsbipError::Precondition(Requirement::BusId));
            },
            Some(b) => b,
        };
        let attach = if device.is_attached() {
            None
        } else {
            match device.attach(version) {
                Ok(op) => Some(op),
                Err(e) => {
                    return Err(e);
                },
            }
        };
        let description = match &device.description {
            Some(d) => Some(d.clone()),
            None => None,
        };
        let profile = AutoAttachProfile { id: id.clone(), description };
        let launch_args = make_auto_attach_args(bus_id.as_str(), version.is_legacy());
        Ok(PendingAdd { profile, attach, launch_args })
    }

    /// Refuses a pending profile whose id is tracked already. Asked after the
    /// attach and the wait, before the auto-attach process is started.
    pub fn check_untracked(&self, pending: &PendingAdd) -> (r: Result<(), UsbipError>)
        ensures
            r == self@.admission(pending.profile@),
    {
        if self.contains(&pending.profile.id) {
            Err(UsbipError::Duplicate)
        } else {
            Ok(())
        }
    }

    /// Registers `profile` with the process `handle` that keeps it attached.
    /// When a profile with the same id is tracked already, nothing changes
    /// and the handle is given back, for the caller to dispose of.
    pub fn insert(&mut self, profile: AutoAttachProfile, handle: H) -> (r: Result<(), H>)
        requires
            old(self)@.wf(),
        ensures
            final(self)@.wf(),
            (r, final(self)@) == old(self)@.inserted(profile@, handle),
            final(self)@.tracks(profile@.id),
    {
        if self.contains(&profile.id) {
            return Err(handle);
        }
        let ghost before = self@;
        let id = profile.id.clone();
        self.profiles.push(profile);
        self.process_ids.push(id);
        self.handles.push(handle);
        proof {
            assert(self@.profiles =~= before.profiles.push(profile@));
            assert(self@.process_ids =~= before.process_ids.push(profile@.id));
            assert(self@ == before.added(profile@, handle));
            let n = before.profiles.len() as int;
            assert(self@.profiles[n].id == profile@.id);
            assert forall|i: int|
                0 <= i < self@.process_ids.len() implies self@.tracks(
                #[trigger] self@.process_ids[i],
            ) by {
                if i < before.process_ids.len() {
                    let w = choose|k: int|
                        0 <= k < before.profiles.len() && (#[trigger] before.profiles[k]).id
                            == before.process_ids[i];
                    assert(self@.profiles[w] == before.profiles[w]);
                } else {
                    assert(self@.profiles[n].id == self@.process_ids[i]);
                }
            }
            assert forall|i: int, j: int|
                0 <= i < j < self@.process_ids.len() implies #[trigger] self@.process_ids[i]
                != #[trigger] self@.process_ids[j] by {
                if j == before.process_ids.len() {
                    if self@.process_ids[i] == self@.process_ids[j] {
                        let w = choose|k: int|
                            0 <= k < before.profiles.len() && (#[trigger] before.profiles[k]).id
                                == before.process_ids[i];
                        assert(before.tracks(profile@.id));
                    }
                }
            }
            assert forall|i: int, j: int|
                0 <= i < j < self@.profiles.len() implies (#[trigger] self@.profiles[i]).id != (
                #[trigger] self@.profiles[j]).id by {
                if j == n {
                    assert(self@.profiles[i] == before.profiles[i]);
                    if self@.profiles[i].id == profile@.id {
                        assert(before.tracks(profile@.id));
                    }
                }
            }
        }
        Ok(())
    }

    /// Removes the profile of `profile`'s id, if tracked, and hands out the
    /// process that served it, if any, for the caller to terminate. Removing
    /// an untracked profile changes nothing.
    pub fn remove(&mut self, profile: &AutoAttachProfile) -> (r: Option<H>)
        requires
            old(self)@.wf(),
        ensures
            final(self)@.wf(),
            final(self)@ == old(self)@.removed(profile.id@),
            r == old(self)@.removed_handle(profile.id@),
            !final(self)@.tracks(profile.id@),
    {
        let ghost before = self@;
        let ghost id = profile.id@;
        match self.find_profile(&profile.id) {
            Some(i) => {
                proof {
                    let k = before.profile_at(id);
                    assert(before.profiles[i as int].id == id);
                    if k != i {
                        if k < i {
                            assert(before.profiles[k].id != before.profiles[i as int].id);
                        } else {
                            assert(before.profiles[i as int].id != before.profiles[k].id);
                        }
                    }
                }
                self.profiles.remove(i);
                proof {
                    assert(self@.profiles =~= before.profiles.remove(i as int));
                }
            },
            None => {},
        }
        let ghost mid = self@;
        let r = match self.find_process(&profile.id) {
            Some(i) => {
                proof {
                    let k = before.process_at(id);
                    assert(before.process_ids[i as int] == id);
                    if k != i {
                        if k < i {
                            assert(before.process_ids[k] != before.process_ids[i as int]);
                        } else {
                            assert(before.process_ids[i as int] != before.process_ids[k]);
                        }
                    }
                }
                self.process_ids.remove(i);
                let h = self.handles.remove(i);
                proof {
                    assert(self@.process_ids =~= before.process_ids.remove(i as int));
                }
                Some(h)
            },
            None => None,
        };
        proof {
            let after = self@;
            assert(after.profiles == before.removed(id).profiles);
            assert(after.process_ids == before.removed(id).process_ids);
            assert(after.handles == before.removed(id).handles);
            assert forall|i: int|
                0 <= i < after.process_ids.len() implies after.tracks(
                #[trigger] after.process_ids[i],
            ) by {
                let pid = after.process_ids[i];
                assert(pid != id);
                let w = choose|k: int|
                    0 <= k < before.profiles.len() && (#[trigger] before.profiles[k]).id == pid;
                if before.tracks(id) {
                    let x = before.profile_at(id);
                    if w < x {
                        assert(after.profiles[w] == before.profiles[w]);
                    } else {
                        assert(w != x);
                        assert(after.profiles[w - 1] == before.profiles[w]);
                    }
                } else {
                    assert(after.profiles[w] == before.profiles[w]);
                }
            }
            assert forall|i: int, j: int|
                0 <= i < j < after.profiles.len() implies (#[trigger] after.profiles[i]).id != (
                #[trigger] after.profiles[j]).id by {
                if before.tracks(id) {
                    let x = before.profile_at(id);
                    let bi = if i < x {
                        i
                    } else {
                        i + 1
                    };
                    let bj = if j < x {
                        j
                    } else {
                        j + 1
                    };
                    assert(after.profiles[i] == before.profiles[bi]);
                    assert(after.profiles[j] == before.profiles[bj]);
                }
            }
            assert forall|i: int, j: int|
                0 <= i < j < after.process_ids.len() implies #[trigger] after.process_ids[i]
                != #[trigger] after.process_ids[j] by {
                if before.has_process(id) {
                    let x = before.process_at(id);
                    let bi = if i < x {
                        i
                    } else {
                        i + 1
                    };
                    let bj = if j < x {
                        j
                    } else {
                        j + 1
                    };
                    assert(after.process_ids[i] == before.process_ids[bi]);
                    assert(after.process_ids[j] == before.process_ids[bj]);
                }
            }
        }
        r
    }

    /// Copies of the tracked profiles.
    pub fn profiles(&self) -> (r: Vec<AutoAttachProfile>)
        ensures
            profile_views(r@) == self@.profiles,
    {
        let mut out: Vec<AutoAttachProfile> = Vec::new();
        let mut i: usize = 0;
        while i < self.profiles.len()
            invariant
                i <= self.profiles@.len(),
                out@.len() == i,
                forall|k: int| 0 <= k < i ==> #[trigger] out@[k]@ == self.profiles@[k]@,
            decreases self.profiles@.len() - i,
        {
            out.push(self.profiles[i].duplicate());
            i = i + 1;
        }
        proof {
            assert(profile_views(out@) =~= self@.profiles);
        }
        out
    }

    /// Hands out every process for termination, leaving none behind; the
    /// profiles stay.
    pub fn shutdown(&mut self) -> (r: Vec<H>)
        requires
            old(self)@.wf(),
        ensures
            final(self)@.wf(),
            r@ == old(self)@.handles,
            final(self)@.handles.len() == 0,
            final(self)@.process_ids.len() == 0,
            final(self)@.profiles == old(self)@.profiles,
    {
        let mut handles: Vec<H> = Vec::new();
        core::mem::swap(&mut self.handles, &mut handles);
        self.process_ids = Vec::new();
        proof {
            assert(self@.process_ids =~= Seq::<Seq<char>>::empty());
        }
        handles
    }
}

} // verus!
