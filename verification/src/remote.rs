//! The remote control: a registry from string identifiers to owned
//! devices, with identifier-based dispatch.
//!
//! The registry's view is a map from identifier (as a sequence of
//! characters) to the abstract state of the device registered under it.
//! Registration inserts or replaces (last write wins); dispatching to an
//! unknown identifier is a silent no-op by design, never an error.

use vstd::prelude::*;
use vstd::map::*;
use crate::devices::{Device, DeviceState, RemoteControllable};

verus! {

/// A remote control owning a registry of devices, each under a unique
/// string identifier, and forwarding named commands to them.
#[derive(Debug)]
pub struct RemoteControl {
    devices: Vec<(String, Device)>,
}

impl RemoteControl {
    spec fn entries(self) -> Seq<(String, Device)> {
        self.devices@
    }

    /// No identifier occurs twice in the registry; the constructor
    /// establishes this and every operation preserves it.
    pub closed spec fn wf(self) -> bool {
        forall|i: int, j: int|
            0 <= i < j < self.entries().len() ==> self.entries()[i].0@ != self.entries()[j].0@
    }

    spec fn has_key(self, k: Seq<char>) -> bool {
        exists|i: int| 0 <= i < self.entries().len() && self.entries()[i].0@ == k
    }

    spec fn key_index(self, k: Seq<char>) -> int {
        choose|i: int| 0 <= i < self.entries().len() && self.entries()[i].0@ == k
    }

    /// An empty remote control, with no device registered.
    pub fn new() -> (r: RemoteControl)
        ensures
            r.wf(),
            r@ == Map::<Seq<char>, DeviceState>::empty(),
    {
        let r = RemoteControl { devices: Vec::new() };
        proof {
            assert(r@ =~= Map::<Seq<char>, DeviceState>::empty());
        }
        r
    }

    /// Drives a caller-supplied device into its "on" state directly,
    /// without any registry lookup.
    pub fn on<T: RemoteControllable + 'static>(device: &mut T)
        ensures
            final(device)@ == T::activated(old(device)@),
    {
        device.on_button_pressed();
    }

    /// Drives a caller-supplied device toward "off" directly, without any
    /// registry lookup.
    pub fn off<T: RemoteControllable + 'static>(device: &mut T)
        ensures
            final(device)@ == T::deactivated(old(device)@),
    {
        device.off_button_pressed();
    }
}

/// The dispatch step on the registry's view: when `id` is registered, the
/// device under it moves to the state `next`; when it is not, the view is
/// left exactly as it was.
pub open spec fn spec_dispatch(
    m: Map<Seq<char>, DeviceState>,
    id: Seq<char>,
    next: DeviceState,
) -> Map<Seq<char>, DeviceState> {
    if m.contains_key(id) {
        m.insert(id, next)
    } else {
        m
    }
}

/// What dispatching the "on" command to `id` does to the registry's view:
/// the device under `id`, if any, is driven into its activated state;
/// everything else, and a registry without `id`, is untouched.
pub open spec fn spec_dispatch_on(m: Map<Seq<char>, DeviceState>, id: Seq<char>) -> Map<
    Seq<char>,
    DeviceState,
> {
    spec_dispatch(m, id, Device::activated(m[id]))
}

/// What dispatching the "off" command to `id` does to the registry's
/// view, symmetrically to [`spec_dispatch_on`].
pub open spec fn spec_dispatch_off(m: Map<Seq<char>, DeviceState>, id: Seq<char>) -> Map<
    Seq<char>,
    DeviceState,
> {
    spec_dispatch(m, id, Device::deactivated(m[id]))
}

impl RemoteControl {
    /// Any index whose entry carries identifier `k` is the index the view
    /// reads through, since identifiers are unique.
    proof fn lemma_key_index_is(self, k: Seq<char>, i: int)
        requires
            self.wf(),
            0 <= i < self.entries().len(),
            self.entries()[i].0@ == k,
        ensures
            self.has_key(k),
            self.key_index(k) == i,
            self@.contains_key(k),
            self@[k] == self.entries()[i].1@,
    {
        assert(self.has_key(k));
        let j = self.key_index(k);
        assert(0 <= j < self.entries().len() && self.entries()[j].0@ == k);
    }

    /// Replacing the entry at the index holding `k` by another entry with
    /// the same identifier updates the view at `k` alone.
    proof fn lemma_replace_entry_view(self, post: RemoteControl, k: Seq<char>, i: int)
        requires
            self.wf(),
            0 <= i < self.entries().len(),
            self.entries()[i].0@ == k,
            post.entries().len() == self.entries().len(),
            post.entries() == self.entries().update(i, post.entries()[i]),
            post.entries()[i].0@ == k,
        ensures
            post.wf(),
            post@ == self@.insert(k, post.entries()[i].1@),
    {
        assert forall|x: int| 0 <= x < post.entries().len() implies post.entries()[x].0@
            == self.entries()[x].0@ by {}
        assert(post.wf());
        post.lemma_key_index_is(k, i);
        assert_maps_equal!(post@, self@.insert(k, post.entries()[i].1@), q => {
            if q != k {
                if self.has_key(q) {
                    let j = self.key_index(q);
                    assert(0 <= j < self.entries().len() && self.entries()[j].0@ == q);
                    self.lemma_key_index_is(q, j);
                    post.lemma_key_index_is(q, j);
                } else {
                    assert(!post.has_key(q));
                }
            }
        });
    }

    /// Appending an entry under a fresh identifier `k` extends the view
    /// by `k` alone.
    proof fn lemma_push_entry_view(self, post: RemoteControl, k: Seq<char>)
        requires
            self.wf(),
            !self.has_key(k),
            post.entries().len() == self.entries().len() + 1,
            post.entries() == self.entries().push(post.entries().last()),
            post.entries().last().0@ == k,
        ensures
            post.wf(),
            post@ == self@.insert(k, post.entries().last().1@),
    {
        assert(post.wf());
        post.lemma_key_index_is(k, post.entries().len() - 1);
        assert_maps_equal!(post@, self@.insert(k, post.entries().last().1@), q => {
            if q != k {
                if self.has_key(q) {
                    let j = self.key_index(q);
                    assert(0 <= j < self.entries().len() && self.entries()[j].0@ == q);
                    self.lemma_key_index_is(q, j);
                    post.lemma_key_index_is(q, j);
                } else {
                    assert(!post.has_key(q));
                }
            }
        });
    }

    /// Registers `device` under `id`, inserting a new entry or replacing
    /// the one already held under that identifier: last write wins.
    pub fn add_device(&mut self, id: &str, device: Device)
        requires
            old(self).wf(),
        ensures
            final(self).wf(),
            final(self)@ == old(self)@.insert(id@, device@),
    {
        let ghost dev_view: DeviceState = device@;
        let key: String = id.to_owned();
        let mut i: usize = 0;
        while i < self.devices.len()
            invariant
                *self == *old(self),
                old(self).wf(),
                i <= self.entries().len(),
                key@ == id@,
                forall|j: int| 0 <= j < i ==> self.entries()[j].0@ != id@,
                dev_view == device@,
            decreases self.entries().len() - i,
        {
            if self.devices[i].0 == key {
                self.devices[i] = (key, device);
                proof {
                    old(self).lemma_replace_entry_view(*self, id@, i as int);
                }
                return;
            }
            i = i + 1;
        }
        self.devices.push((key, device));
        proof {
            assert(self.entries() == old(self).entries().push((key, device)));
            old(self).lemma_push_entry_view(*self, id@);
        }
    }

    /// Dispatches the "on" command: if a device is registered under `id`
    /// it is driven into its activated state; otherwise nothing at all
    /// changes.  An unknown identifier is a silent no-op by design, not
    /// an error.
    pub fn turn_on(&mut self, id: &str)
        requires
            old(self).wf(),
        ensures
            final(self).wf(),
            final(self)@ == spec_dispatch_on(old(self)@, id@),
            !old(self)@.contains_key(id@) ==> *final(self) == *old(self),
    {
        let key: String = id.to_owned();
        let mut i: usize = 0;
        while i < self.devices.len()
            invariant
                *self == *old(self),
                old(self).wf(),
                i <= self.entries().len(),
                key@ == id@,
                forall|j: int| 0 <= j < i ==> self.entries()[j].0@ != id@,
            decreases self.entries().len() - i,
        {
            if self.devices[i].0 == key {
                proof {
                    old(self).lemma_key_index_is(id@, i as int);
                }
                let entry = &mut self.devices[i];
                entry.1.on_button_pressed();
                proof {
                    old(self).lemma_replace_entry_view(*self, id@, i as int);
                }
                return;
            }
            i = i + 1;
        }
        proof {
            assert(!old(self).has_key(id@));
        }
    }

    /// Dispatches the "off" command: if a device is registered under `id`
    /// it is driven into its deactivated state; otherwise nothing at all
    /// changes.  An unknown identifier is a silent no-op by design, not
    /// an error.
    pub fn turn_off(&mut self, id: &str)
        requires
            old(self).wf(),
        ensures
            final(self).wf(),
            final(self)@ == spec_dispatch_off(old(self)@, id@),
            !old(self)@.contains_key(id@) ==> *final(self) == *old(self),
    {
        let key: String = id.to_owned();
        let mut i: usize = 0;
        while i < self.devices.len()
            invariant
                *self == *old(self),
                old(self).wf(),
                i <= self.entries().len(),
                key@ == id@,
                forall|j: int| 0 <= j < i ==> self.entries()[j].0@ != id@,
            decreases self.entries().len() - i,
        {
            if self.devices[i].0 == key {
                proof {
                    old(self).lemma_key_index_is(id@, i as int);
                }
                let entry = &mut self.devices[i];
                entry.1.off_button_pressed();
                proof {
                    old(self).lemma_replace_entry_view(*self, id@, i as int);
                }
                return;
            }
            i = i + 1;
        }
        proof {
            assert(!old(self).has_key(id@));
        }
    }

    /// Resolves an identifier to the device registered under it, for
    /// inspection; yields nothing when the identifier was never
    /// registered.
    pub fn get_device(&self, id: &str) -> (r: Option<&Device>)
        requires
            self.wf(),
        ensures
            match r {
                Some(d) => self@.contains_key(id@) && d@ == self@[id@],
                None => !self@.contains_key(id@),
            },
    {
        let key: String = id.to_owned();
        let mut i: usize = 0;
        while i < self.devices.len()
            invariant
                self.wf(),
                i <= self.entries().len(),
                key@ == id@,
                forall|j: int| 0 <= j < i ==> self.entries()[j].0@ != id@,
            decreases self.entries().len() - i,
        {
            if self.devices[i].0 == key {
                proof {
                    self.lemma_key_index_is(id@, i as int);
                }
                return Some(&self.devices[i].1);
            }
            i = i + 1;
        }
        proof {
            assert(!self.has_key(id@));
        }
        None
    }
}

/// Dispatching a command to one identifier never alters the device
/// registered under any other identifier, nor whether that other
/// identifier is registered at all.
pub proof fn lemma_dispatch_isolated(m: Map<Seq<char>, DeviceState>, a: Seq<char>, b: Seq<char>)
    requires
        a != b,
    ensures
        spec_dispatch_on(m, a).contains_key(b) == m.contains_key(b),
        spec_dispatch_off(m, a).contains_key(b) == m.contains_key(b),
        m.contains_key(b) ==> spec_dispatch_on(m, a)[b] == m[b],
        m.contains_key(b) ==> spec_dispatch_off(m, a)[b] == m[b],
{
}

/// Registering a second device under an identifier already in use
/// replaces the first: the registry is as if only the second registration
/// had happened, and dispatching to that identifier thereafter drives the
/// new device.
pub proof fn lemma_register_replaces(
    m: Map<Seq<char>, DeviceState>,
    id: Seq<char>,
    d1: DeviceState,
    d2: DeviceState,
)
    ensures
        m.insert(id, d1).insert(id, d2) == m.insert(id, d2),
        spec_dispatch_on(m.insert(id, d2), id)[id] == Device::activated(d2),
{
    assert(m.insert(id, d1).insert(id, d2) =~= m.insert(id, d2));
}

/// Dispatching to an identifier that was never registered leaves the
/// registry's view unchanged: a silent no-op, never an error.
pub proof fn lemma_dispatch_unknown(m: Map<Seq<char>, DeviceState>, id: Seq<char>)
    requires
        !m.contains_key(id),
    ensures
        spec_dispatch_on(m, id) == m,
        spec_dispatch_off(m, id) == m,
{
}

impl View for RemoteControl {
    type V = Map<Seq<char>, DeviceState>;

    closed spec fn view(&self) -> Map<Seq<char>, DeviceState> {
        Map::new(
            |k: Seq<char>| self.has_key(k),
            |k: Seq<char>| self.entries()[self.key_index(k)].1@,
        )
    }
}

impl Default for RemoteControl {
    /// A remote control starts with no device registered.
    fn default() -> (r: RemoteControl)
        ensures
            r.wf(),
            r@ == Map::<Seq<char>, DeviceState>::empty(),
    {
        RemoteControl::new()
    }
}

} // verus!
