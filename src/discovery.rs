use vstd::prelude::*;

use crate::error::Error;

verus! {

/// A peer record that a discovery source produces, identified by an id
/// that is stable within that source.
pub trait Sighting: Sized {
    spec fn key(&self) -> Seq<char>;

    fn id(&self) -> (r: &String)
        ensures
            r@ == self.key(),
    ;

    /// A copy of the record, equal to it.
    fn duplicate(&self) -> (r: Self)
        ensures
            r == *self,
    ;
}

/// The mathematical state of one discovery source.
pub struct DirectoryModel<D> {
    pub running: bool,
    pub devices: Seq<D>,
}

/// No two listed records share an id.
pub open spec fn ids_unique<D: Sighting>(s: Seq<D>) -> bool {
    forall|i: int, j: int| 0 <= i < s.len() && 0 <= j < s.len() && i != j ==> s[i].key() != s[j].key()
}

/// Whether a record with id `id` is listed.
pub open spec fn lists_id<D: Sighting>(s: Seq<D>, id: Seq<char>) -> bool {
    exists|i: int| 0 <= i < s.len() && s[i].key() == id
}

/// Starting a source: a no-op while it runs; otherwise it clears the list
/// and asks for one listener (`true`).
pub open spec fn start_step<D>(m: DirectoryModel<D>) -> (DirectoryModel<D>, bool) {
    if m.running {
        (m, false)
    } else {
        (DirectoryModel { running: true, devices: Seq::empty() }, true)
    }
}

/// Stopping a source; the list is kept for polling.
pub open spec fn stop_step<D>(m: DirectoryModel<D>) -> DirectoryModel<D> {
    DirectoryModel { running: false, ..m }
}

/// A sighting is listed unless its id already is: the first one seen wins.
pub open spec fn record_step<D: Sighting>(m: DirectoryModel<D>, d: D) -> (DirectoryModel<D>, bool) {
    if lists_id(m.devices, d.key()) {
        (m, false)
    } else {
        (DirectoryModel { devices: m.devices.push(d), ..m }, true)
    }
}

/// A source reported that the peer `id` is gone.
pub open spec fn remove_step<D: Sighting>(m: DirectoryModel<D>, id: Seq<char>) -> DirectoryModel<D> {
    DirectoryModel { devices: without_id(m.devices, id), ..m }
}

/// The records of `s` whose id is not `id`, in their order.
pub open spec fn without_id<D: Sighting>(s: Seq<D>, id: Seq<char>) -> Seq<D>
    decreases s.len(),
{
    if s.len() == 0 {
        Seq::empty()
    } else {
        let rest = without_id(s.drop_last(), id);
        if s.last().key() != id {
            rest.push(s.last())
        } else {
            rest
        }
    }
}

/// The peer list of one discovery source and whether its listener runs.
pub struct Discovery<D> {
    running: bool,
    devices: Vec<D>,
}

impl<D> View for Discovery<D> {
    type V = DirectoryModel<D>;

    closed spec fn view(&self) -> DirectoryModel<D> {
        DirectoryModel { running: self.running, devices: self.devices@ }
    }
}

impl<D: Sighting> Discovery<D> {
    /// An idle source with an empty list.
    pub fn new() -> (r: Discovery<D>)
        ensures
            !r@.running,
            r@.devices.len() == 0,
    {
        Discovery { running: false, devices: Vec::new() }
    }

    pub fn is_running(&self) -> (r: bool)
        ensures
            r == self@.running,
    {
        self.running
    }

    /// Starts the source. Returns whether the caller must start a listener:
    /// only when the source was idle, whose old list is then cleared.
    pub fn start(&mut self) -> (r: bool)
        ensures
            (final(self)@, r) == start_step(old(self)@),
    {
        if self.running {
            false
        } else {
            self.running = true;
            self.devices = Vec::new();
            true
        }
    }

    /// Stops the source; a listener sees this and ends.
    pub fn stop(&mut self)
        ensures
            final(self)@ == stop_step(old(self)@),
    {
        self.running = false;
    }

    /// Lists a sighting unless a record with its id is listed already.
    /// Returns whether it was added.
    pub fn record(&mut self, d: D) -> (r: bool)
        requires
            ids_unique(old(self)@.devices),
        ensures
            (final(self)@, r) == record_step(old(self)@, d),
            ids_unique(final(self)@.devices),
    {
        let mut i: usize = 0;
        while i < self.devices.len()
            invariant
                i <= self.devices@.len(),
                self@ == old(self)@,
                ids_unique(self.devices@),
                forall|k: int| 0 <= k < i ==> self.devices@[k].key() != d.key(),
            decreases self.devices@.len() - i,
        {
            if *self.devices[i].id() == *d.id() {
                return false;
            }
            i = i + 1;
        }
        self.devices.push(d);
        true
    }

    /// Drops every record with the id `id`.
    pub fn remove(&mut self, id: &String)
        requires
            ids_unique(old(self)@.devices),
        ensures
            final(self)@ == remove_step(old(self)@, id@),
            ids_unique(final(self)@.devices),
    {
        let mut kept: Vec<D> = Vec::new();
        let mut i: usize = 0;
        while i < self.devices.len()
            invariant
                i <= self.devices@.len(),
                kept@ == without_id(self.devices@.subrange(0, i as int), id@),
            decreases self.devices@.len() - i,
        {
            let d = self.devices[i].duplicate();
            assert(self.devices@.subrange(0, i + 1).drop_last() =~= self.devices@.subrange(0, i as int));
            if *d.id() != *id {
                kept.push(d);
            }
            i = i + 1;
        }
        assert(self.devices@.subrange(0, self.devices@.len() as int) =~= self.devices@);
        proof {
            lemma_without_id(self.devices@, id@);
        }
        self.devices = kept;
    }

    /// A snapshot of the list, never a live reference to it.
    pub fn get_devices(&self) -> (r: Vec<D>)
        ensures
            r@ == self@.devices,
    {
        let mut out: Vec<D> = Vec::new();
        let mut i: usize = 0;
        while i < self.devices.len()
            invariant
                i <= self.devices@.len(),
                out@ == self.devices@.subrange(0, i as int),
            decreases self.devices@.len() - i,
        {
            out.push(self.devices[i].duplicate());
            i = i + 1;
            assert(out@ =~= self.devices@.subrange(0, i as int));
        }
        assert(out@ =~= self.devices@);
        out
    }
}

proof fn lemma_without_id<D: Sighting>(s: Seq<D>, id: Seq<char>)
    requires
        ids_unique(s),
    ensures
        ids_unique(without_id(s, id)),
        forall|j: int| 0 <= j < without_id(s, id).len() ==> s.contains(#[trigger] without_id(s, id)[j]),
    decreases s.len(),
{
    if s.len() > 0 {
        let init = s.drop_last();
        assert(ids_unique(init));
        lemma_without_id(init, id);
        let rest = without_id(init, id);
        assert forall|j: int| 0 <= j < rest.len() implies s.contains(#[trigger] rest[j]) by {
            assert(init.contains(rest[j]));
            let k = choose|k: int| 0 <= k < init.len() && init[k] == rest[j];
            assert(s[k] == rest[j]);
        }
        if s.last().key() != id {
            let r = rest.push(s.last());
            assert forall|j: int| 0 <= j < r.len() implies s.contains(#[trigger] r[j]) by {
                if j < rest.len() {
                    assert(r[j] == rest[j]);
                } else {
                    assert(s[s.len() - 1] == r[j]);
                }
            }
            assert forall|a: int, b: int| 0 <= a < r.len() && 0 <= b < r.len() && a != b implies r[a].key() != r[b].key() by {
                if a < rest.len() && b < rest.len() {
                    assert(r[a] == rest[a] && r[b] == rest[b]);
                } else {
                    let o = if a < rest.len() { a } else { b };
                    assert(r[o] == rest[o]);
                    assert(init.contains(rest[o]));
                    let k = choose|k: int| 0 <= k < init.len() && init[k] == rest[o];
                    assert(s[k] == init[k]);
                    assert(s[s.len() - 1] == s.last());
                }
            }
        }
    }
}

/// Starting a source twice in a row, with no stop between, asks for a
/// listener at most once: the second start asks for none and changes
/// nothing, and one listener runs afterwards.
pub proof fn lemma_start_idempotent<D>(m: DirectoryModel<D>)
    ensures
        start_step(start_step(m).0) == (start_step(m).0, false),
        start_step(m).0.running,
        start_step(m).1 == !m.running,
{
}

/// Two sightings with the same id leave exactly one record with that id
/// in the list; it is the first one seen.
pub proof fn lemma_same_id_listed_once<D: Sighting>(m: DirectoryModel<D>, a: D, b: D)
    requires
        ids_unique(m.devices),
        a.key() == b.key(),
    ensures
        ({
            let after = record_step(record_step(m, a).0, b).0.devices;
            &&& ids_unique(after)
            &&& exists|i: int| 0 <= i < after.len() && after[i].key() == a.key()
            &&& forall|i: int, j: int|
                0 <= i < after.len() && 0 <= j < after.len() && after[i].key() == a.key() && after[j].key() == a.key() ==> i == j
            &&& !lists_id(m.devices, a.key()) ==> after == m.devices.push(a)
            &&& lists_id(m.devices, a.key()) ==> after == m.devices
        }),
{
    let first = record_step(m, a).0.devices;
    if !lists_id(m.devices, a.key()) {
        assert(first == m.devices.push(a));
        assert(first[m.devices.len() as int].key() == b.key());
        assert(lists_id(first, b.key()));
        assert forall|i: int, j: int| 0 <= i < first.len() && 0 <= j < first.len() && i != j implies first[i].key() != first[j].key() by {
            if i < m.devices.len() && j < m.devices.len() {
            } else if i < m.devices.len() {
                assert(first[i] == m.devices[i]);
            } else {
                assert(first[j] == m.devices[j]);
            }
        }
    }
}

} // verus!
