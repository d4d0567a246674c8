//! The fixed set of sources: each has a transport kind, an origin name and a
//! readiness key that maps multiplexor notifications back to it.
use vstd::prelude::*;

verus! {

/// The readiness key of the kernel-log source, kept apart from the socket
/// keys, which are the activation slot numbers.
pub const KLOG_KEY: usize = usize::MAX - 1;

/// The kinds of transport a source can read from.
#[derive(Clone, Copy, Debug, PartialEq, Eq, Structural)]
pub enum TransportKind {
    Udp,
    UnixDgram,
    Klog,
}

/// Why a source could not be added.
#[derive(Clone, Copy, Debug, PartialEq, Eq, Structural)]
pub enum RegistryError {
    /// The handle slot, or the kernel-log device, was claimed already.
    DuplicateHandle,
}

/// One registered source.
#[derive(Clone, Debug)]
pub struct SourceEntry {
    pub kind: TransportKind,
    pub key: usize,
    pub name: String,
}

/// The sources of the process, in the order they were added.
pub struct Registry {
    entries: Vec<SourceEntry>,
}

impl Registry {
    /// The readiness keys, in order of registration.
    pub closed spec fn keys(&self) -> Seq<usize> {
        self.entries@.map_values(|e: SourceEntry| e.key)
    }

    /// The transport kinds, in order of registration.
    pub closed spec fn kinds(&self) -> Seq<TransportKind> {
        self.entries@.map_values(|e: SourceEntry| e.kind)
    }

    /// The origin names, in order of registration.
    pub closed spec fn names(&self) -> Seq<Seq<char>> {
        self.entries@.map_values(|e: SourceEntry| e.name@)
    }

    /// No two sources share a key, and the kernel-log source alone has its key.
    pub open spec fn wf(&self) -> bool {
        &&& self.keys().len() == self.kinds().len()
        &&& self.keys().len() == self.names().len()
        &&& forall|i: int, j: int|
            0 <= i < j < self.keys().len() ==> self.keys()[i] != self.keys()[j]
        &&& forall|i: int|
            0 <= i < self.keys().len() ==> (self.keys()[i] == KLOG_KEY <==> self.kinds()[i]
                == TransportKind::Klog)
    }

    /// Whether some source has `key`.
    pub open spec fn has_key(&self, key: usize) -> bool {
        exists|i: int| 0 <= i < self.keys().len() && self.keys()[i] == key
    }

    pub fn new() -> (r: Registry)
        ensures
            r.wf(),
            r.keys().len() == 0,
    {
        let r = Registry { entries: Vec::new() };
        proof {
            assert(r.keys() =~= Seq::empty());
            assert(r.kinds() =~= Seq::empty());
            assert(r.names() =~= Seq::empty());
        }
        r
    }

    /// The number of sources.
    pub fn len(&self) -> (r: usize)
        ensures
            r == self.keys().len(),
    {
        self.entries.len()
    }

    /// The position of the source with `key`, if there is one.
    pub fn lookup(&self, key: usize) -> (r: Option<usize>)
        requires
            self.wf(),
        ensures
            r matches Some(i) ==> i < self.keys().len() && self.keys()[i as int] == key,
            r is None <==> !self.has_key(key),
    {
        let mut i: usize = 0;
        while i < self.entries.len()
            invariant
                0 <= i <= self.entries@.len(),
                self.keys().len() == self.entries@.len(),
                forall|k: int| 0 <= k < i ==> self.keys()[k] != key,
            decreases self.entries@.len() - i,
        {
            proof {
                assert(self.keys()[i as int] == self.entries@[i as int].key);
            }
            if self.entries[i].key == key {
                return Some(i);
            }
            i = i + 1;
        }
        None
    }

    /// The source at position `i`.
    pub fn entry(&self, i: usize) -> (r: &SourceEntry)
        requires
            i < self.keys().len(),
        ensures
            r.key == self.keys()[i as int],
            r.kind == self.kinds()[i as int],
            r.name@ == self.names()[i as int],
    {
        &self.entries[i]
    }

    fn push_entry(&mut self, kind: TransportKind, key: usize, name: &str)
        requires
            old(self).wf(),
            !old(self).has_key(key),
            key == KLOG_KEY <==> kind == TransportKind::Klog,
        ensures
            final(self).wf(),
            final(self).keys() == old(self).keys().push(key),
            final(self).kinds() == old(self).kinds().push(kind),
            final(self).names() == old(self).names().push(name@),
    {
        self.entries.push(SourceEntry { kind, key, name: name.to_owned() });
        proof {
            assert(self.keys() =~= old(self).keys().push(key));
            assert(self.kinds() =~= old(self).kinds().push(kind));
            assert(self.names() =~= old(self).names().push(name@));
        }
    }

    /// Adds the socket in activation slot `slot`; its readiness key is the
    /// slot number. A slot that was claimed already gives `DuplicateHandle`
    /// and leaves the registry as it was.
    pub fn add_socket(&mut self, slot: usize, kind: TransportKind, name: &str) -> (r: Result<
        usize,
        RegistryError,
    >)
        requires
            old(self).wf(),
            slot < KLOG_KEY,
            kind != TransportKind::Klog,
        ensures
            final(self).wf(),
            old(self).has_key(slot) ==> r == Err::<usize, RegistryError>(
                RegistryError::DuplicateHandle,
            ) && final(self).keys() == old(self).keys() && final(self).kinds() == old(
                self,
            ).kinds() && final(self).names() == old(self).names(),
            !old(self).has_key(slot) ==> r == Ok::<usize, RegistryError>(slot)
                && final(self).keys() == old(self).keys().push(slot) && final(self).kinds()
                == old(self).kinds().push(kind) && final(self).names() == old(
                self,
            ).names().push(name@),
    {
        match self.lookup(slot) {
            Some(_) => Err(RegistryError::DuplicateHandle),
            None => {
                self.push_entry(kind, slot, name);
                Ok(slot)
            },
        }
    }

    /// Adds the kernel-log source under its reserved key, after the sockets.
    /// A second kernel-log source gives `DuplicateHandle`.
    pub fn add_klog(&mut self, name: &str) -> (r: Result<usize, RegistryError>)
        requires
            old(self).wf(),
        ensures
            final(self).wf(),
            old(self).has_key(KLOG_KEY) ==> r == Err::<usize, RegistryError>(
                RegistryError::DuplicateHandle,
            ) && final(self).keys() == old(self).keys() && final(self).kinds() == old(
                self,
            ).kinds() && final(self).names() == old(self).names(),
            !old(self).has_key(KLOG_KEY) ==> r == Ok::<usize, RegistryError>(KLOG_KEY)
                && final(self).keys() == old(self).keys().push(KLOG_KEY) && final(self).kinds()
                == old(self).kinds().push(TransportKind::Klog) && final(self).names() == old(
                self,
            ).names().push(name@),
    {
        match self.lookup(KLOG_KEY) {
            Some(_) => Err(RegistryError::DuplicateHandle),
            None => {
                self.push_entry(TransportKind::Klog, KLOG_KEY, name);
                Ok(KLOG_KEY)
            },
        }
    }
}

/// Once a source holds a key, adding a socket with that key again fails
/// with `DuplicateHandle`: after a successful `add_socket(slot, ..)` the
/// registry has the key `slot`, and `add_socket` refuses exactly such slots.
pub proof fn lemma_second_claim_refused(before: Registry, after: Registry, slot: usize)
    requires
        after.keys() == before.keys().push(slot),
    ensures
        after.has_key(slot),
{
    assert(after.keys()[before.keys().len() as int] == slot);
}

/// A refused claim leaves the key in place, so every later claim of the
/// same slot is refused as well.
pub proof fn lemma_claim_stays_refused(before: Registry, after: Registry, slot: usize)
    requires
        before.has_key(slot),
        after.keys() == before.keys(),
    ensures
        after.has_key(slot),
{
}

} // verus!
