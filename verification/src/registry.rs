//! The server's registry of sessions, one per device address.
//!
//! An address is entered with the pending handshake when message 2 goes
//! out, leaves when message 3 arrives, and is entered again with the
//! ratchet once message 3 is verified. An address has one entry at most, and
//! an entry is in one state: a handshake never sits beside a ratchet. The
//! ratchet is lent out while a frame is worked on and put back after.
//!
//! Entries stand in the order in which they came. Handshakes that a device
//! never finishes would pile up, so the number of pending ones is bounded:
//! when the bound is reached, the oldest pending handshake gives way to the
//! new one.

use vstd::prelude::*;

verus! {

/// What the registry keeps for an address. `P` is the receiver of message 3
/// that the EDHOC core left behind, `R` the ratchet.
#[derive(Debug, PartialEq, Eq)]
pub enum Slot<P, R> {
    /// Message 2 was sent; message 3 is awaited.
    Pending(P),
    /// The handshake is done and the ratchet is at rest here.
    Ratcheting(R),
    /// The ratchet is out, at work on a frame.
    Lent,
}

/// One line of the registry.
#[derive(Debug, PartialEq, Eq)]
pub struct Entry<P, R> {
    pub devaddr: [u8; 4],
    pub slot: Slot<P, R>,
    /// Frames counted for this device.
    pub recv_count: u16,
}

/// Why the registry refused.
#[derive(Clone, Copy, Debug, PartialEq, Eq, Structural)]
pub enum RegistryError {
    /// The address is taken.
    DuplicateDevaddr,
    /// No entry of the wanted kind under this address.
    UnknownDevaddr,
}

/// What the counter of a session starts at: the two handshake uplinks.
pub const HANDSHAKE_UPLINKS: u16 = 2;

/// Whether some line of `s` has the address `devaddr`.
pub open spec fn holds<P, R>(s: Seq<Entry<P, R>>, devaddr: Seq<u8>) -> bool {
    exists|i: int| 0 <= i < s.len() && (#[trigger] s[i]).devaddr@ == devaddr
}

/// A line of `s` with the address `devaddr`, if there is one.
pub open spec fn index_of<P, R>(s: Seq<Entry<P, R>>, devaddr: Seq<u8>) -> int {
    choose|i: int| 0 <= i < s.len() && (#[trigger] s[i]).devaddr@ == devaddr
}

/// No address occurs twice in `s`.
pub open spec fn distinct<P, R>(s: Seq<Entry<P, R>>) -> bool {
    forall|i: int, j: int|
        0 <= i < j < s.len() ==> (#[trigger] s[i]).devaddr@ != (#[trigger] s[j]).devaddr@
}

/// Number of pending handshakes in `s`.
pub open spec fn pending_count<P, R>(s: Seq<Entry<P, R>>) -> nat
    decreases s.len(),
{
    if s.len() == 0 {
        0
    } else {
        pending_count(s.drop_last()) + if s.last().slot is Pending {
            1nat
        } else {
            0nat
        }
    }
}

/// Whether `i` is the oldest pending handshake of `s`.
pub open spec fn is_oldest_pending<P, R>(s: Seq<Entry<P, R>>, i: int) -> bool {
    &&& 0 <= i < s.len()
    &&& s[i].slot is Pending
    &&& forall|j: int| 0 <= j < i ==> !((#[trigger] s[j]).slot is Pending)
}

/// The oldest pending handshake of `s`, if there is one.
pub open spec fn oldest_pending<P, R>(s: Seq<Entry<P, R>>) -> int {
    choose|i: int| is_oldest_pending(s, i)
}

/// Pending handshakes that are kept: `max_pending`, and one at least.
pub open spec fn pending_bound(max_pending: usize) -> nat {
    if max_pending == 0 {
        1
    } else {
        max_pending as nat
    }
}

/// `s` after the oldest pending handshake has made room, where the bound
/// is reached.
pub open spec fn with_room<P, R>(s: Seq<Entry<P, R>>, max_pending: usize) -> Seq<Entry<P, R>> {
    if pending_count(s) >= pending_bound(max_pending) {
        s.remove(oldest_pending(s))
    } else {
        s
    }
}

/// The line `e` with another slot.
pub open spec fn with_slot<P, R>(e: Entry<P, R>, slot: Slot<P, R>) -> Entry<P, R> {
    Entry { devaddr: e.devaddr, slot, recv_count: e.recv_count }
}

/// The counter after one more frame: one more, and zero after 65535.
pub open spec fn next_count(count: u16) -> u16 {
    if count == 0xffff {
        0
    } else {
        (count + 1) as u16
    }
}

/// In a sequence without repeated addresses a line is found by its address.
pub proof fn lemma_index_of<P, R>(s: Seq<Entry<P, R>>, i: int)
    requires
        distinct(s),
        0 <= i < s.len(),
    ensures
        holds(s, s[i].devaddr@),
        index_of(s, s[i].devaddr@) == i,
{
    let a = s[i].devaddr@;
    let k = index_of(s, a);
    assert(0 <= k < s.len() && s[k].devaddr@ == a);
    if k < i {
        assert(s[k].devaddr@ != s[i].devaddr@);
    } else if i < k {
        assert(s[i].devaddr@ != s[k].devaddr@);
    }
}

/// The oldest pending handshake is one line and no other.
pub proof fn lemma_oldest_pending<P, R>(s: Seq<Entry<P, R>>, i: int)
    requires
        is_oldest_pending(s, i),
    ensures
        oldest_pending(s) == i,
{
    let k = oldest_pending(s);
    assert(is_oldest_pending(s, k));
    if k < i {
        assert(!(s[k].slot is Pending));
    } else if i < k {
        assert(!(s[i].slot is Pending));
    }
}

/// A new line at the end counts if it is pending.
pub proof fn lemma_count_push<P, R>(s: Seq<Entry<P, R>>, e: Entry<P, R>)
    ensures
        pending_count(s.push(e)) == pending_count(s) + if e.slot is Pending {
            1nat
        } else {
            0nat
        },
{
    assert(s.push(e).drop_last() =~= s);
}

/// Taking a line out takes it out of the count if it was pending.
pub proof fn lemma_count_remove<P, R>(s: Seq<Entry<P, R>>, i: int)
    requires
        0 <= i < s.len(),
    ensures
        pending_count(s.remove(i)) + (if s[i].slot is Pending {
            1nat
        } else {
            0nat
        }) == pending_count(s),
    decreases s.len(),
{
    if i == s.len() - 1 {
        assert(s.remove(i) =~= s.drop_last());
    } else {
        let front = s.drop_last();
        lemma_count_remove(front, i);
        assert(s.remove(i).drop_last() =~= front.remove(i));
        assert(s.remove(i).last() == s.last());
    }
}

/// Changing a line changes the count by what the line counted for.
pub proof fn lemma_count_update<P, R>(s: Seq<Entry<P, R>>, i: int, e: Entry<P, R>)
    requires
        0 <= i < s.len(),
    ensures
        pending_count(s.update(i, e)) + (if s[i].slot is Pending {
            1nat
        } else {
            0nat
        }) == pending_count(s) + (if e.slot is Pending {
            1nat
        } else {
            0nat
        }),
    decreases s.len(),
{
    if i == s.len() - 1 {
        assert(s.update(i, e).drop_last() =~= s.drop_last());
    } else {
        let front = s.drop_last();
        lemma_count_update(front, i, e);
        assert(s.update(i, e).drop_last() =~= front.update(i, e));
        assert(s.update(i, e).last() == s.last());
    }
}

/// The registry of the server's sessions.
pub struct SessionRegistry<P, R> {
    entries: Vec<Entry<P, R>>,
    max_pending: usize,
}

impl<P, R> View for SessionRegistry<P, R> {
    type V = Seq<Entry<P, R>>;

    /// The lines, oldest first.
    closed spec fn view(&self) -> Seq<Entry<P, R>> {
        self.entries@
    }
}

impl<P, R> SessionRegistry<P, R> {
    /// The bound on pending handshakes that the registry was made with.
    pub closed spec fn max_pending(&self) -> usize {
        self.max_pending
    }

    /// No address occurs twice, and the pending handshakes are within the
    /// bound. Every registry is so at all times.
    #[verifier::type_invariant]
    pub open spec fn wf(&self) -> bool {
        &&& distinct(self@)
        &&& pending_count(self@) <= pending_bound(self.max_pending())
    }

    /// An empty registry that keeps `max_pending` pending handshakes, and one
    /// at least.
    pub fn new(max_pending: usize) -> (registry: SessionRegistry<P, R>)
        ensures
            registry.wf(),
            registry@ == Seq::<Entry<P, R>>::empty(),
            registry.max_pending() == max_pending,
    {
        SessionRegistry { entries: Vec::new(), max_pending }
    }

    /// Number of entries.
    pub fn len(&self) -> (n: usize)
        ensures
            n == self@.len(),
    {
        self.entries.len()
    }

    /// Where the entry for `devaddr` stands.
    fn position(&self, devaddr: &[u8; 4]) -> (at: Option<usize>)
        requires
            self.wf(),
        ensures
            at is Some <==> holds(self@, devaddr@),
            at matches Some(i) ==> i < self@.len() && i == index_of(self@, devaddr@)
                && self@[i as int].devaddr@ == devaddr@,
    {
        let mut i: usize = 0;
        while i < self.entries.len()
            invariant
                self.wf(),
                i <= self.entries@.len(),
                forall|j: int| 0 <= j < i ==> (#[trigger] self.entries@[j]).devaddr@ != devaddr@,
            decreases self.entries@.len() - i,
        {
            if same_devaddr(&self.entries[i].devaddr, devaddr) {
                proof {
                    lemma_index_of(self@, i as int);
                }
                return Some(i);
            }
            i = i + 1;
        }
        None
    }

    /// Number of pending handshakes, and the oldest of them.
    fn pending(&self) -> (out: (usize, Option<usize>))
        ensures
            out.0 == pending_count(self@),
            out.1 is Some <==> out.0 > 0,
            out.1 matches Some(i) ==> is_oldest_pending(self@, i as int),
    {
        let mut count: usize = 0;
        let mut oldest: Option<usize> = None;
        let mut i: usize = 0;
        assert(self.entries@.subrange(0, 0) =~= Seq::<Entry<P, R>>::empty());
        while i < self.entries.len()
            invariant
                i <= self.entries@.len(),
                count <= i,
                count == pending_count(self.entries@.subrange(0, i as int)),
                oldest is Some <==> count > 0,
                oldest matches Some(k) ==> is_oldest_pending(self.entries@, k as int),
                oldest is None ==> forall|j: int|
                    0 <= j < i ==> !((#[trigger] self.entries@[j]).slot is Pending),
            decreases self.entries@.len() - i,
        {
            let ghost upto = self.entries@.subrange(0, i + 1);
            assert(upto.drop_last() =~= self.entries@.subrange(0, i as int));
            assert(upto.last() == self.entries@[i as int]);
            let is_pending: bool = match &self.entries[i].slot {
                Slot::Pending(_) => true,
                _ => false,
            };
            if is_pending {
                if oldest.is_none() {
                    oldest = Some(i);
                }
                count = count + 1;
            }
            i = i + 1;
        }
        assert(self.entries@.subrange(0, i as int) =~= self.entries@);
        (count, oldest)
    }

    /// Whether `devaddr` has an entry.
    pub fn contains(&self, devaddr: &[u8; 4]) -> (found: bool)
        ensures
            found == holds(self@, devaddr@),
    {
        proof {
            use_type_invariant(&*self);
        }
        self.position(devaddr).is_some()
    }

    /// The frames counted for `devaddr`, if it has an entry.
    pub fn recv_count(&self, devaddr: &[u8; 4]) -> (count: Option<u16>)
        ensures
            count is Some <==> holds(self@, devaddr@),
            count matches Some(n) ==> n == self@[index_of(self@, devaddr@)].recv_count,
    {
        proof {
            use_type_invariant(&*self);
        }
        match self.position(devaddr) {
            Some(i) => Some(self.entries[i].recv_count),
            None => None,
        }
    }

    /// Enters the pending handshake of `devaddr`. Refused with
    /// `DuplicateDevaddr` exactly when the address has an entry. Where the
    /// bound on pending handshakes is reached, the oldest of them leaves.
    pub fn insert_pending(&mut self, devaddr: [u8; 4], receiver: P) -> (done: Result<
        (),
        RegistryError,
    >)
        ensures
            final(self).wf(),
            final(self).max_pending() == old(self).max_pending(),
            holds(old(self)@, devaddr@) ==> done == Err::<(), RegistryError>(
                RegistryError::DuplicateDevaddr,
            ) && final(self)@ == old(self)@,
            !holds(old(self)@, devaddr@) ==> done is Ok && final(self)@ == with_room(
                old(self)@,
                old(self).max_pending(),
            ).push((Entry { devaddr, slot: Slot::Pending(receiver), recv_count: 0 })),
    {
        proof {
            use_type_invariant(&*self);
        }
        if self.position(&devaddr).is_some() {
            return Err(RegistryError::DuplicateDevaddr);
        }
        let bound: usize = if self.max_pending == 0 {
            1
        } else {
            self.max_pending
        };
        let (count, oldest) = self.pending();
        let ghost before = self.entries@;
        let mut entries: Vec<Entry<P, R>> = Vec::new();
        std::mem::swap(&mut entries, &mut self.entries);
        if count >= bound {
            let at: usize = oldest.unwrap();
            proof {
                lemma_oldest_pending(before, at as int);
                lemma_count_remove(before, at as int);
            }
            let _ = entries.remove(at);
        }
        let ghost room = entries@;
        assert(room == with_room(before, self.max_pending));
        assert(distinct(room) && !holds(room, devaddr@)) by {
            if count >= bound {
                let at = oldest_pending(before);
                assert forall|i: int| 0 <= i < room.len() implies exists|k: int|
                    0 <= k < before.len() && #[trigger] room[i] == before[k] by {
                    if i < at {
                        assert(room[i] == before[i]);
                    } else {
                        assert(room[i] == before[i + 1]);
                    }
                }
                assert forall|i: int, j: int| 0 <= i < j < room.len() implies (
                #[trigger] room[i]).devaddr@ != (#[trigger] room[j]).devaddr@ by {
                    let ki = if i < at {
                        i
                    } else {
                        i + 1
                    };
                    let kj = if j < at {
                        j
                    } else {
                        j + 1
                    };
                    assert(room[i] == before[ki] && room[j] == before[kj]);
                }
                if holds(room, devaddr@) {
                    let i = index_of(room, devaddr@);
                    let k = if i < at {
                        i
                    } else {
                        i + 1
                    };
                    assert(room[i] == before[k]);
                    assert(holds(before, devaddr@));
                }
            }
        }
        let entry = Entry { devaddr, slot: Slot::Pending(receiver), recv_count: 0 };
        proof {
            lemma_count_push(room, entry);
        }
        entries.push(entry);
        assert(distinct(entries@)) by {
            assert forall|i: int, j: int| 0 <= i < j < entries@.len() implies (
            #[trigger] entries@[i]).devaddr@ != (#[trigger] entries@[j]).devaddr@ by {
                if j == room.len() {
                    assert(entries@[i] == room[i]);
                    if room[i].devaddr@ == devaddr@ {
                        assert(holds(room, devaddr@));
                    }
                } else {
                    assert(entries@[i] == room[i] && entries@[j] == room[j]);
                }
            }
        }
        self.entries = entries;
        Ok(())
    }

    /// Takes the pending handshake of `devaddr` out; its entry leaves the
    /// registry. `UnknownDevaddr` exactly when the address has no pending
    /// handshake.
    pub fn take_pending(&mut self, devaddr: &[u8; 4]) -> (taken: Result<P, RegistryError>)
        ensures
            final(self).wf(),
            final(self).max_pending() == old(self).max_pending(),
            taken is Ok <==> holds(old(self)@, devaddr@) && old(self)@[index_of(
                old(self)@,
                devaddr@,
            )].slot is Pending,
            taken matches Ok(receiver) ==> {
                &&& old(self)@[index_of(old(self)@, devaddr@)].slot == Slot::<P, R>::Pending(
                    receiver,
                )
                &&& final(self)@ == old(self)@.remove(index_of(old(self)@, devaddr@))
                &&& !holds(final(self)@, devaddr@)
            },
            taken matches Err(e) ==> e == RegistryError::UnknownDevaddr && final(self)@ == old(
                self,
            )@,
    {
        proof {
            use_type_invariant(&*self);
        }
        let at: usize = match self.position(devaddr) {
            Some(i) => i,
            None => {
                return Err(RegistryError::UnknownDevaddr);
            },
        };
        let is_pending: bool = match &self.entries[at].slot {
            Slot::Pending(_) => true,
            _ => false,
        };
        if !is_pending {
            return Err(RegistryError::UnknownDevaddr);
        }
        let ghost before = self.entries@;
        proof {
            lemma_count_remove(before, at as int);
        }
        let mut entries: Vec<Entry<P, R>> = Vec::new();
        std::mem::swap(&mut entries, &mut self.entries);
        let entry = entries.remove(at);
        let ghost after = entries@;
        assert(distinct(after) && !holds(after, devaddr@)) by {
            assert forall|i: int, j: int| 0 <= i < j < after.len() implies (
            #[trigger] after[i]).devaddr@ != (#[trigger] after[j]).devaddr@ by {
                let ki = if i < at {
                    i
                } else {
                    i + 1
                };
                let kj = if j < at {
                    j
                } else {
                    j + 1
                };
                assert(after[i] == before[ki] && after[j] == before[kj]);
            }
            if holds(after, devaddr@) {
                let i = index_of(after, devaddr@);
                let k = if i < at {
                    i
                } else {
                    i + 1
                };
                assert(after[i] == before[k]);
                if k < at {
                    assert(before[k].devaddr@ != before[at as int].devaddr@);
                } else {
                    assert(before[at as int].devaddr@ != before[k].devaddr@);
                }
            }
        }
        self.entries = entries;
        match entry.slot {
            Slot::Pending(receiver) => Ok(receiver),
            _ => Err(RegistryError::UnknownDevaddr),
        }
    }

    /// Enters `devaddr` with its ratchet, the counter at the two handshake
    /// uplinks. Refused with `DuplicateDevaddr` exactly when the address has
    /// an entry.
    pub fn install_ratchet(&mut self, devaddr: [u8; 4], ratchet: R) -> (done: Result<
        (),
        RegistryError,
    >)
        ensures
            final(self).wf(),
            final(self).max_pending() == old(self).max_pending(),
            holds(old(self)@, devaddr@) ==> done == Err::<(), RegistryError>(
                RegistryError::DuplicateDevaddr,
            ) && final(self)@ == old(self)@,
            !holds(old(self)@, devaddr@) ==> done is Ok && final(self)@ == old(self)@.push(
                (Entry { devaddr, slot: Slot::Ratcheting(ratchet), recv_count: HANDSHAKE_UPLINKS }),
            ),
    {
        proof {
            use_type_invariant(&*self);
        }
        if self.position(&devaddr).is_some() {
            return Err(RegistryError::DuplicateDevaddr);
        }
        let ghost before = self.entries@;
        let entry = Entry { devaddr, slot: Slot::Ratcheting(ratchet), recv_count: HANDSHAKE_UPLINKS };
        proof {
            lemma_count_push(before, entry);
        }
        let mut entries: Vec<Entry<P, R>> = Vec::new();
        std::mem::swap(&mut entries, &mut self.entries);
        entries.push(entry);
        assert(distinct(entries@)) by {
            assert forall|i: int, j: int| 0 <= i < j < entries@.len() implies (
            #[trigger] entries@[i]).devaddr@ != (#[trigger] entries@[j]).devaddr@ by {
                if j == before.len() {
                    assert(entries@[i] == before[i]);
                    if before[i].devaddr@ == devaddr@ {
                        assert(holds(before, devaddr@));
                    }
                } else {
                    assert(entries@[i] == before[i] && entries@[j] == before[j]);
                }
            }
        }
        self.entries = entries;
        Ok(())
    }

    /// Puts `entry` where line `at` stood. The address stays.
    fn replace(&mut self, at: usize, entry: Entry<P, R>)
        requires
            old(self).wf(),
            at < old(self)@.len(),
            entry.devaddr@ == old(self)@[at as int].devaddr@,
            !(entry.slot is Pending),
        ensures
            final(self).wf(),
            final(self).max_pending() == old(self).max_pending(),
            final(self)@ == old(self)@.update(at as int, entry),
    {
        let ghost before = self.entries@;
        proof {
            lemma_count_update(before, at as int, entry);
        }
        let mut entries: Vec<Entry<P, R>> = Vec::new();
        std::mem::swap(&mut entries, &mut self.entries);
        let _ = entries.remove(at);
        entries.insert(at, entry);
        assert(entries@ =~= before.update(at as int, entry));
        assert(distinct(entries@)) by {
            assert forall|i: int, j: int| 0 <= i < j < entries@.len() implies (
            #[trigger] entries@[i]).devaddr@ != (#[trigger] entries@[j]).devaddr@ by {
                assert(before[i].devaddr@ != before[j].devaddr@);
            }
        }
        self.entries = entries;
    }

    /// Lends the ratchet of `devaddr` out; its entry stays, marked as lent.
    /// `UnknownDevaddr` exactly when no ratchet is at rest under the address.
    pub fn take_ratchet(&mut self, devaddr: &[u8; 4]) -> (taken: Result<R, RegistryError>)
        ensures
            final(self).wf(),
            final(self).max_pending() == old(self).max_pending(),
            taken is Ok <==> holds(old(self)@, devaddr@) && old(self)@[index_of(
                old(self)@,
                devaddr@,
            )].slot is Ratcheting,
            taken matches Ok(ratchet) ==> {
                &&& old(self)@[index_of(old(self)@, devaddr@)].slot == Slot::<P, R>::Ratcheting(
                    ratchet,
                )
                &&& final(self)@ == old(self)@.update(
                    index_of(old(self)@, devaddr@),
                    with_slot(old(self)@[index_of(old(self)@, devaddr@)], Slot::Lent),
                )
            },
            taken matches Err(e) ==> e == RegistryError::UnknownDevaddr && final(self)@ == old(
                self,
            )@,
    {
        proof {
            use_type_invariant(&*self);
        }
        let at: usize = match self.position(devaddr) {
            Some(i) => i,
            None => {
                return Err(RegistryError::UnknownDevaddr);
            },
        };
        let at_rest: bool = match &self.entries[at].slot {
            Slot::Ratcheting(_) => true,
            _ => false,
        };
        if !at_rest {
            return Err(RegistryError::UnknownDevaddr);
        }
        let ghost before = self.entries@;
        proof {
            lemma_count_remove(before, at as int);
            lemma_count_update(before, at as int, with_slot(before[at as int], Slot::Lent));
        }
        let mut entries: Vec<Entry<P, R>> = Vec::new();
        std::mem::swap(&mut entries, &mut self.entries);
        let entry = entries.remove(at);
        let lent = Entry { devaddr: entry.devaddr, slot: Slot::Lent, recv_count: entry.recv_count };
        entries.insert(at, lent);
        assert(entries@ =~= before.update(at as int, with_slot(before[at as int], Slot::Lent)));
        assert(distinct(entries@)) by {
            assert forall|i: int, j: int| 0 <= i < j < entries@.len() implies (
            #[trigger] entries@[i]).devaddr@ != (#[trigger] entries@[j]).devaddr@ by {
                assert(before[i].devaddr@ != before[j].devaddr@);
            }
        }
        self.entries = entries;
        match entry.slot {
            Slot::Ratcheting(ratchet) => Ok(ratchet),
            _ => Err(RegistryError::UnknownDevaddr),
        }
    }

    /// Puts a lent ratchet back under `devaddr`. `UnknownDevaddr` exactly
    /// when the address has no entry marked as lent.
    pub fn put_back(&mut self, devaddr: &[u8; 4], ratchet: R) -> (done: Result<(), RegistryError>)
        ensures
            final(self).wf(),
            final(self).max_pending() == old(self).max_pending(),
            done is Ok <==> holds(old(self)@, devaddr@) && old(self)@[index_of(
                old(self)@,
                devaddr@,
            )].slot is Lent,
            done is Ok ==> final(self)@ == old(self)@.update(
                index_of(old(self)@, devaddr@),
                with_slot(old(self)@[index_of(old(self)@, devaddr@)], Slot::Ratcheting(ratchet)),
            ),
            done matches Err(e) ==> e == RegistryError::UnknownDevaddr && final(self)@ == old(
                self,
            )@,
    {
        proof {
            use_type_invariant(&*self);
        }
        let at: usize = match self.position(devaddr) {
            Some(i) => i,
            None => {
                return Err(RegistryError::UnknownDevaddr);
            },
        };
        let lent: bool = match &self.entries[at].slot {
            Slot::Lent => true,
            _ => false,
        };
        if !lent {
            return Err(RegistryError::UnknownDevaddr);
        }
        let entry = Entry {
            devaddr: self.entries[at].devaddr,
            slot: Slot::Ratcheting(ratchet),
            recv_count: self.entries[at].recv_count,
        };
        self.replace(at, entry);
        Ok(())
    }

    /// Counts one more frame for the session of `devaddr` and gives the new
    /// count. `UnknownDevaddr` exactly when the address has no ratchet, at
    /// rest or lent.
    pub fn bump_recv(&mut self, devaddr: &[u8; 4]) -> (count: Result<u16, RegistryError>)
        ensures
            final(self).wf(),
            final(self).max_pending() == old(self).max_pending(),
            count is Ok <==> holds(old(self)@, devaddr@) && !(old(self)@[index_of(
                old(self)@,
                devaddr@,
            )].slot is Pending),
            count matches Ok(n) ==> {
                &&& n == next_count(old(self)@[index_of(old(self)@, devaddr@)].recv_count)
                &&& final(self)@ == old(self)@.update(
                    index_of(old(self)@, devaddr@),
                    (Entry {
                        devaddr: old(self)@[index_of(old(self)@, devaddr@)].devaddr,
                        slot: old(self)@[index_of(old(self)@, devaddr@)].slot,
                        recv_count: n,
                    }),
                )
            },
            count matches Err(e) ==> e == RegistryError::UnknownDevaddr && final(self)@ == old(
                self,
            )@,
    {
        proof {
            use_type_invariant(&*self);
        }
        let at: usize = match self.position(devaddr) {
            Some(i) => i,
            None => {
                return Err(RegistryError::UnknownDevaddr);
            },
        };
        let is_pending: bool = match &self.entries[at].slot {
            Slot::Pending(_) => true,
            _ => false,
        };
        if is_pending {
            return Err(RegistryError::UnknownDevaddr);
        }
        let ghost before = self.entries@;
        let mut entries: Vec<Entry<P, R>> = Vec::new();
        std::mem::swap(&mut entries, &mut self.entries);
        let entry = entries.remove(at);
        let n: u16 = entry.recv_count.wrapping_add(1);
        let counted = Entry { devaddr: entry.devaddr, slot: entry.slot, recv_count: n };
        proof {
            lemma_count_update(before, at as int, counted);
        }
        entries.insert(at, counted);
        assert(entries@ =~= before.update(at as int, counted));
        assert(distinct(entries@)) by {
            assert forall|i: int, j: int| 0 <= i < j < entries@.len() implies (
            #[trigger] entries@[i]).devaddr@ != (#[trigger] entries@[j]).devaddr@ by {
                assert(before[i].devaddr@ != before[j].devaddr@);
            }
        }
        self.entries = entries;
        Ok(n)
    }
}

/// Whether two addresses are the same.
pub fn same_devaddr(a: &[u8; 4], b: &[u8; 4]) -> (same: bool)
    ensures
        same == (a@ == b@),
{
    let same: bool = a[0] == b[0] && a[1] == b[1] && a[2] == b[2] && a[3] == b[3];
    if same {
        assert(a@ =~= b@);
    } else {
        assert(a@[0] != b@[0] || a@[1] != b@[1] || a@[2] != b@[2] || a@[3] != b@[3]);
    }
    same
}

} // verus!
