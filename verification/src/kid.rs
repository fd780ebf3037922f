//! Key identifiers and the directory of peer static keys.
//!
//! A key identifier (KID) is a short byte string that a peer sends to say
//! which of its static keys it used. Identifiers are byte strings of any
//! width. Zero bytes at the end are padding and do not count: an identifier
//! stored in a wider field is the same identifier. Two identifiers are the
//! same when their normal forms, the bytes without that padding, are equal
//! byte for byte.

use vstd::prelude::*;

verus! {

/// The normal form of an identifier: `kid` without the zero bytes at its
/// end.
pub open spec fn kid_normal(kid: Seq<u8>) -> Seq<u8>
    decreases kid.len(),
{
    if kid.len() > 0 && kid.last() == 0 {
        kid_normal(kid.drop_last())
    } else {
        kid
    }
}

/// Whether `a` and `b` are the same identifier.
pub open spec fn kid_matches(a: Seq<u8>, b: Seq<u8>) -> bool {
    kid_normal(a) == kid_normal(b)
}

/// One line of a directory: an identifier and the static public key that it
/// stands for.
pub struct PeerKey {
    pub kid: Seq<u8>,
    pub key: Seq<u8>,
}

/// The key that `dir` gives for `kid`: that of the last line whose
/// identifier is `kid`, and `None` when no line has it.
pub open spec fn lookup(dir: Seq<PeerKey>, kid: Seq<u8>) -> Option<Seq<u8>>
    decreases dir.len(),
{
    if dir.len() == 0 {
        None
    } else if kid_matches(dir.last().kid, kid) {
        Some(dir.last().key)
    } else {
        lookup(dir.drop_last(), kid)
    }
}

/// A directory in which no identifier occurs twice.
pub open spec fn distinct_kids(dir: Seq<PeerKey>) -> bool {
    forall|i: int, j: int|
        0 <= i < j < dir.len() ==> !kid_matches(#[trigger] dir[i].kid, #[trigger] dir[j].kid)
}

/// A line of a static-key file, as the lookup reads it.
pub trait PeerEntry {
    /// The line as mathematical values.
    spec fn peer(&self) -> PeerKey;

    /// The identifier of this line.
    fn entry_kid(&self) -> (kid: &[u8])
        ensures
            kid@ == self.peer().kid,
    ;

    /// The static public key of this line.
    fn entry_key(&self) -> (key: [u8; 32])
        ensures
            key@ == self.peer().key,
    ;
}

/// The directory that a list of lines stands for.
pub open spec fn directory<E: PeerEntry>(entries: Seq<E>) -> Seq<PeerKey> {
    Seq::new(entries.len(), |i: int| entries[i].peer())
}

/// The normal form is a prefix of the identifier, and it does not end in
/// zero.
pub proof fn lemma_kid_normal_prefix(kid: Seq<u8>)
    ensures
        kid_normal(kid).len() <= kid.len(),
        kid_normal(kid) == kid.subrange(0, kid_normal(kid).len() as int),
        kid_normal(kid).len() > 0 ==> kid_normal(kid).last() != 0,
        forall|i: int| kid_normal(kid).len() <= i < kid.len() ==> kid[i] == 0,
    decreases kid.len(),
{
    if kid.len() > 0 && kid.last() == 0 {
        let shorter = kid.drop_last();
        lemma_kid_normal_prefix(shorter);
        let n = kid_normal(shorter).len() as int;
        assert(shorter.subrange(0, n) =~= kid.subrange(0, n));
        assert forall|i: int| kid_normal(kid).len() <= i < kid.len() implies kid[i] == 0 by {
            if i < shorter.len() {
                assert(shorter[i] == kid[i]);
            }
        }
    } else {
        assert(kid.subrange(0, kid.len() as int) =~= kid);
    }
}

/// Normal forms are not shortened further.
pub proof fn lemma_kid_normal_idempotent(kid: Seq<u8>)
    ensures
        kid_normal(kid_normal(kid)) == kid_normal(kid),
{
    lemma_kid_normal_prefix(kid);
}

/// Padding an identifier with zero bytes does not change it.
pub proof fn lemma_kid_padding(kid: Seq<u8>, zeros: nat)
    ensures
        kid_matches(kid + Seq::new(zeros, |i: int| 0u8), kid),
    decreases zeros,
{
    let wide = kid + Seq::new(zeros, |i: int| 0u8);
    if zeros == 0 {
        assert(wide =~= kid);
    } else {
        let less = kid + Seq::new((zeros - 1) as nat, |i: int| 0u8);
        assert(wide.drop_last() =~= less);
        lemma_kid_padding(kid, (zeros - 1) as nat);
    }
}

/// Being the same identifier is an equivalence.
pub proof fn lemma_kid_matches_equivalence(a: Seq<u8>, b: Seq<u8>, c: Seq<u8>)
    ensures
        kid_matches(a, a),
        kid_matches(a, b) ==> kid_matches(b, a),
        kid_matches(a, b) && kid_matches(b, c) ==> kid_matches(a, c),
{
}

/// What a lookup finds: nothing exactly when no line has the identifier,
/// and otherwise the key of the last line that has it.
pub proof fn lemma_lookup_found(dir: Seq<PeerKey>, kid: Seq<u8>)
    ensures
        lookup(dir, kid) is None <==> forall|i: int|
            0 <= i < dir.len() ==> !kid_matches(#[trigger] dir[i].kid, kid),
        lookup(dir, kid) matches Some(key) ==> exists|i: int|
            {
                &&& 0 <= i < dir.len()
                &&& kid_matches(#[trigger] dir[i].kid, kid)
                &&& dir[i].key == key
                &&& forall|j: int| i < j < dir.len() ==> !kid_matches(#[trigger] dir[j].kid, kid)
            },
    decreases dir.len(),
{
    if dir.len() == 0 {
    } else if kid_matches(dir.last().kid, kid) {
        let i = dir.len() - 1;
        assert(kid_matches(dir[i].kid, kid) && dir[i].key == dir.last().key);
    } else {
        let rest = dir.drop_last();
        lemma_lookup_found(rest, kid);
        assert forall|i: int| 0 <= i < rest.len() implies rest[i] == dir[i] by {}
        if lookup(rest, kid) is None {
            assert forall|i: int| 0 <= i < dir.len() implies !kid_matches(
                #[trigger] dir[i].kid,
                kid,
            ) by {
                if i < rest.len() {
                    assert(rest[i] == dir[i]);
                }
            }
        } else {
            let key = lookup(rest, kid)->Some_0;
            let i = choose|i: int|
                {
                    &&& 0 <= i < rest.len()
                    &&& kid_matches(#[trigger] rest[i].kid, kid)
                    &&& rest[i].key == key
                    &&& forall|j: int|
                        i < j < rest.len() ==> !kid_matches(#[trigger] rest[j].kid, kid)
                };
            assert(rest[i] == dir[i]);
            assert forall|j: int| i < j < dir.len() implies !kid_matches(
                #[trigger] dir[j].kid,
                kid,
            ) by {
                if j < rest.len() {
                    assert(rest[j] == dir[j]);
                }
            }
            assert(kid_matches(dir[i].kid, kid) && dir[i].key == key);
        }
    }
}

/// Lookup is a function of the directory and of the identifier, and the
/// width in which the identifier is written does not matter: the same
/// identifier, padded or not, gets the same answer from the same directory.
pub proof fn lemma_lookup_deterministic(dir: Seq<PeerKey>, kid: Seq<u8>, other: Seq<u8>)
    requires
        kid_matches(kid, other),
    ensures
        lookup(dir, kid) == lookup(dir, other),
    decreases dir.len(),
{
    if dir.len() > 0 && !kid_matches(dir.last().kid, kid) {
        lemma_lookup_deterministic(dir.drop_last(), kid, other);
    }
}

/// In a directory without repeated identifiers, every line is found by its
/// own identifier.
pub proof fn lemma_lookup_own_line(dir: Seq<PeerKey>, i: int)
    requires
        distinct_kids(dir),
        0 <= i < dir.len(),
    ensures
        lookup(dir, dir[i].kid) == Some(dir[i].key),
    decreases dir.len(),
{
    if i == dir.len() - 1 {
    } else {
        let rest = dir.drop_last();
        assert(!kid_matches(dir[i].kid, dir[dir.len() - 1].kid));
        assert forall|a: int, b: int| 0 <= a < b < rest.len() implies !kid_matches(
            #[trigger] rest[a].kid,
            #[trigger] rest[b].kid,
        ) by {
            assert(rest[a] == dir[a] && rest[b] == dir[b]);
        }
        assert(rest[i] == dir[i]);
        lemma_lookup_own_line(rest, i);
    }
}

/// Number of bytes of `kid` that count: the length of its normal form.
pub fn kid_width(kid: &[u8]) -> (n: usize)
    ensures
        n == kid_normal(kid@).len(),
        n <= kid@.len(),
        kid_normal(kid@) == kid@.subrange(0, n as int),
{
    let mut n: usize = kid.len();
    assert(kid@.subrange(0, n as int) =~= kid@);
    while n > 0 && kid[n - 1] == 0
        invariant
            n <= kid@.len(),
            kid_normal(kid@) == kid_normal(kid@.subrange(0, n as int)),
        decreases n,
    {
        assert(kid@.subrange(0, n as int).drop_last() =~= kid@.subrange(0, n - 1));
        n = n - 1;
    }
    proof {
        lemma_kid_normal_prefix(kid@);
        lemma_kid_normal_prefix(kid@.subrange(0, n as int));
    }
    n
}

/// Whether `a` and `b` are the same identifier.
pub fn same_kid(a: &[u8], b: &[u8]) -> (same: bool)
    ensures
        same == kid_matches(a@, b@),
{
    let n: usize = kid_width(a);
    if n != kid_width(b) {
        return false;
    }
    let mut i: usize = 0;
    while i < n
        invariant
            i <= n,
            n <= a@.len(),
            n <= b@.len(),
            kid_normal(a@) == a@.subrange(0, n as int),
            kid_normal(b@) == b@.subrange(0, n as int),
            forall|j: int| 0 <= j < i ==> a@[j] == b@[j],
        decreases n - i,
    {
        if a[i] != b[i] {
            assert(a@.subrange(0, n as int)[i as int] != b@.subrange(0, n as int)[i as int]);
            return false;
        }
        i = i + 1;
    }
    assert(a@.subrange(0, n as int) =~= b@.subrange(0, n as int));
    true
}

/// The static public key that `entries` gives for `kid`, by a scan of all
/// lines.
pub fn find_peer_key<E: PeerEntry>(entries: &Vec<E>, kid: &[u8]) -> (found: Option<[u8; 32]>)
    ensures
        found is Some <==> lookup(directory(entries@), kid@) is Some,
        found matches Some(key) ==> lookup(directory(entries@), kid@) == Some(key@),
{
    let ghost dir = directory(entries@);
    let mut found: Option<[u8; 32]> = None;
    let mut i: usize = 0;
    assert(dir.subrange(0, 0) =~= Seq::<PeerKey>::empty());
    while i < entries.len()
        invariant
            i <= entries@.len(),
            dir == directory(entries@),
            found is Some <==> lookup(dir.subrange(0, i as int), kid@) is Some,
            found matches Some(key) ==> lookup(dir.subrange(0, i as int), kid@) == Some(key@),
        decreases entries@.len() - i,
    {
        let ghost upto = dir.subrange(0, i + 1);
        assert(upto.drop_last() =~= dir.subrange(0, i as int));
        assert(upto.last() == entries@[i as int].peer());
        if same_kid(entries[i].entry_kid(), kid) {
            found = Some(entries[i].entry_key());
        }
        i = i + 1;
    }
    assert(dir.subrange(0, i as int) =~= dir);
    found
}

} // verus!
