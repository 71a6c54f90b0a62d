//! The commitment store: an ordered map from byte keys to byte values.
//!
//! The store keeps its entries in a vector, sorted by key in lexicographic
//! order and without repeated keys. Its meaning is the map from each key to
//! its value; every operation is specified over that map.

use crate::error::{ContractError, ErrorView};
use crate::encoding::copy_bytes;
use vstd::prelude::*;

pub mod packet_ack_item;
pub mod packet_commitment_item;
pub mod packet_receipt_item;

verus! {

/// Whether `a` comes before `b` in lexicographic order, looking only at the
/// bytes from position `from` on. Both strings are taken to agree before.
pub open spec fn precedes_from(a: Seq<u8>, b: Seq<u8>, from: int) -> bool
    decreases b.len() - from,
{
    if from < 0 || from >= b.len() {
        false
    } else if from >= a.len() {
        true
    } else if a[from] != b[from] {
        a[from] < b[from]
    } else {
        precedes_from(a, b, from + 1)
    }
}

/// Whether `a` comes strictly before `b` in lexicographic order.
pub open spec fn precedes(a: Seq<u8>, b: Seq<u8>) -> bool {
    precedes_from(a, b, 0)
}

/// The order is transitive.
pub proof fn lemma_precedes_from_transitive(a: Seq<u8>, b: Seq<u8>, c: Seq<u8>, from: int)
    requires
        precedes_from(a, b, from),
        precedes_from(b, c, from),
    ensures
        precedes_from(a, c, from),
    decreases c.len() - from,
{
    if from < a.len() && from < b.len() && from < c.len() && a[from] == b[from] && b[from]
        == c[from] {
        lemma_precedes_from_transitive(a, b, c, from + 1);
    }
}

/// Of two strings that agree before `from`, one comes before the other or
/// they are the same string.
pub proof fn lemma_precedes_from_total(a: Seq<u8>, b: Seq<u8>, from: int)
    requires
        0 <= from,
        from <= a.len(),
        from <= b.len(),
        a.take(from) == b.take(from),
    ensures
        precedes_from(a, b, from) || precedes_from(b, a, from) || a == b,
        !(precedes_from(a, b, from) && precedes_from(b, a, from)),
        precedes_from(a, b, from) ==> a != b,
    decreases a.len() + b.len() - from,
{
    if from >= a.len() || from >= b.len() {
        if from >= a.len() && from >= b.len() {
            assert(a.take(from) =~= a);
            assert(b.take(from) =~= b);
        } else if from >= a.len() {
            assert(a.len() != b.len());
        } else {
            assert(a.len() != b.len());
        }
    } else if a[from] != b[from] {
    } else {
        assert(a.take(from + 1) =~= a.take(from).push(a[from]));
        assert(b.take(from + 1) =~= b.take(from).push(b[from]));
        lemma_precedes_from_total(a, b, from + 1);
    }
}

/// The order is a strict total order.
pub proof fn lemma_precedes_order(a: Seq<u8>, b: Seq<u8>)
    ensures
        precedes(a, b) || precedes(b, a) || a == b,
        !(precedes(a, b) && precedes(b, a)),
        precedes(a, b) ==> a != b,
        !precedes(a, a),
{
    assert(a.take(0) =~= b.take(0));
    lemma_precedes_from_total(a, b, 0);
    lemma_precedes_from_total(a, a, 0);
}

/// The order is transitive.
pub proof fn lemma_precedes_transitive(a: Seq<u8>, b: Seq<u8>, c: Seq<u8>)
    requires
        precedes(a, b),
        precedes(b, c),
    ensures
        precedes(a, c),
{
    lemma_precedes_from_transitive(a, b, c, 0);
}

/// How one key stands to another.
#[derive(Debug, Clone, Copy, PartialEq, Eq, Structural)]
pub enum Position {
    /// The first key comes before the second.
    Before,
    /// The keys are the same.
    Same,
    /// The first key comes after the second.
    After,
}

/// Places `a` relative to `b` in lexicographic order.
pub fn place(a: &[u8], b: &[u8]) -> (position: Position)
    ensures
        position == Position::Before <==> precedes(a@, b@),
        position == Position::Same <==> a@ == b@,
        position == Position::After <==> precedes(b@, a@),
{
    proof {
        lemma_precedes_order(a@, b@);
    }
    let mut i: usize = 0;
    while i < a.len() && i < b.len()
        invariant
            i <= a@.len(),
            i <= b@.len(),
            a@.take(i as int) == b@.take(i as int),
            precedes(a@, b@) == precedes_from(a@, b@, i as int),
            precedes(b@, a@) == precedes_from(b@, a@, i as int),
        decreases a@.len() - i,
    {
        if a[i] < b[i] {
            return Position::Before;
        }
        if a[i] > b[i] {
            return Position::After;
        }
        proof {
            assert(a@.take(i + 1) =~= a@.take(i as int).push(a@[i as int]));
            assert(b@.take(i + 1) =~= b@.take(i as int).push(b@[i as int]));
        }
        i = i + 1;
    }
    if i < b.len() {
        Position::Before
    } else if i < a.len() {
        Position::After
    } else {
        proof {
            assert(a@.take(i as int) =~= a@);
            assert(b@.take(i as int) =~= b@);
        }
        Position::Same
    }
}

/// One key with its value.
#[derive(Debug)]
pub struct Entry {
    /// The key.
    pub key: Vec<u8>,
    /// The value stored under the key.
    pub value: Vec<u8>,
}

/// Whether the keys of `entries` strictly ascend.
pub open spec fn ascending(entries: Seq<Entry>) -> bool {
    forall|i: int, j: int|
        0 <= i < j < entries.len() ==> precedes(#[trigger] entries[i].key@, #[trigger] entries[j].key@)
}

/// Whether some entry of `entries` has the key `key`.
pub open spec fn holds_key(entries: Seq<Entry>, key: Seq<u8>) -> bool {
    exists|i: int| 0 <= i < entries.len() && #[trigger] entries[i].key@ == key
}

/// The position of an entry of `entries` with the key `key`.
pub open spec fn position_of(entries: Seq<Entry>, key: Seq<u8>) -> int {
    choose|i: int| 0 <= i < entries.len() && #[trigger] entries[i].key@ == key
}

/// The map that `entries` stands for.
pub open spec fn as_map(entries: Seq<Entry>) -> Map<Seq<u8>, Seq<u8>> {
    Map::new(
        |key: Seq<u8>| holds_key(entries, key),
        |key: Seq<u8>| entries[position_of(entries, key)].value@,
    )
}

/// In ascending entries a key sits at one position only.
pub proof fn lemma_position_unique(entries: Seq<Entry>, i: int)
    requires
        ascending(entries),
        0 <= i < entries.len(),
    ensures
        holds_key(entries, entries[i].key@),
        position_of(entries, entries[i].key@) == i,
        as_map(entries).contains_key(entries[i].key@),
        as_map(entries)[entries[i].key@] == entries[i].value@,
{
    let key = entries[i].key@;
    let j = position_of(entries, key);
    if j < i {
        lemma_precedes_order(entries[j].key@, entries[i].key@);
    }
    if i < j {
        lemma_precedes_order(entries[i].key@, entries[j].key@);
    }
}

/// An ordered map from byte keys to byte values.
#[derive(Debug)]
pub struct Store {
    entries: Vec<Entry>,
}

impl View for Store {
    type V = Map<Seq<u8>, Seq<u8>>;

    closed spec fn view(&self) -> Map<Seq<u8>, Seq<u8>> {
        as_map(self.entries@)
    }
}

impl Store {
    /// The entries are kept in strictly ascending order of their keys.
    #[verifier::type_invariant]
    closed spec fn sorted(&self) -> bool {
        ascending(self.entries@)
    }

    /// A store without entries.
    pub fn new() -> (store: Self)
        ensures
            store@ == Map::<Seq<u8>, Seq<u8>>::empty(),
    {
        let store = Store { entries: Vec::new() };
        assert(store@ =~= Map::<Seq<u8>, Seq<u8>>::empty());
        store
    }

    /// The position of the first entry whose key does not come before `key`,
    /// and whether that entry has the key `key`.
    fn locate(&self, key: &[u8]) -> (found: (usize, bool))
        ensures
            found.0 <= self.entries@.len(),
            forall|j: int| 0 <= j < found.0 ==> precedes(#[trigger] self.entries@[j].key@, key@),
            found.1 ==> found.0 < self.entries@.len() && self.entries@[found.0 as int].key@
                == key@,
            !found.1 ==> (found.0 < self.entries@.len() ==> precedes(
                key@,
                self.entries@[found.0 as int].key@,
            )),
            found.1 == self@.contains_key(key@),
            found.1 ==> self@[key@] == self.entries@[found.0 as int].value@,
            ascending(self.entries@),
    {
        proof {
            use_type_invariant(self);
        }
        let mut i: usize = 0;
        while i < self.entries.len()
            invariant
                i <= self.entries@.len(),
                ascending(self.entries@),
                forall|j: int| 0 <= j < i ==> precedes(#[trigger] self.entries@[j].key@, key@),
            decreases self.entries@.len() - i,
        {
            match place(self.entries[i].key.as_slice(), key) {
                Position::Before => {
                    i = i + 1;
                },
                Position::Same => {
                    proof {
                        lemma_position_unique(self.entries@, i as int);
                    }
                    return (i, true);
                },
                Position::After => {
                    proof {
                        self.lemma_absent(key@, i as int);
                    }
                    return (i, false);
                },
            }
        }
        proof {
            self.lemma_absent(key@, i as int);
        }
        (i, false)
    }

    /// A key that falls between two neighbouring entries is not in the store.
    proof fn lemma_absent(&self, key: Seq<u8>, at: int)
        requires
            ascending(self.entries@),
            0 <= at <= self.entries@.len(),
            forall|j: int| 0 <= j < at ==> precedes(#[trigger] self.entries@[j].key@, key),
            at < self.entries@.len() ==> precedes(key, self.entries@[at].key@),
        ensures
            !self@.contains_key(key),
    {
        if holds_key(self.entries@, key) {
            let j = position_of(self.entries@, key);
            if j < at {
                lemma_precedes_order(self.entries@[j].key@, key);
            } else {
                if at < j {
                    lemma_precedes_transitive(key, self.entries@[at].key@, self.entries@[j].key@);
                }
                lemma_precedes_order(key, self.entries@[j].key@);
            }
        }
    }

    /// The value stored under `key`, if any.
    pub fn get(&self, key: &[u8]) -> (value: Option<Vec<u8>>)
        ensures
            value is Some <==> self@.contains_key(key@),
            value is Some ==> value->0@ == self@[key@],
    {
        let (at, found) = self.locate(key);
        if found {
            Some(copy_bytes(self.entries[at].value.as_slice()))
        } else {
            None
        }
    }

    /// Whether a value is stored under `key`.
    pub fn has(&self, key: &[u8]) -> (present: bool)
        ensures
            present == self@.contains_key(key@),
    {
        let (_, found) = self.locate(key);
        found
    }

    /// Stores `value` under `key`, replacing what was there.
    pub fn set(&mut self, key: &[u8], value: &[u8])
        ensures
            final(self)@ == old(self)@.insert(key@, value@),
    {
        let (at, found) = self.locate(key);
        let ghost before = self.entries@;
        let entry = Entry { key: copy_bytes(key), value: copy_bytes(value) };
        let mut entries: Vec<Entry> = Vec::new();
        core::mem::swap(&mut entries, &mut self.entries);
        if found {
            entries.set(at, entry);
            proof {
                let after = entries@;
                assert forall|i: int, j: int| 0 <= i < j < after.len() implies precedes(
                    #[trigger] after[i].key@,
                    #[trigger] after[j].key@,
                ) by {
                    assert(after[i].key@ == before[i].key@);
                    assert(after[j].key@ == before[j].key@);
                }
                lemma_maps_after_set(before, after, at as int, key@, value@);
            }
        } else {
            entries.insert(at, entry);
            proof {
                let after = entries@;
                assert forall|i: int, j: int| 0 <= i < j < after.len() implies precedes(
                    #[trigger] after[i].key@,
                    #[trigger] after[j].key@,
                ) by {
                    let bi = if i < at { i } else { i - 1 };
                    let bj = if j < at { j } else { j - 1 };
                    if i == at {
                        if at < bj {
                            lemma_precedes_transitive(key@, before[at as int].key@, before[bj].key@);
                        }
                    } else if j == at {
                        assert(precedes(before[bi].key@, key@));
                    } else {
                        assert(precedes(before[bi].key@, before[bj].key@));
                    }
                }
                lemma_maps_after_insert(before, after, at as int, key@, value@);
            }
        }
        core::mem::swap(&mut entries, &mut self.entries);
    }

    /// Removes what is stored under `key`, if anything.
    pub fn remove(&mut self, key: &[u8])
        ensures
            final(self)@ == old(self)@.remove(key@),
    {
        let (at, found) = self.locate(key);
        let ghost before = self.entries@;
        if found {
            let mut entries: Vec<Entry> = Vec::new();
            core::mem::swap(&mut entries, &mut self.entries);
            entries.remove(at);
            proof {
                let after = entries@;
                assert forall|i: int, j: int| 0 <= i < j < after.len() implies precedes(
                    #[trigger] after[i].key@,
                    #[trigger] after[j].key@,
                ) by {
                    let bi = if i < at { i } else { i + 1 };
                    let bj = if j < at { j } else { j + 1 };
                    assert(precedes(before[bi].key@, before[bj].key@));
                }
                lemma_maps_after_remove(before, after, at as int);
            }
            core::mem::swap(&mut entries, &mut self.entries);
        } else {
            assert(self@ =~= old(self)@.remove(key@));
        }
    }

    /// The number of entries.
    pub fn len(&self) -> (n: usize)
        ensures
            n == self@.dom().len(),
            self@.dom().finite(),
    {
        proof {
            use_type_invariant(self);
            lemma_domain_size(self.entries@);
        }
        self.entries.len()
    }

    /// Whether the store has no entry.
    pub fn is_empty(&self) -> (empty: bool)
        ensures
            empty == (self@ == Map::<Seq<u8>, Seq<u8>>::empty()),
    {
        proof {
            use_type_invariant(self);
            if self.entries@.len() > 0 {
                lemma_position_unique(self.entries@, 0);
            } else {
                assert(self@ =~= Map::<Seq<u8>, Seq<u8>>::empty());
            }
        }
        self.entries.len() == 0
    }

    /// The entries whose keys lie in the range from `start` (included, or the
    /// least key when absent) to `end` (excluded, or beyond the greatest key
    /// when absent), in ascending order of their keys.
    pub fn range(&self, start: Option<&[u8]>, end: Option<&[u8]>) -> (found: Vec<(Vec<u8>, Vec<u8>)>)
        ensures
            forall|i: int, j: int|
                0 <= i < j < found@.len() ==> precedes(
                    #[trigger] found@[i].0@,
                    #[trigger] found@[j].0@,
                ),
            forall|i: int|
                0 <= i < found@.len() ==> {
                    &&& in_range((#[trigger] found@[i]).0@, view_bound(start), view_bound(end))
                    &&& self@.contains_key(found@[i].0@)
                    &&& self@[found@[i].0@] == found@[i].1@
                },
            forall|key: Seq<u8>|
                self@.contains_key(key) && in_range(key, view_bound(start), view_bound(end))
                    ==> exists|i: int| 0 <= i < found@.len() && #[trigger] found@[i].0@ == key,
    {
        proof {
            use_type_invariant(self);
        }
        let mut found: Vec<(Vec<u8>, Vec<u8>)> = Vec::new();
        let ghost mut origin: Seq<int> = Seq::empty();
        let mut i: usize = 0;
        while i < self.entries.len()
            invariant
                i <= self.entries@.len(),
                ascending(self.entries@),
                origin.len() == found@.len(),
                forall|k: int|
                    0 <= k < found@.len() ==> 0 <= #[trigger] origin[k] < i && found@[k].0@
                        == self.entries@[origin[k]].key@ && found@[k].1@
                        == self.entries@[origin[k]].value@,
                forall|k: int, l: int|
                    0 <= k < l < found@.len() ==> #[trigger] origin[k] < #[trigger] origin[l],
                forall|k: int|
                    0 <= k < found@.len() ==> in_range(
                        #[trigger] found@[k].0@,
                        view_bound(start),
                        view_bound(end),
                    ),
                forall|j: int|
                    0 <= j < i && in_range(
                        #[trigger] self.entries@[j].key@,
                        view_bound(start),
                        view_bound(end),
                    ) ==> exists|k: int| 0 <= k < found@.len() && origin[k] == j,
            decreases self.entries@.len() - i,
        {
            let key = self.entries[i].key.as_slice();
            let from_start = match start {
                None => true,
                Some(s) => match place(key, s) {
                    Position::Before => false,
                    _ => true,
                },
            };
            let before_end = match end {
                None => true,
                Some(e) => match place(key, e) {
                    Position::Before => true,
                    _ => false,
                },
            };
            proof {
                if let Some(s) = start {
                    lemma_precedes_order(key@, s@);
                }
            }
            if from_start && before_end {
                let ghost old_found = found@;
                let ghost old_origin = origin;
                found.push((copy_bytes(key), copy_bytes(self.entries[i].value.as_slice())));
                proof {
                    origin = origin.push(i as int);
                    assert forall|j: int|
                        0 <= j < i + 1 && in_range(
                            #[trigger] self.entries@[j].key@,
                            view_bound(start),
                            view_bound(end),
                        ) implies exists|k: int| 0 <= k < found@.len() && origin[k] == j by {
                        if j < i {
                            let k = choose|k: int| 0 <= k < old_found.len() && old_origin[k] == j;
                            assert(origin[k] == j);
                        } else {
                            assert(origin[found@.len() - 1] == j);
                        }
                    }
                }
            }
            i = i + 1;
        }
        proof {
            assert forall|k: int, l: int| 0 <= k < l < found@.len() implies precedes(
                #[trigger] found@[k].0@,
                #[trigger] found@[l].0@,
            ) by {
                assert(origin[k] < origin[l]);
            }
            assert forall|k: int| 0 <= k < found@.len() implies {
                &&& in_range((#[trigger] found@[k]).0@, view_bound(start), view_bound(end))
                &&& self@.contains_key(found@[k].0@)
                &&& self@[found@[k].0@] == found@[k].1@
            } by {
                lemma_position_unique(self.entries@, origin[k]);
            }
            assert forall|key: Seq<u8>|
                self@.contains_key(key) && in_range(
                    key,
                    view_bound(start),
                    view_bound(end),
                ) implies exists|k: int| 0 <= k < found@.len() && #[trigger] found@[k].0@ == key by {
                let j = position_of(self.entries@, key);
                assert(in_range(self.entries@[j].key@, view_bound(start), view_bound(end)));
                let k = choose|k: int| 0 <= k < found@.len() && origin[k] == j;
                assert(found@[k].0@ == key);
            }
        }
        found
    }

    /// The value stored under `key`, or an error that names the key.
    pub fn load(&self, key: &[u8]) -> (r: Result<Vec<u8>, ContractError>)
        ensures
            self@.contains_key(key@) ==> r is Ok && r->Ok_0@ == self@[key@],
            !self@.contains_key(key@) ==> r is Err && r->Err_0@ == (ErrorView::NotFound {
                kind: "bytes"@,
                key: key@,
            }),
    {
        match self.get(key) {
            Some(value) => Ok(value),
            None => Err(ContractError::not_found("bytes", copy_bytes(key))),
        }
    }
}

impl Clone for Store {
    fn clone(&self) -> (copy: Self)
        ensures
            copy@ == self@,
    {
        proof {
            use_type_invariant(self);
        }
        let mut entries: Vec<Entry> = Vec::with_capacity(self.entries.len());
        let mut i: usize = 0;
        while i < self.entries.len()
            invariant
                i <= self.entries@.len(),
                entries@.len() == i,
                forall|j: int|
                    0 <= j < i ==> (#[trigger] entries@[j]).key@ == self.entries@[j].key@
                        && entries@[j].value@ == self.entries@[j].value@,
            decreases self.entries@.len() - i,
        {
            entries.push(
                Entry {
                    key: copy_bytes(self.entries[i].key.as_slice()),
                    value: copy_bytes(self.entries[i].value.as_slice()),
                },
            );
            i = i + 1;
        }
        proof {
            lemma_same_entries_same_map(self.entries@, entries@);
        }
        Store { entries }
    }
}

/// The bound of a range, as a sequence of bytes.
pub open spec fn view_bound(bound: Option<&[u8]>) -> Option<Seq<u8>> {
    match bound {
        Some(b) => Some(b@),
        None => None,
    }
}

/// Whether `key` lies at or after `start` and before `end`, where an absent
/// bound does not bind.
pub open spec fn in_range(key: Seq<u8>, start: Option<Seq<u8>>, end: Option<Seq<u8>>) -> bool {
    &&& match start {
        Some(s) => !precedes(key, s),
        None => true,
    }
    &&& match end {
        Some(e) => precedes(key, e),
        None => true,
    }
}

/// Two lists with the same keys and values in the same order stand for the
/// same map, and ascend together.
proof fn lemma_same_entries_same_map(a: Seq<Entry>, b: Seq<Entry>)
    requires
        ascending(a),
        a.len() == b.len(),
        forall|j: int|
            0 <= j < a.len() ==> (#[trigger] b[j]).key@ == a[j].key@ && b[j].value@ == a[j].value@,
    ensures
        ascending(b),
        as_map(a) == as_map(b),
{
    assert forall|i: int, j: int| 0 <= i < j < b.len() implies precedes(
        #[trigger] b[i].key@,
        #[trigger] b[j].key@,
    ) by {
        assert(precedes(a[i].key@, a[j].key@));
    }
    assert forall|key: Seq<u8>| holds_key(a, key) == holds_key(b, key) by {
        if holds_key(a, key) {
            let i = position_of(a, key);
            assert(b[i].key@ == key);
        }
        if holds_key(b, key) {
            let i = position_of(b, key);
            assert(a[i].key@ == key);
        }
    }
    assert forall|key: Seq<u8>| holds_key(a, key) implies as_map(a)[key] == as_map(b)[key] by {
        let i = position_of(a, key);
        lemma_position_unique(a, i);
        assert(b[i].key@ == key);
        lemma_position_unique(b, i);
    }
    assert(as_map(a) =~= as_map(b));
}

/// Replacing the value of the entry at `at` updates the map at its key.
proof fn lemma_maps_after_set(
    before: Seq<Entry>,
    after: Seq<Entry>,
    at: int,
    key: Seq<u8>,
    value: Seq<u8>,
)
    requires
        ascending(before),
        ascending(after),
        0 <= at < before.len(),
        before[at].key@ == key,
        after.len() == before.len(),
        after[at].key@ == key,
        after[at].value@ == value,
        forall|i: int| 0 <= i < before.len() && i != at ==> #[trigger] after[i] == before[i],
    ensures
        as_map(after) == as_map(before).insert(key, value),
{
    let target = as_map(before).insert(key, value);
    assert forall|k: Seq<u8>| as_map(after).contains_key(k) == target.contains_key(k) by {
        if holds_key(after, k) {
            let i = position_of(after, k);
            if i != at {
                assert(before[i].key@ == k);
            }
        }
        if holds_key(before, k) {
            let i = position_of(before, k);
            assert(after[i].key@ == k);
        }
        if k == key {
            assert(after[at].key@ == k);
        }
    }
    assert forall|k: Seq<u8>| as_map(after).contains_key(k) implies as_map(after)[k]
        == target[k] by {
        let i = position_of(after, k);
        lemma_position_unique(after, i);
        if i != at {
            assert(before[i].key@ == k);
            lemma_position_unique(before, i);
            lemma_position_unique(before, at);
        }
    }
    assert(as_map(after) =~= target);
}

/// Inserting an entry at `at` inserts its key and value into the map.
proof fn lemma_maps_after_insert(
    before: Seq<Entry>,
    after: Seq<Entry>,
    at: int,
    key: Seq<u8>,
    value: Seq<u8>,
)
    requires
        ascending(before),
        ascending(after),
        0 <= at <= before.len(),
        after.len() == before.len() + 1,
        after[at].key@ == key,
        after[at].value@ == value,
        forall|i: int| 0 <= i < at ==> #[trigger] after[i] == before[i],
        forall|i: int| at <= i < before.len() ==> #[trigger] after[i + 1] == before[i],
    ensures
        as_map(after) == as_map(before).insert(key, value),
{
    let target = as_map(before).insert(key, value);
    assert forall|k: Seq<u8>| as_map(after).contains_key(k) == target.contains_key(k) by {
        if holds_key(after, k) {
            let i = position_of(after, k);
            if i < at {
                assert(before[i].key@ == k);
            } else if i > at {
                assert(after[(i - 1) + 1] == before[i - 1]);
                assert(before[i - 1].key@ == k);
            }
        }
        if holds_key(before, k) {
            let i = position_of(before, k);
            if i < at {
                assert(after[i].key@ == k);
            } else {
                assert(after[i + 1].key@ == k);
            }
        }
        if k == key {
            assert(after[at].key@ == k);
        }
    }
    assert forall|k: Seq<u8>| as_map(after).contains_key(k) implies as_map(after)[k]
        == target[k] by {
        let i = position_of(after, k);
        lemma_position_unique(after, i);
        lemma_position_unique(after, at);
        if i < at {
            assert(before[i].key@ == k);
            lemma_position_unique(before, i);
        } else if i > at {
            assert(after[(i - 1) + 1] == before[i - 1]);
            lemma_position_unique(before, i - 1);
        }
    }
    assert(as_map(after) =~= target);
}

/// Removing the entry at `at` removes its key from the map.
proof fn lemma_maps_after_remove(before: Seq<Entry>, after: Seq<Entry>, at: int)
    requires
        ascending(before),
        ascending(after),
        0 <= at < before.len(),
        after.len() == before.len() - 1,
        forall|i: int| 0 <= i < at ==> #[trigger] after[i] == before[i],
        forall|i: int| at <= i < after.len() ==> #[trigger] after[i] == before[i + 1],
    ensures
        as_map(after) == as_map(before).remove(before[at].key@),
{
    let key = before[at].key@;
    let target = as_map(before).remove(key);
    lemma_position_unique(before, at);
    assert forall|k: Seq<u8>| as_map(after).contains_key(k) == target.contains_key(k) by {
        if holds_key(after, k) {
            let i = position_of(after, k);
            if i < at {
                assert(before[i].key@ == k);
                lemma_position_unique(before, i);
            } else {
                assert(before[i + 1].key@ == k);
                lemma_position_unique(before, i + 1);
            }
        }
        if holds_key(before, k) && k != key {
            let i = position_of(before, k);
            if i < at {
                assert(after[i].key@ == k);
            } else {
                assert(after[i - 1] == before[(i - 1) + 1]);
                assert(after[i - 1].key@ == k);
            }
        }
    }
    assert forall|k: Seq<u8>| as_map(after).contains_key(k) implies as_map(after)[k]
        == target[k] by {
        let i = position_of(after, k);
        lemma_position_unique(after, i);
        if i < at {
            lemma_position_unique(before, i);
        } else {
            lemma_position_unique(before, i + 1);
        }
    }
    assert(as_map(after) =~= target);
}

/// The map of ascending entries has as many keys as there are entries.
proof fn lemma_domain_size(entries: Seq<Entry>)
    requires
        ascending(entries),
    ensures
        as_map(entries).dom().finite(),
        as_map(entries).dom().len() == entries.len(),
    decreases entries.len(),
{
    if entries.len() == 0 {
        assert(as_map(entries).dom() =~= Set::<Seq<u8>>::empty());
    } else {
        let init = entries.drop_last();
        let last = entries.last();
        assert forall|i: int, j: int| 0 <= i < j < init.len() implies precedes(
            #[trigger] init[i].key@,
            #[trigger] init[j].key@,
        ) by {
            assert(precedes(entries[i].key@, entries[j].key@));
        }
        lemma_domain_size(init);
        assert(!holds_key(init, last.key@)) by {
            if holds_key(init, last.key@) {
                let i = position_of(init, last.key@);
                assert(precedes(entries[i].key@, entries[entries.len() - 1].key@));
                lemma_precedes_order(entries[i].key@, last.key@);
            }
        }
        assert forall|k: Seq<u8>| as_map(entries).dom().contains(k) == as_map(init).dom().insert(
            last.key@,
        ).contains(k) by {
            if holds_key(entries, k) {
                let i = position_of(entries, k);
                if i < init.len() {
                    assert(init[i].key@ == k);
                }
            }
            if holds_key(init, k) {
                let i = position_of(init, k);
                assert(entries[i].key@ == k);
            }
            if k == last.key@ {
                assert(entries[entries.len() - 1].key@ == k);
            }
        }
        assert(as_map(entries).dom() =~= as_map(init).dom().insert(last.key@));
    }
}

/// One place in a store: a key, with the operations on the value under it.
#[derive(Debug)]
pub struct PureItem {
    storage_key: Vec<u8>,
}

impl View for PureItem {
    type V = Seq<u8>;

    closed spec fn view(&self) -> Seq<u8> {
        self.storage_key@
    }
}

impl PureItem {
    /// The place whose key is `storage_key` in UTF-8.
    pub fn new(storage_key: &str) -> (item: Self)
        ensures
            item@ == vstd::utf8::encode_utf8(storage_key@),
    {
        PureItem { storage_key: crate::encoding::text_bytes(storage_key) }
    }

    /// The place whose key is `storage_key` in UTF-8.
    pub fn new_dyn(storage_key: String) -> (item: Self)
        ensures
            item@ == vstd::utf8::encode_utf8(storage_key@),
    {
        PureItem::new(storage_key.as_str())
    }

    /// The key of the place.
    pub fn as_slice(&self) -> (key: &[u8])
        ensures
            key@ == self@,
    {
        self.storage_key.as_slice()
    }

    /// Stores `data` at the place.
    pub fn save(&self, store: &mut Store, data: &[u8])
        ensures
            final(store)@ == old(store)@.insert(self@, data@),
    {
        store.set(self.storage_key.as_slice(), data);
    }

    /// Empties the place.
    pub fn remove(&self, store: &mut Store)
        ensures
            final(store)@ == old(store)@.remove(self@),
    {
        store.remove(self.storage_key.as_slice());
    }

    /// What is stored at the place, or an error that names its key.
    pub fn load(&self, store: &Store) -> (r: Result<Vec<u8>, ContractError>)
        ensures
            store@.contains_key(self@) ==> r is Ok && r->Ok_0@ == store@[self@],
            !store@.contains_key(self@) ==> r is Err && r->Err_0@ == (ErrorView::NotFound {
                kind: "bytes"@,
                key: self@,
            }),
    {
        store.load(self.storage_key.as_slice())
    }

    /// What is stored at the place, if anything.
    pub fn may_load(&self, store: &Store) -> (value: Option<Vec<u8>>)
        ensures
            value is Some <==> store@.contains_key(self@),
            value is Some ==> value->0@ == store@[self@],
    {
        store.get(self.storage_key.as_slice())
    }

    /// Whether anything is stored at the place.
    pub fn has(&self, store: &Store) -> (present: bool)
        ensures
            present == store@.contains_key(self@),
    {
        store.has(self.storage_key.as_slice())
    }

    /// The key of the place as a string, if it is valid UTF-8.
    pub fn try_into_string(self) -> (r: Result<String, ContractError>)
        ensures
            r is Ok <==> vstd::utf8::valid_utf8(self@),
            r matches Ok(text) ==> text@ == vstd::utf8::decode_utf8(self@),
            r matches Err(e) ==> e@ == ErrorView::FromUTF8Error,
    {
        match string_from_utf8(self.storage_key) {
            Some(text) => Ok(text),
            None => Err(ContractError::FromUTF8Error),
        }
    }
}

/// Reads `bytes` as UTF-8 with `String::from_utf8` of the standard library.
///
/// Trusted: the bytes are a string exactly when they are valid UTF-8, and
/// the string is the one that they encode.
#[verifier::external_body]
fn string_from_utf8(bytes: Vec<u8>) -> (text: Option<String>)
    ensures
        text is Some <==> vstd::utf8::valid_utf8(bytes@),
        text matches Some(t) ==> t@ == vstd::utf8::decode_utf8(bytes@),
{
    String::from_utf8(bytes).ok()
}

} // verus!
