//! A directory: a finite map from names to values.
//!
//! The router keeps its applications in one, by port; the registry keeps its
//! clients in one, by client identifier. A directory holds each name once;
//! its meaning is the map from each name to its value.

use crate::encoding::same_text;
use vstd::prelude::*;

verus! {

/// One name with its value.
pub struct Listing<V> {
    /// The name.
    pub name: String,
    /// The value listed under the name.
    pub value: V,
}

/// Whether no name occurs twice in `listings`.
pub open spec fn distinct_names<V>(listings: Seq<Listing<V>>) -> bool {
    forall|i: int, j: int|
        0 <= i < j < listings.len() ==> (#[trigger] listings[i]).name@ != (
        #[trigger] listings[j]).name@
}

/// Whether `listings` lists the name `name`.
pub open spec fn lists<V>(listings: Seq<Listing<V>>, name: Seq<char>) -> bool {
    exists|i: int| 0 <= i < listings.len() && (#[trigger] listings[i]).name@ == name
}

/// The position at which `listings` lists the name `name`.
pub open spec fn listed_at<V>(listings: Seq<Listing<V>>, name: Seq<char>) -> int {
    choose|i: int| 0 <= i < listings.len() && (#[trigger] listings[i]).name@ == name
}

/// The map that `listings` stands for.
pub open spec fn listed<V>(listings: Seq<Listing<V>>) -> Map<Seq<char>, V> {
    Map::new(
        |name: Seq<char>| lists(listings, name),
        |name: Seq<char>| listings[listed_at(listings, name)].value,
    )
}

/// Where names are distinct, a name is listed at one position only.
pub proof fn lemma_listed_once<V>(listings: Seq<Listing<V>>, i: int)
    requires
        distinct_names(listings),
        0 <= i < listings.len(),
    ensures
        lists(listings, listings[i].name@),
        listed_at(listings, listings[i].name@) == i,
        listed(listings).contains_key(listings[i].name@),
        listed(listings)[listings[i].name@] == listings[i].value,
{
    let j = listed_at(listings, listings[i].name@);
    if j < i {
        assert(listings[j].name@ != listings[i].name@);
    }
    if i < j {
        assert(listings[i].name@ != listings[j].name@);
    }
}

/// A finite map from names to values of type `V`.
pub struct Directory<V> {
    listings: Vec<Listing<V>>,
}

impl<V> View for Directory<V> {
    type V = Map<Seq<char>, V>;

    closed spec fn view(&self) -> Map<Seq<char>, V> {
        listed(self.listings@)
    }
}

impl<V> Directory<V> {
    /// No name is listed twice.
    #[verifier::type_invariant]
    closed spec fn distinct(&self) -> bool {
        distinct_names(self.listings@)
    }

    /// A directory that lists nothing.
    pub fn new() -> (directory: Self)
        ensures
            directory@ == Map::<Seq<char>, V>::empty(),
    {
        let directory = Directory { listings: Vec::new() };
        assert(directory@ =~= Map::<Seq<char>, V>::empty());
        directory
    }

    /// The position at which `name` is listed, if it is.
    fn find(&self, name: &str) -> (at: Option<usize>)
        ensures
            at is Some <==> self@.contains_key(name@),
            at is Some ==> at->0 < self.listings@.len() && self.listings@[at->0 as int].name@
                == name@ && self@[name@] == self.listings@[at->0 as int].value,
            distinct_names(self.listings@),
    {
        proof {
            use_type_invariant(self);
        }
        let mut i: usize = 0;
        while i < self.listings.len()
            invariant
                i <= self.listings@.len(),
                distinct_names(self.listings@),
                forall|j: int| 0 <= j < i ==> (#[trigger] self.listings@[j]).name@ != name@,
            decreases self.listings@.len() - i,
        {
            if same_text(self.listings[i].name.as_str(), name) {
                proof {
                    lemma_listed_once(self.listings@, i as int);
                }
                return Some(i);
            }
            i = i + 1;
        }
        None
    }

    /// The value listed under `name`, if any.
    pub fn get(&self, name: &str) -> (value: Option<&V>)
        ensures
            value is Some <==> self@.contains_key(name@),
            value is Some ==> *value->0 == self@[name@],
    {
        match self.find(name) {
            Some(at) => Some(&self.listings[at].value),
            None => None,
        }
    }

    /// Whether `name` is listed.
    pub fn contains(&self, name: &str) -> (present: bool)
        ensures
            present == self@.contains_key(name@),
    {
        self.find(name).is_some()
    }

    /// Lists `value` under `name`, in place of what was listed there.
    pub fn insert(&mut self, name: String, value: V)
        ensures
            final(self)@ == old(self)@.insert(name@, value),
    {
        let found = self.find(name.as_str());
        let ghost before = self.listings@;
        let mut listings: Vec<Listing<V>> = Vec::new();
        core::mem::swap(&mut listings, &mut self.listings);
        let ghost target = listed(before).insert(name@, value);
        match found {
            Some(at) => {
                listings.set(at, Listing { name, value });
                proof {
                    let after = listings@;
                    assert forall|i: int, j: int| 0 <= i < j < after.len() implies (
                    #[trigger] after[i]).name@ != (#[trigger] after[j]).name@ by {
                        assert(after[i].name@ == before[i].name@);
                        assert(after[j].name@ == before[j].name@);
                    }
                    assert forall|k: Seq<char>| lists(after, k) == target.contains_key(k) by {
                        if lists(after, k) {
                            let i = listed_at(after, k);
                            assert(before[i].name@ == k);
                        }
                        if lists(before, k) {
                            let i = listed_at(before, k);
                            assert(after[i].name@ == k);
                        }
                        if k == name@ {
                            assert(after[at as int].name@ == k);
                        }
                    }
                    assert forall|k: Seq<char>| lists(after, k) implies listed(after)[k]
                        == target[k] by {
                        let i = listed_at(after, k);
                        lemma_listed_once(after, i);
                        if i != at {
                            lemma_listed_once(before, i);
                        }
                    }
                    assert(listed(after) =~= target);
                }
            },
            None => {
                listings.push(Listing { name, value });
                proof {
                    let after = listings@;
                    assert forall|i: int, j: int| 0 <= i < j < after.len() implies (
                    #[trigger] after[i]).name@ != (#[trigger] after[j]).name@ by {
                        if j < before.len() {
                            assert(before[i].name@ != before[j].name@);
                        } else {
                            assert(before[i].name@ == after[i].name@);
                            if before[i].name@ == name@ {
                                assert(lists(before, name@));
                            }
                        }
                    }
                    assert forall|k: Seq<char>| lists(after, k) == target.contains_key(k) by {
                        if lists(after, k) {
                            let i = listed_at(after, k);
                            if i < before.len() {
                                assert(before[i].name@ == k);
                            }
                        }
                        if lists(before, k) {
                            let i = listed_at(before, k);
                            assert(after[i].name@ == k);
                        }
                        if k == name@ {
                            assert(after[after.len() - 1].name@ == k);
                        }
                    }
                    assert forall|k: Seq<char>| lists(after, k) implies listed(after)[k]
                        == target[k] by {
                        let i = listed_at(after, k);
                        lemma_listed_once(after, i);
                        if i < before.len() {
                            assert(before[i].name@ == k);
                            lemma_listed_once(before, i);
                        }
                    }
                    assert(listed(after) =~= target);
                }
            },
        }
        core::mem::swap(&mut listings, &mut self.listings);
    }

    /// The number of names listed. The positions below it enumerate the
    /// directory.
    pub fn len(&self) -> (n: usize)
        ensures
            n == self.count(),
            self.enumerated(),
    {
        proof {
            use_type_invariant(self);
            assert forall|at: int| 0 <= at < self.count() implies self@.contains_key(
                #[trigger] self.name_at(at),
            ) by {
                lemma_listed_once(self.listings@, at);
            }
            assert forall|name: Seq<char>| #[trigger] self@.contains_key(name) implies exists|
                at: int,
            | 0 <= at < self.count() && #[trigger] self.name_at(at) == name by {
                let at = listed_at(self.listings@, name);
                assert(self.name_at(at) == name);
            }
        }
        self.listings.len()
    }

    /// The number of names listed.
    pub closed spec fn count(&self) -> nat {
        self.listings@.len()
    }

    /// The name at position `at` in the order of listing.
    pub closed spec fn name_at(&self, at: int) -> Seq<char> {
        self.listings@[at].name@
    }

    /// Whether the positions below the count enumerate the directory: each
    /// holds a listed name, no two hold the same, and every listed name is
    /// held by one.
    pub open spec fn enumerated(&self) -> bool {
        &&& forall|at: int|
            0 <= at < self.count() ==> self@.contains_key(#[trigger] self.name_at(at))
        &&& forall|a: int, b: int|
            0 <= a < b < self.count() ==> #[trigger] self.name_at(a) != #[trigger] self.name_at(b)
        &&& forall|name: Seq<char>| #[trigger]
            self@.contains_key(name) ==> exists|at: int|
                0 <= at < self.count() && #[trigger] self.name_at(at) == name
    }

    /// The value at position `at` in the order of listing, with its name.
    pub fn entry(&self, at: usize) -> (found: (&str, &V))
        requires
            at < self.count(),
        ensures
            found.0@ == self.name_at(at as int),
            self@.contains_key(found.0@),
            self@[found.0@] == *found.1,
    {
        proof {
            use_type_invariant(self);
            lemma_listed_once(self.listings@, at as int);
        }
        (self.listings[at].name.as_str(), &self.listings[at].value)
    }
}

} // verus!
