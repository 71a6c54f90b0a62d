//! The escrow of the token-transfer application: for each channel and each
//! token, the amount that the application holds for packets in transit.

use crate::encoding::same_text;
use crate::store::{lemma_precedes_order, lemma_precedes_transitive, place, precedes, Position};
use vstd::prelude::*;
use vstd::string::StringSliceAdditionalSpecFns;
use vstd::utf8::{encode_utf8, encode_utf8_decode_utf8};

verus! {

/// The amount held for one token on one channel.
#[derive(Debug, Clone, PartialEq, Eq)]
pub struct Account {
    /// The channel over which the tokens left.
    pub channel: String,
    /// The token.
    pub denom: String,
    /// The amount held.
    pub amount: u128,
}

/// A channel and a token, as sequences of characters.
pub type AccountKey = (Seq<char>, Seq<char>);

/// Whether no channel and token occur twice in `accounts`.
pub open spec fn distinct_accounts(accounts: Seq<Account>) -> bool {
    forall|i: int, j: int|
        0 <= i < j < accounts.len() ==> key_of(#[trigger] accounts[i]) != key_of(
            #[trigger] accounts[j],
        )
}

/// The channel and the token of an account.
pub open spec fn key_of(account: Account) -> AccountKey {
    (account.channel@, account.denom@)
}

/// Whether `accounts` holds an account for `key`.
pub open spec fn holds(accounts: Seq<Account>, key: AccountKey) -> bool {
    exists|i: int| 0 <= i < accounts.len() && key_of(#[trigger] accounts[i]) == key
}

/// The position of the account for `key` in `accounts`.
pub open spec fn held_at(accounts: Seq<Account>, key: AccountKey) -> int {
    choose|i: int| 0 <= i < accounts.len() && key_of(#[trigger] accounts[i]) == key
}

/// The amounts that `accounts` stands for.
pub open spec fn balances(accounts: Seq<Account>) -> Map<AccountKey, u128> {
    Map::new(
        |key: AccountKey| holds(accounts, key),
        |key: AccountKey| accounts[held_at(accounts, key)].amount,
    )
}

/// Where accounts are distinct, an account sits at one position only.
pub proof fn lemma_held_once(accounts: Seq<Account>, i: int)
    requires
        distinct_accounts(accounts),
        0 <= i < accounts.len(),
    ensures
        holds(accounts, key_of(accounts[i])),
        held_at(accounts, key_of(accounts[i])) == i,
        balances(accounts).contains_key(key_of(accounts[i])),
        balances(accounts)[key_of(accounts[i])] == accounts[i].amount,
{
    let j = held_at(accounts, key_of(accounts[i]));
    if j < i {
        assert(key_of(accounts[j]) != key_of(accounts[i]));
    }
    if i < j {
        assert(key_of(accounts[i]) != key_of(accounts[j]));
    }
}

/// The characters of a text that may be absent.
pub open spec fn text_view(text: Option<&str>) -> Option<Seq<char>> {
    match text {
        Some(t) => Some(t@),
        None => None,
    }
}

/// Whether the token `denom` comes after `start` in the order of tokens. An
/// absent start comes before every token.
pub open spec fn beyond(start: Option<Seq<char>>, denom: Seq<char>) -> bool {
    match start {
        Some(s) => precedes(encode_utf8(s), encode_utf8(denom)),
        None => true,
    }
}

/// Whether `account` is on `channel` and its token comes after `bound`.
pub open spec fn candidate(account: Account, channel: Seq<char>, bound: Option<Seq<char>>) -> bool {
    account.channel@ == channel && beyond(bound, account.denom@)
}

/// Whether `found` holds an account for the token `denom`.
pub open spec fn lists_denom(found: Seq<Account>, denom: Seq<char>) -> bool {
    exists|i: int| 0 <= i < found.len() && (#[trigger] found[i]).denom@ == denom
}

/// Whether the token `denom` comes after the token of every account in
/// `found`.
pub open spec fn follows_all(found: Seq<Account>, denom: Seq<char>) -> bool {
    forall|i: int|
        0 <= i < found.len() ==> precedes(
            encode_utf8((#[trigger] found[i]).denom@),
            encode_utf8(denom),
        )
}

/// A token that comes after a bound comes after every start that the bound
/// comes after or is.
proof fn lemma_beyond_transitive(
    start: Option<Seq<char>>,
    bound: Option<Seq<char>>,
    denom: Seq<char>,
)
    requires
        beyond(bound, denom),
        start == bound || (bound is Some && beyond(start, bound->0)),
    ensures
        beyond(start, denom),
{
    if start is Some && start != bound {
        lemma_precedes_transitive(
            encode_utf8(start->0),
            encode_utf8(bound->0),
            encode_utf8(denom),
        );
    }
}

/// The escrow of the application.
#[derive(Debug)]
pub struct Escrow {
    accounts: Vec<Account>,
}

impl View for Escrow {
    type V = Map<AccountKey, u128>;

    closed spec fn view(&self) -> Map<AccountKey, u128> {
        balances(self.accounts@)
    }
}

impl Escrow {
    /// No channel and token has two accounts.
    #[verifier::type_invariant]
    closed spec fn distinct(&self) -> bool {
        distinct_accounts(self.accounts@)
    }

    /// An escrow that holds nothing.
    pub fn new() -> (escrow: Self)
        ensures
            escrow@ == Map::<AccountKey, u128>::empty(),
    {
        let escrow = Escrow { accounts: Vec::new() };
        assert(escrow@ =~= Map::<AccountKey, u128>::empty());
        escrow
    }

    /// The position of the account for `channel` and `denom`, if there is one.
    fn find(&self, channel: &str, denom: &str) -> (at: Option<usize>)
        ensures
            at is Some <==> self@.contains_key((channel@, denom@)),
            at is Some ==> at->0 < self.accounts@.len() && key_of(self.accounts@[at->0 as int]) == (
                channel@,
                denom@,
            ) && self@[(channel@, denom@)] == self.accounts@[at->0 as int].amount,
            distinct_accounts(self.accounts@),
    {
        proof {
            use_type_invariant(self);
        }
        let mut i: usize = 0;
        while i < self.accounts.len()
            invariant
                i <= self.accounts@.len(),
                distinct_accounts(self.accounts@),
                forall|j: int| 0 <= j < i ==> key_of(#[trigger] self.accounts@[j]) != (
                    channel@,
                    denom@,
                ),
            decreases self.accounts@.len() - i,
        {
            if same_text(self.accounts[i].channel.as_str(), channel) && same_text(
                self.accounts[i].denom.as_str(),
                denom,
            ) {
                proof {
                    lemma_held_once(self.accounts@, i as int);
                }
                return Some(i);
            }
            i = i + 1;
        }
        None
    }

    /// The amount held for `denom` on `channel`, if an account exists.
    pub fn get(&self, channel: &str, denom: &str) -> (amount: Option<u128>)
        ensures
            amount is Some <==> self@.contains_key((channel@, denom@)),
            amount is Some ==> amount->0 == self@[(channel@, denom@)],
    {
        match self.find(channel, denom) {
            Some(at) => Some(self.accounts[at].amount),
            None => None,
        }
    }

    /// Sets the amount held for `denom` on `channel`.
    pub fn set(&mut self, channel: &str, denom: &str, amount: u128)
        ensures
            final(self)@ == old(self)@.insert((channel@, denom@), amount),
    {
        let found = self.find(channel, denom);
        let ghost before = self.accounts@;
        let ghost key = (channel@, denom@);
        let ghost target = balances(before).insert(key, amount);
        let mut accounts: Vec<Account> = Vec::new();
        core::mem::swap(&mut accounts, &mut self.accounts);
        let account = Account { channel: channel.to_owned(), denom: denom.to_owned(), amount };
        match found {
            Some(at) => {
                accounts.set(at, account);
                proof {
                    let after = accounts@;
                    assert forall|i: int, j: int| 0 <= i < j < after.len() implies key_of(
                        #[trigger] after[i],
                    ) != key_of(#[trigger] after[j]) by {
                        assert(key_of(after[i]) == key_of(before[i]));
                        assert(key_of(after[j]) == key_of(before[j]));
                    }
                    assert forall|k: AccountKey| holds(after, k) == target.contains_key(k) by {
                        if holds(after, k) {
                            let i = held_at(after, k);
                            assert(key_of(before[i]) == k);
                        }
                        if holds(before, k) {
                            let i = held_at(before, k);
                            assert(key_of(after[i]) == k);
                        }
                        if k == key {
                            assert(key_of(after[at as int]) == k);
                        }
                    }
                    assert forall|k: AccountKey| holds(after, k) implies balances(after)[k]
                        == target[k] by {
                        let i = held_at(after, k);
                        lemma_held_once(after, i);
                        if i != at {
                            lemma_held_once(before, i);
                        }
                    }
                    assert(balances(after) =~= target);
                }
            },
            None => {
                accounts.push(account);
                proof {
                    let after = accounts@;
                    assert forall|i: int, j: int| 0 <= i < j < after.len() implies key_of(
                        #[trigger] after[i],
                    ) != key_of(#[trigger] after[j]) by {
                        if j < before.len() {
                            assert(key_of(before[i]) != key_of(before[j]));
                        } else {
                            assert(key_of(before[i]) == key_of(after[i]));
                            if key_of(before[i]) == key {
                                assert(holds(before, key));
                            }
                        }
                    }
                    assert forall|k: AccountKey| holds(after, k) == target.contains_key(k) by {
                        if holds(after, k) {
                            let i = held_at(after, k);
                            if i < before.len() {
                                assert(key_of(before[i]) == k);
                            }
                        }
                        if holds(before, k) {
                            let i = held_at(before, k);
                            assert(key_of(after[i]) == k);
                        }
                        if k == key {
                            assert(key_of(after[after.len() - 1]) == k);
                        }
                    }
                    assert forall|k: AccountKey| holds(after, k) implies balances(after)[k]
                        == target[k] by {
                        let i = held_at(after, k);
                        lemma_held_once(after, i);
                        if i < before.len() {
                            assert(key_of(before[i]) == k);
                            lemma_held_once(before, i);
                        }
                    }
                    assert(balances(after) =~= target);
                }
            },
        }
        core::mem::swap(&mut accounts, &mut self.accounts);
    }

    /// The number of accounts. The positions below it enumerate the escrow.
    pub fn len(&self) -> (n: usize)
        ensures
            n == self.count(),
            self.enumerated(),
    {
        proof {
            use_type_invariant(self);
            assert forall|at: int| 0 <= at < self.count() implies self@.contains_key(
                #[trigger] self.key_at(at),
            ) by {
                lemma_held_once(self.accounts@, at);
            }
            assert forall|key: AccountKey| #[trigger] self@.contains_key(key) implies exists|
                at: int,
            | 0 <= at < self.count() && #[trigger] self.key_at(at) == key by {
                let at = held_at(self.accounts@, key);
                assert(self.key_at(at) == key);
            }
        }
        self.accounts.len()
    }

    /// The number of accounts.
    pub closed spec fn count(&self) -> nat {
        self.accounts@.len()
    }

    /// The channel and token of the account at position `at`.
    pub closed spec fn key_at(&self, at: int) -> AccountKey {
        key_of(self.accounts@[at])
    }

    /// Whether the positions below the count enumerate the escrow: each
    /// holds an account, no two hold the same, and every account is held by
    /// one.
    pub open spec fn enumerated(&self) -> bool {
        &&& forall|at: int|
            0 <= at < self.count() ==> self@.contains_key(#[trigger] self.key_at(at))
        &&& forall|a: int, b: int|
            0 <= a < b < self.count() ==> #[trigger] self.key_at(a) != #[trigger] self.key_at(b)
        &&& forall|key: AccountKey| #[trigger]
            self@.contains_key(key) ==> exists|at: int|
                0 <= at < self.count() && #[trigger] self.key_at(at) == key
    }

    /// The account at position `at` in the order in which the accounts were
    /// opened.
    pub fn account(&self, at: usize) -> (account: &Account)
        requires
            at < self.count(),
        ensures
            key_of(*account) == self.key_at(at as int),
            self@.contains_key(key_of(*account)),
            self@[key_of(*account)] == account.amount,
    {
        proof {
            use_type_invariant(self);
            lemma_held_once(self.accounts@, at as int);
        }
        &self.accounts[at]
    }

    /// The accounts on `channel` in the order of their tokens, from the first
    /// token after `start_after` on, at most `limit` of them. Tokens are
    /// ordered as their names are in UTF-8, byte by byte.
    pub fn list(&self, channel: &str, start_after: Option<&str>, limit: usize) -> (found: Vec<
        Account,
    >)
        ensures
            found@.len() <= limit,
            forall|i: int|
                0 <= i < found@.len() ==> {
                    &&& (#[trigger] found@[i]).channel@ == channel@
                    &&& self@.contains_key(key_of(found@[i]))
                    &&& self@[key_of(found@[i])] == found@[i].amount
                    &&& beyond(text_view(start_after), found@[i].denom@)
                },
            forall|i: int, j: int|
                0 <= i < j < found@.len() ==> precedes(
                    encode_utf8((#[trigger] found@[i]).denom@),
                    encode_utf8((#[trigger] found@[j]).denom@),
                ),
            forall|denom: Seq<char>| #[trigger]
                self@.contains_key((channel@, denom)) && beyond(text_view(start_after), denom)
                    ==> lists_denom(found@, denom) || (found@.len() == limit && follows_all(
                    found@,
                    denom,
                )),
    {
        proof {
            use_type_invariant(self);
        }
        let mut found: Vec<Account> = Vec::new();
        let mut bound: Option<&str> = start_after;
        let mut done = false;
        while !done && found.len() < limit
            invariant
                distinct_accounts(self.accounts@),
                found@.len() <= limit,
                forall|i: int|
                    0 <= i < found@.len() ==> {
                        &&& (#[trigger] found@[i]).channel@ == channel@
                        &&& self@.contains_key(key_of(found@[i]))
                        &&& self@[key_of(found@[i])] == found@[i].amount
                        &&& beyond(text_view(start_after), found@[i].denom@)
                    },
                forall|i: int, j: int|
                    0 <= i < j < found@.len() ==> precedes(
                        encode_utf8((#[trigger] found@[i]).denom@),
                        encode_utf8((#[trigger] found@[j]).denom@),
                    ),
                found@.len() == 0 ==> text_view(bound) == text_view(start_after),
                found@.len() > 0 ==> text_view(bound) == Some(found@[found@.len() - 1].denom@),
                forall|denom: Seq<char>| #[trigger]
                    self@.contains_key((channel@, denom)) && beyond(text_view(start_after), denom)
                        ==> lists_denom(found@, denom) || beyond(text_view(bound), denom),
                done ==> forall|denom: Seq<char>| #[trigger]
                    self@.contains_key((channel@, denom)) && beyond(text_view(start_after), denom)
                        ==> lists_denom(found@, denom),
            decreases limit - found@.len() + if done { 0int } else { 1int },
        {
            match self.first_beyond(channel, bound) {
                None => {
                    proof {
                        assert forall|denom: Seq<char>| #[trigger]
                            self@.contains_key((channel@, denom)) && beyond(
                                text_view(start_after),
                                denom,
                            ) implies lists_denom(found@, denom) by {
                            if !lists_denom(found@, denom) {
                                let j = held_at(self.accounts@, (channel@, denom));
                                assert(key_of(self.accounts@[j]) == (channel@, denom));
                                assert(candidate(
                                    self.accounts@[j],
                                    channel@,
                                    text_view(bound),
                                ));
                            }
                        }
                    }
                    done = true;
                },
                Some(at) => {
                    let ghost old_found = found@;
                    let ghost old_bound = text_view(bound);
                    let picked = &self.accounts[at];
                    proof {
                        lemma_held_once(self.accounts@, at as int);
                        lemma_beyond_transitive(text_view(start_after), old_bound, picked.denom@);
                    }
                    found.push(
                        Account {
                            channel: picked.channel.clone(),
                            denom: picked.denom.clone(),
                            amount: picked.amount,
                },
            );
            bound = Some(picked.denom.as_str());
            proof {
                let last = found@.len() - 1;
                assert(found@[last].denom@ == picked.denom@);
                assert forall|i: int, j: int| 0 <= i < j < found@.len() implies precedes(
                    encode_utf8((#[trigger] found@[i]).denom@),
                    encode_utf8((#[trigger] found@[j]).denom@),
                ) by {
                    if j == last {
                        assert(found@[i] == old_found[i]);
                        if i < last - 1 {
                            assert(precedes(
                                encode_utf8(old_found[i].denom@),
                                encode_utf8(old_found[last - 1].denom@),
                            ));
                            lemma_precedes_transitive(
                                encode_utf8(old_found[i].denom@),
                                encode_utf8(old_found[last - 1].denom@),
                                encode_utf8(picked.denom@),
                            );
                        }
                    } else {
                        assert(found@[i] == old_found[i]);
                        assert(found@[j] == old_found[j]);
                    }
                }
                assert forall|denom: Seq<char>| #[trigger]
                    self@.contains_key((channel@, denom)) && beyond(
                        text_view(start_after),
                        denom,
                    ) implies lists_denom(found@, denom) || beyond(text_view(bound), denom) by {
                    if lists_denom(old_found, denom) {
                        let i = choose|i: int|
                            0 <= i < old_found.len() && (#[trigger] old_found[i]).denom@ == denom;
                        assert(found@[i].denom@ == denom);
                    } else if denom == picked.denom@ {
                        assert(found@[last].denom@ == denom);
                    } else {
                        let j = held_at(self.accounts@, (channel@, denom));
                        assert(key_of(self.accounts@[j]) == (channel@, denom));
                        assert(candidate(self.accounts@[j], channel@, old_bound));
                        lemma_precedes_order(encode_utf8(denom), encode_utf8(picked.denom@));
                        if encode_utf8(denom) == encode_utf8(picked.denom@) {
                            encode_utf8_decode_utf8(denom);
                            encode_utf8_decode_utf8(picked.denom@);
                        }
                    }
                }
            }
                },
            }
        }
        proof {
            if !done {
                assert forall|denom: Seq<char>| #[trigger]
                    self@.contains_key((channel@, denom)) && beyond(
                        text_view(start_after),
                        denom,
                    ) implies lists_denom(found@, denom) || (found@.len() == limit && follows_all(
                    found@,
                    denom,
                )) by {
                    if !lists_denom(found@, denom) {
                        assert forall|i: int| 0 <= i < found@.len() implies precedes(
                            encode_utf8((#[trigger] found@[i]).denom@),
                            encode_utf8(denom),
                        ) by {
                            let last = found@.len() - 1;
                            if i < last {
                                lemma_precedes_transitive(
                                    encode_utf8(found@[i].denom@),
                                    encode_utf8(found@[last].denom@),
                                    encode_utf8(denom),
                                );
                            }
                        }
                    }
                }
            }
        }
        found
    }

    /// The position of the account on `channel` whose token is the first
    /// after `bound`, if there is one.
    fn first_beyond(&self, channel: &str, bound: Option<&str>) -> (best: Option<usize>)
        ensures
            best matches Some(at) ==> at < self.accounts@.len() && candidate(
                self.accounts@[at as int],
                channel@,
                text_view(bound),
            ) && forall|j: int|
                0 <= j < self.accounts@.len() && candidate(
                    #[trigger] self.accounts@[j],
                    channel@,
                    text_view(bound),
                ) ==> !precedes(
                    encode_utf8(self.accounts@[j].denom@),
                    encode_utf8(self.accounts@[at as int].denom@),
                ),
            best is None ==> forall|j: int|
                0 <= j < self.accounts@.len() ==> !candidate(
                    #[trigger] self.accounts@[j],
                    channel@,
                    text_view(bound),
                ),
    {
        let mut best: Option<usize> = None;
        let mut i: usize = 0;
        while i < self.accounts.len()
            invariant
                i <= self.accounts@.len(),
                best matches Some(at) ==> at < i && candidate(
                    self.accounts@[at as int],
                    channel@,
                    text_view(bound),
                ) && forall|j: int|
                    0 <= j < i && candidate(
                        #[trigger] self.accounts@[j],
                        channel@,
                        text_view(bound),
                    ) ==> !precedes(
                        encode_utf8(self.accounts@[j].denom@),
                        encode_utf8(self.accounts@[at as int].denom@),
                    ),
                best is None ==> forall|j: int|
                    0 <= j < i ==> !candidate(
                        #[trigger] self.accounts@[j],
                        channel@,
                        text_view(bound),
                    ),
            decreases self.accounts@.len() - i,
        {
            let account = &self.accounts[i];
            let on_channel = same_text(account.channel.as_str(), channel);
            let after_bound = match bound {
                None => true,
                Some(b) => match place(b.as_bytes(), account.denom.as_str().as_bytes()) {
                    Position::Before => true,
                    _ => false,
                },
            };
            if on_channel && after_bound {
                match best {
                    None => {
                        proof {
                            lemma_precedes_order(
                                encode_utf8(account.denom@),
                                encode_utf8(account.denom@),
                            );
                        }
                        best = Some(i);
                    },
                    Some(at) => {
                        let earlier = match place(
                            account.denom.as_str().as_bytes(),
                            self.accounts[at].denom.as_str().as_bytes(),
                        ) {
                            Position::Before => true,
                            _ => false,
                        };
                        if earlier {
                            proof {
                                let d = encode_utf8(account.denom@);
                                let old = encode_utf8(self.accounts@[at as int].denom@);
                                lemma_precedes_order(d, d);
                                assert forall|j: int|
                                    0 <= j < i + 1 && candidate(
                                        #[trigger] self.accounts@[j],
                                        channel@,
                                        text_view(bound),
                                    ) implies !precedes(
                                    encode_utf8(self.accounts@[j].denom@),
                                    d,
                                ) by {
                                    let dj = encode_utf8(self.accounts@[j].denom@);
                                    if j < i && precedes(dj, d) {
                                        lemma_precedes_transitive(dj, d, old);
                                    }
                                }
                            }
                            best = Some(i);
                        }
                    },
                }
            }
            i = i + 1;
        }
        best
    }
}

} // verus!
