//! The persistent state of the engine: the immutable configuration, the
//! per-address withdrawable balances, and the accumulated fee pool.

use vstd::prelude::*;

verus! {

/// The configuration fixed at instantiation: the one accepted token contract
/// and the owner entitled to the accumulated fees. No operation updates it.
#[derive(Clone, Debug, PartialEq)]
pub struct ContractInfo {
    pub token: String,
    pub owner: String,
}

/// The withdrawable balances: a mapping from canonical address to amount,
/// where an absent entry reads as zero and a balance reduced to zero simply
/// stays zero. Modelled as the total function [`BalanceMap::spec_balance`]
/// from address to amount.
#[derive(Clone, Debug, PartialEq)]
pub struct BalanceMap {
    entries: Vec<(String, u128)>,
}

/// The amount the first entry of `s` whose key reads as `addr` records,
/// zero when there is none.
spec fn lookup(s: Seq<(String, u128)>, addr: Seq<char>) -> u128
    decreases s.len(),
{
    if s.len() == 0 {
        0
    } else if s[0].0@ == addr {
        s[0].1
    } else {
        lookup(s.drop_first(), addr)
    }
}

/// When no key among the first `i` entries reads as `addr`, the lookup is
/// decided by the entries from `i` on.
proof fn lemma_lookup_skip(s: Seq<(String, u128)>, addr: Seq<char>, i: int)
    requires
        0 <= i <= s.len(),
        forall|j: int| 0 <= j < i ==> s[j].0@ != addr,
    ensures
        lookup(s, addr) == lookup(s.skip(i), addr),
    decreases i,
{
    if i == 0 {
        assert(s.skip(0) =~= s);
    } else {
        let t = s.drop_first();
        lemma_lookup_skip(t, addr, i - 1);
        assert(t.skip(i - 1) =~= s.skip(i));
    }
}

/// Replacing the first entry whose key reads as `addr` by an entry whose key
/// also reads as `addr` makes the lookup of `addr` the new amount and leaves
/// the lookup of every other address as it was.
proof fn lemma_lookup_update(s: Seq<(String, u128)>, i: int, entry: (String, u128), addr: Seq<char>)
    requires
        0 <= i < s.len(),
        forall|j: int| 0 <= j < i ==> s[j].0@ != addr,
        s[i].0@ == addr,
        entry.0@ == addr,
    ensures
        lookup(s.update(i, entry), addr) == entry.1,
        forall|b: Seq<char>| b != addr ==> lookup(s.update(i, entry), b) == lookup(s, b),
    decreases i,
{
    let t = s.update(i, entry);
    if i == 0 {
        assert(lookup(t, addr) == entry.1);
        assert forall|b: Seq<char>| b != addr implies lookup(t, b) == lookup(s, b) by {
            assert(t.drop_first() =~= s.drop_first());
        }
    } else {
        let s1 = s.drop_first();
        assert(t.drop_first() =~= s1.update(i - 1, entry));
        lemma_lookup_update(s1, i - 1, entry, addr);
        assert(lookup(t, addr) == entry.1);
        assert forall|b: Seq<char>| b != addr implies lookup(t, b) == lookup(s, b) by {
            if s[0].0@ != b {
                assert(lookup(t, b) == lookup(t.drop_first(), b));
                assert(lookup(s, b) == lookup(s1, b));
            }
        }
    }
}

/// Appending an entry whose key appears nowhere in `s` makes the lookup of
/// that key the appended amount and leaves every other address's lookup as
/// it was.
proof fn lemma_lookup_push(s: Seq<(String, u128)>, entry: (String, u128))
    requires
        forall|j: int| 0 <= j < s.len() ==> s[j].0@ != entry.0@,
    ensures
        lookup(s.push(entry), entry.0@) == entry.1,
        forall|b: Seq<char>| b != entry.0@ ==> lookup(s.push(entry), b) == lookup(s, b),
    decreases s.len(),
{
    let t = s.push(entry);
    if s.len() == 0 {
        assert(t[0] == entry);
        assert(lookup(t, entry.0@) == entry.1);
        assert forall|b: Seq<char>| b != entry.0@ implies lookup(t, b) == lookup(s, b) by {
            assert(t.drop_first() =~= Seq::<(String, u128)>::empty());
            assert(lookup(t, b) == lookup(t.drop_first(), b));
            assert(lookup(t.drop_first(), b) == 0);
            assert(lookup(s, b) == 0);
        }
    } else {
        let s1 = s.drop_first();
        assert(t.drop_first() =~= s1.push(entry));
        lemma_lookup_push(s1, entry);
        assert(t[0] == s[0]);
        assert(lookup(t, entry.0@) == entry.1);
        assert forall|b: Seq<char>| b != entry.0@ implies lookup(t, b) == lookup(s, b) by {
            if s[0].0@ != b {
                assert(lookup(t, b) == lookup(t.drop_first(), b));
                assert(lookup(s, b) == lookup(s1, b));
            }
        }
    }
}

impl BalanceMap {
    /// The amount recorded for `addr`; an absent entry reads as zero.
    pub closed spec fn spec_balance(&self, addr: Seq<char>) -> u128 {
        lookup(self.entries@, addr)
    }

    /// The recorded entries, for the host adapter to persist.
    pub closed spec fn spec_entries(&self) -> Seq<(String, u128)> {
        self.entries@
    }

    /// The recorded entries as address–amount pairs, for persisting.
    pub fn entries(&self) -> (v: &Vec<(String, u128)>)
        ensures
            v@ == self.spec_entries(),
    {
        &self.entries
    }

    /// Rebuild a map from persisted address–amount pairs. Together with
    /// [`lemma_entries_determine_balances`] this makes the persistence
    /// round trip faithful: rebuilding from [`Self::entries`] preserves
    /// every balance.
    pub fn from_entries(entries: Vec<(String, u128)>) -> (m: BalanceMap)
        ensures
            m.spec_entries() == entries@,
    {
        BalanceMap { entries }
    }

    /// An empty map: every address reads as zero.
    pub fn new() -> (m: BalanceMap)
        ensures
            forall|addr: Seq<char>| m.spec_balance(addr) == 0,
    {
        BalanceMap { entries: Vec::new() }
    }

    /// The index of the first entry for `addr`, if one exists.
    fn find(&self, addr: &String) -> (r: Option<usize>)
        ensures
            match r {
                Some(i) => i < self.entries@.len() && self.entries@[i as int].0@ == addr@
                    && forall|j: int| 0 <= j < i ==> self.entries@[j].0@ != addr@,
                None => forall|j: int|
                    0 <= j < self.entries@.len() ==> self.entries@[j].0@ != addr@,
            },
    {
        let n = self.entries.len();
        let mut i: usize = 0;
        while i < n
            invariant
                n == self.entries@.len(),
                i <= n,
                forall|j: int| 0 <= j < i ==> self.entries@[j].0@ != addr@,
            decreases n - i,
        {
            if self.entries[i].0 == *addr {
                return Some(i);
            }
            i = i + 1;
        }
        None
    }

    /// The get-or-default(zero) accessor: the amount recorded for `addr`,
    /// zero when no entry exists.
    pub fn get(&self, addr: &String) -> (amount: u128)
        ensures
            amount == self.spec_balance(addr@),
    {
        match self.find(addr) {
            Some(i) => {
                proof {
                    lemma_lookup_skip(self.entries@, addr@, i as int);
                    assert(self.entries@.skip(i as int)[0] == self.entries@[i as int]);
                    assert(lookup(self.entries@.skip(i as int), addr@) == self.entries@[i as int].1);
                }
                self.entries[i].1
            },
            None => {
                proof {
                    let n = self.entries@.len() as int;
                    lemma_lookup_skip(self.entries@, addr@, n);
                    assert(self.entries@.skip(n) =~= Seq::<(String, u128)>::empty());
                }
                0
            },
        }
    }

    /// Record `amount` for `addr`, leaving every other address's entry as it
    /// was. Entries are created on first use and never deleted.
    pub fn set(&mut self, addr: &String, amount: u128)
        ensures
            final(self).spec_balance(addr@) == amount,
            forall|b: Seq<char>|
                b != addr@ ==> final(self).spec_balance(b) == old(self).spec_balance(b),
    {
        let key = addr.clone();
        let ghost s0 = self.entries@;
        match self.find(addr) {
            Some(i) => {
                self.entries[i] = (key, amount);
                proof {
                    lemma_lookup_update(s0, i as int, self.entries@[i as int], addr@);
                    assert(self.entries@ =~= s0.update(i as int, self.entries@[i as int]));
                }
            },
            None => {
                self.entries.push((key, amount));
                proof {
                    let entry = self.entries@.last();
                    lemma_lookup_push(s0, entry);
                    assert(self.entries@ =~= s0.push(entry));
                }
            },
        }
    }
}

/// Law of the persistence round trip: two maps with the same entries record
/// the same balance for every address, so saving [`BalanceMap::entries`] and
/// rebuilding with [`BalanceMap::from_entries`] loses nothing.
pub proof fn lemma_entries_determine_balances(m1: BalanceMap, m2: BalanceMap)
    requires
        m1.spec_entries() == m2.spec_entries(),
    ensures
        forall|addr: Seq<char>| m1.spec_balance(addr) == m2.spec_balance(addr),
{
}

/// The whole persistent state of the accounting engine. Every operation
/// takes it explicitly by reference; there is no hidden global.
#[derive(Clone, Debug, PartialEq)]
pub struct ContractState {
    /// The configuration, set once at instantiation.
    pub info: ContractInfo,
    /// The per-address withdrawable balances.
    pub withdrawable: BalanceMap,
    /// The running total of fees withheld from deposits since the owner last
    /// collected them. Never negative: it is only ever reset to zero or
    /// increased.
    pub fee_collected: u128,
}

impl ContractState {
    /// The withdrawable balance of `addr`; an absent entry reads as zero.
    pub open spec fn withdrawable_of(&self, addr: Seq<char>) -> u128 {
        self.withdrawable.spec_balance(addr)
    }
}

} // verus!
