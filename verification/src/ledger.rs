//! The mutable ledger state: account and asset stores, written as
//! association vectors with unique keys and viewed as finite maps.

use vstd::prelude::*;
use crate::commands::{Account, AccountV, Asset};
use crate::parse::str_eq;

verus! {

/// The finite map that an association sequence denotes; later entries
/// win, as repeated inserts into a map would.
pub open spec fn assoc_map<K, V>(s: Seq<(K, V)>) -> Map<K, V>
    decreases s.len(),
{
    if s.len() == 0 {
        Map::empty()
    } else {
        assoc_map(s.drop_last()).insert(s.last().0, s.last().1)
    }
}

/// Pairwise distinct keys.
pub open spec fn assoc_unique<K, V>(s: Seq<(K, V)>) -> bool {
    forall|i: int, j: int| 0 <= i < j < s.len() ==> (#[trigger] s[i]).0 != (#[trigger] s[j]).0
}

pub proof fn lemma_assoc_map_dom<K, V>(s: Seq<(K, V)>)
    ensures
        assoc_map(s).dom().finite(),
        forall|k: K|
            assoc_map(s).dom().contains(k) <==> exists|i: int|
                0 <= i < s.len() && (#[trigger] s[i]).0 == k,
    decreases s.len(),
{
    if s.len() > 0 {
        lemma_assoc_map_dom(s.drop_last());
        assert forall|k: K| assoc_map(s).dom().contains(k) implies exists|i: int|
            0 <= i < s.len() && (#[trigger] s[i]).0 == k by {
            if s.last().0 == k {
                assert(s[s.len() - 1].0 == k);
            } else {
                let i = choose|i: int| 0 <= i < s.drop_last().len() && (#[trigger] s.drop_last()[i]).0 == k;
                assert(s[i].0 == k);
            }
        }
        assert forall|k: K| (exists|i: int| 0 <= i < s.len() && (#[trigger] s[i]).0 == k)
            implies assoc_map(s).dom().contains(k) by {
            let i = choose|i: int| 0 <= i < s.len() && (#[trigger] s[i]).0 == k;
            if i < s.len() - 1 {
                assert(s.drop_last()[i].0 == k);
            }
        }
    }
}

pub proof fn lemma_assoc_map_index<K, V>(s: Seq<(K, V)>, i: int)
    requires
        assoc_unique(s),
        0 <= i < s.len(),
    ensures
        assoc_map(s).dom().contains(s[i].0),
        assoc_map(s)[s[i].0] == s[i].1,
    decreases s.len(),
{
    if i < s.len() - 1 {
        assert(s.drop_last()[i] == s[i]);
        assert(assoc_unique(s.drop_last()));
        lemma_assoc_map_index(s.drop_last(), i);
        assert(s[i].0 != s.last().0);
    }
}

pub proof fn lemma_assoc_map_len<K, V>(s: Seq<(K, V)>)
    requires
        assoc_unique(s),
    ensures
        assoc_map(s).dom().finite(),
        assoc_map(s).dom().len() == s.len(),
    decreases s.len(),
{
    lemma_assoc_map_dom(s);
    if s.len() > 0 {
        assert(assoc_unique(s.drop_last()));
        lemma_assoc_map_len(s.drop_last());
        lemma_assoc_map_dom(s.drop_last());
        assert(!assoc_map(s.drop_last()).dom().contains(s.last().0)) by {
            if assoc_map(s.drop_last()).dom().contains(s.last().0) {
                let i = choose|i: int|
                    0 <= i < s.drop_last().len() && (#[trigger] s.drop_last()[i]).0 == s.last().0;
                assert(s[i].0 == s[s.len() - 1].0);
            }
        }
        assert(assoc_map(s).dom() =~= assoc_map(s.drop_last()).dom().insert(s.last().0));
        vstd::set::axiom_set_insert_len(assoc_map(s.drop_last()).dom(), s.last().0);
    }
}

/// Replacing the entry at `i` with one that keeps its key acts on the
/// map as an insert of the new value.
pub proof fn lemma_assoc_map_update<K, V>(s: Seq<(K, V)>, i: int, v: V)
    requires
        assoc_unique(s),
        0 <= i < s.len(),
    ensures
        assoc_unique(s.update(i, (s[i].0, v))),
        assoc_map(s.update(i, (s[i].0, v))) == assoc_map(s).insert(s[i].0, v),
    decreases s.len(),
{
    let t = s.update(i, (s[i].0, v));
    assert forall|a: int, b: int| 0 <= a < b < t.len() implies (#[trigger] t[a]).0
        != (#[trigger] t[b]).0 by {
        assert(s[a].0 != s[b].0);
    }
    if i == s.len() - 1 {
        assert(t.drop_last() =~= s.drop_last());
        assert(assoc_map(t) =~= assoc_map(s).insert(s[i].0, v));
    } else {
        assert(t.drop_last() =~= s.drop_last().update(i, (s[i].0, v)));
        assert(assoc_unique(s.drop_last()));
        assert(s.drop_last()[i] == s[i]);
        lemma_assoc_map_update(s.drop_last(), i, v);
        assert(s[i].0 != s.last().0);
        assert(assoc_map(t) =~= assoc_map(s).insert(s[i].0, v));
    }
}

/// Appending an entry with a fresh key acts on the map as an insert and
/// keeps the keys unique.
pub proof fn lemma_assoc_map_push<K, V>(s: Seq<(K, V)>, k: K, v: V)
    requires
        assoc_unique(s),
        forall|i: int| 0 <= i < s.len() ==> (#[trigger] s[i]).0 != k,
    ensures
        assoc_unique(s.push((k, v))),
        assoc_map(s.push((k, v))) == assoc_map(s).insert(k, v),
{
    assert(s.push((k, v)).drop_last() =~= s);
    let t = s.push((k, v));
    assert forall|a: int, b: int| 0 <= a < b < t.len() implies (#[trigger] t[a]).0
        != (#[trigger] t[b]).0 by {
        if b < s.len() {
            assert(s[a].0 != s[b].0);
        } else {
            assert(t[a] == s[a]);
        }
    }
}

/// The account store, keyed by numeric account identifier.
#[derive(Debug)]
pub struct Accounts {
    pub entries: Vec<(u32, Account)>,
}

impl Accounts {
    /// The association sequence over mathematical values.
    pub open spec fn entries_view(&self) -> Seq<(u32, AccountV)> {
        Seq::new(self.entries@.len(), |i: int| (self.entries@[i].0, self.entries@[i].1@))
    }

    /// Unique keys: the store behaves as the map it views to.
    pub open spec fn wf(&self) -> bool {
        assoc_unique(self.entries_view())
    }
}

impl View for Accounts {
    type V = Map<u32, AccountV>;

    open spec fn view(&self) -> Map<u32, AccountV> {
        assoc_map(self.entries_view())
    }
}

impl Accounts {
    pub fn new() -> (r: Accounts)
        ensures
            r.wf(),
            r@ == Map::<u32, AccountV>::empty(),
            r.entries@.len() == 0,
    {
        let r = Accounts { entries: Vec::new() };
        proof {
            assert(r.entries_view() =~= Seq::<(u32, AccountV)>::empty());
        }
        r
    }

    /// Number of accounts.
    pub fn len(&self) -> (r: usize)
        requires
            self.wf(),
        ensures
            r == self@.dom().len(),
            r == self.entries@.len(),
    {
        proof {
            lemma_assoc_map_len(self.entries_view());
        }
        self.entries.len()
    }

    /// Position of the entry for `k`, if any.
    fn index_of(&self, k: u32) -> (r: Option<usize>)
        ensures
            match r {
                Some(i) => i < self.entries@.len() && self.entries@[i as int].0 == k,
                None => forall|i: int|
                    0 <= i < self.entries@.len() ==> (#[trigger] self.entries@[i]).0 != k,
            },
    {
        let mut i: usize = 0;
        while i < self.entries.len()
            invariant
                i <= self.entries@.len(),
                forall|j: int| 0 <= j < i ==> (#[trigger] self.entries@[j]).0 != k,
            decreases self.entries@.len() - i,
        {
            if self.entries[i].0 == k {
                return Some(i);
            }
            i += 1;
        }
        None
    }

    /// Insert or overwrite the account stored under `k`.
    pub fn insert(&mut self, k: u32, v: Account)
        requires
            old(self).wf(),
        ensures
            final(self).wf(),
            final(self)@ == old(self)@.insert(k, v@),
            final(self).entries@.len() == if old(self)@.dom().contains(k) {
                old(self).entries@.len() as int
            } else {
                old(self).entries@.len() + 1int
            },
    {
        proof {
            lemma_assoc_map_dom(self.entries_view());
        }
        match self.index_of(k) {
            Some(i) => {
                proof {
                    lemma_assoc_map_update(self.entries_view(), i as int, v@);
                }
                let ghost pre = self.entries_view();
                self.entries.remove(i);
                self.entries.insert(i, (k, v));
                proof {
                    assert(self.entries_view() =~= pre.update(i as int, (pre[i as int].0, v@)));
                    assert(pre[i as int].0 == k);
                }
            },
            None => {
                proof {
                    lemma_assoc_map_push(self.entries_view(), k, v@);
                }
                let ghost pre = self.entries_view();
                self.entries.push((k, v));
                proof {
                    assert(self.entries_view() =~= pre.push((k, v@)));
                    if old(self)@.dom().contains(k) {
                        lemma_assoc_map_dom(pre);
                    }
                }
            },
        }
    }

    /// The account stored under `k`, if any.
    pub fn get(&self, k: u32) -> (r: Option<&Account>)
        requires
            self.wf(),
        ensures
            match r {
                Some(a) => self@.dom().contains(k) && self@[k] == a@,
                None => !self@.dom().contains(k),
            },
    {
        proof {
            lemma_assoc_map_dom(self.entries_view());
        }
        match self.index_of(k) {
            Some(i) => {
                proof {
                    lemma_assoc_map_index(self.entries_view(), i as int);
                    assert(self.entries_view()[i as int].0 == k);
                }
                Some(&self.entries[i].1)
            },
            None => None,
        }
    }

    /// Overwrite the name and contact fields that are given as `Some`,
    /// returning whether the account exists.
    pub fn update_fields(&mut self, k: u32, name: &Option<String>, contact_info: &Option<String>)
        -> (r: bool)
        requires
            old(self).wf(),
        ensures
            final(self).wf(),
            r == old(self)@.dom().contains(k),
            r ==> final(self)@ == old(self)@.insert(
                k,
                AccountV {
                    name: if name is Some {
                        name.deep_view()
                    } else {
                        old(self)@[k].name
                    },
                    contact_info: if contact_info is Some {
                        contact_info.deep_view()
                    } else {
                        old(self)@[k].contact_info
                    },
                    ..old(self)@[k]
                },
            ),
            !r ==> *final(self) == *old(self),
    {
        proof {
            lemma_assoc_map_dom(self.entries_view());
        }
        match self.index_of(k) {
            Some(i) => {
                proof {
                    lemma_assoc_map_index(self.entries_view(), i as int);
                    lemma_assoc_map_update(
                        self.entries_view(),
                        i as int,
                        AccountV {
                            name: if name is Some {
                                name.deep_view()
                            } else {
                                old(self)@[k].name
                            },
                            contact_info: if contact_info is Some {
                                contact_info.deep_view()
                            } else {
                                old(self)@[k].contact_info
                            },
                            ..old(self)@[k]
                        },
                    );
                }
                let ghost pre = self.entries_view();
                let (k0, mut acct) = self.entries.remove(i);
                if let Some(n) = name {
                    acct.name = Some(n.clone());
                }
                if let Some(c) = contact_info {
                    acct.contact_info = Some(c.clone());
                }
                self.entries.insert(i, (k0, acct));
                proof {
                    assert(self.entries_view() =~= pre.update(i as int, (pre[i as int].0, acct@)));
                }
                true
            },
            None => false,
        }
    }
}

/// The asset store, keyed by the pair
/// (owning-context account identifier, asset-type identifier).
#[derive(Debug)]
pub struct Assets {
    pub entries: Vec<((u32, String), Asset)>,
}

impl Assets {
    pub open spec fn entries_view(&self) -> Seq<((u32, Seq<char>), Asset)> {
        Seq::new(
            self.entries@.len(),
            |i: int| ((self.entries@[i].0.0, self.entries@[i].0.1@), self.entries@[i].1),
        )
    }

    pub open spec fn wf(&self) -> bool {
        assoc_unique(self.entries_view())
    }
}

impl View for Assets {
    type V = Map<(u32, Seq<char>), Asset>;

    open spec fn view(&self) -> Map<(u32, Seq<char>), Asset> {
        assoc_map(self.entries_view())
    }
}

impl Assets {
    pub fn new() -> (r: Assets)
        ensures
            r.wf(),
            r@ == Map::<(u32, Seq<char>), Asset>::empty(),
    {
        let r = Assets { entries: Vec::new() };
        proof {
            assert(r.entries_view() =~= Seq::<((u32, Seq<char>), Asset)>::empty());
        }
        r
    }

    fn index_of(&self, account_id: u32, asset_id: &str) -> (r: Option<usize>)
        ensures
            match r {
                Some(i) => i < self.entries@.len() && self.entries_view()[i as int].0 == (
                    account_id,
                    asset_id@,
                ),
                None => forall|i: int|
                    0 <= i < self.entries@.len() ==> (#[trigger] self.entries_view()[i]).0 != (
                        account_id,
                        asset_id@,
                    ),
            },
    {
        let mut i: usize = 0;
        while i < self.entries.len()
            invariant
                i <= self.entries@.len(),
                forall|j: int|
                    0 <= j < i ==> (#[trigger] self.entries_view()[j]).0 != (account_id, asset_id@),
            decreases self.entries@.len() - i,
        {
            if self.entries[i].0.0 == account_id && str_eq(self.entries[i].0.1.as_str(), asset_id) {
                return Some(i);
            }
            i += 1;
        }
        None
    }

    /// The asset record stored under the key, if any.
    pub fn get(&self, account_id: u32, asset_id: &str) -> (r: Option<Asset>)
        requires
            self.wf(),
        ensures
            match r {
                Some(a) => self@.dom().contains((account_id, asset_id@)) && self@[(
                    account_id,
                    asset_id@,
                )] == a,
                None => !self@.dom().contains((account_id, asset_id@)),
            },
    {
        proof {
            lemma_assoc_map_dom(self.entries_view());
        }
        match self.index_of(account_id, asset_id) {
            Some(i) => {
                proof {
                    lemma_assoc_map_index(self.entries_view(), i as int);
                }
                Some(self.entries[i].1)
            },
            None => None,
        }
    }

    /// Insert or overwrite the asset record stored under the key.
    pub fn insert(&mut self, account_id: u32, asset_id: String, v: Asset)
        requires
            old(self).wf(),
        ensures
            final(self).wf(),
            final(self)@ == old(self)@.insert((account_id, asset_id@), v),
    {
        match self.index_of(account_id, asset_id.as_str()) {
            Some(i) => {
                proof {
                    lemma_assoc_map_update(self.entries_view(), i as int, v);
                }
                let ghost pre = self.entries_view();
                self.entries.remove(i);
                self.entries.insert(i, ((account_id, asset_id), v));
                proof {
                    assert(self.entries_view() =~= pre.update(i as int, (pre[i as int].0, v)));
                    assert(pre[i as int].0 == (account_id, self.entries@[i as int].0.1@));
                }
            },
            None => {
                proof {
                    lemma_assoc_map_push(self.entries_view(), (account_id, asset_id@), v);
                }
                let ghost pre = self.entries_view();
                self.entries.push(((account_id, asset_id), v));
                proof {
                    assert(self.entries_view() =~= pre.push(
                        ((self.entries@.last().0.0, self.entries@.last().0.1@),
                        self.entries@.last().1),
                    ));
                }
            },
        }
    }
}

} // verus!
