//! A map keyed by account identifier.
//!
//! An account without an entry is simply absent: looking it up is no error.
//! The entries are kept in a vector in which no account occurs twice, and the
//! map is viewed as the mathematical `Map` from identifiers to values that the
//! entries spell out.

use vstd::prelude::*;

verus! {

/// One account with the value recorded for it.
#[derive(Clone, Debug, PartialEq, Eq)]
struct Entry<V> {
    account: String,
    value: V,
}

/// The map that a sequence of entries spells out; of two entries for one
/// account the later one counts.
spec fn entries_map<V>(entries: Seq<Entry<V>>) -> Map<Seq<char>, V>
    decreases entries.len(),
{
    if entries.len() == 0 {
        Map::empty()
    } else {
        entries_map(entries.drop_last()).insert(entries.last().account@, entries.last().value)
    }
}

/// No account occurs twice among the entries.
spec fn accounts_distinct<V>(entries: Seq<Entry<V>>) -> bool {
    forall|i: int, j: int|
        0 <= i < j < entries.len() ==> entries[i].account@ != entries[j].account@
}

/// The keys of the map are the accounts of the entries, and with distinct
/// accounts each entry's value is the one the map holds for its account.
proof fn lemma_entries_map_lookup<V>(entries: Seq<Entry<V>>)
    ensures
        forall|k: Seq<char>| #[trigger]
            entries_map(entries).contains_key(k) <==> exists|i: int|
                0 <= i < entries.len() && #[trigger] entries[i].account@ == k,
        accounts_distinct(entries) ==> forall|i: int|
            0 <= i < entries.len() ==> entries_map(entries)[#[trigger] entries[i].account@]
                == entries[i].value,
    decreases entries.len(),
{
    if entries.len() > 0 {
        let front = entries.drop_last();
        lemma_entries_map_lookup(front);
        assert forall|k: Seq<char>| #[trigger]
            entries_map(entries).contains_key(k) implies exists|i: int|
            0 <= i < entries.len() && #[trigger] entries[i].account@ == k by {
            if k == entries.last().account@ {
                assert(entries[entries.len() - 1].account@ == k);
            } else {
                assert(entries_map(front).contains_key(k));
                let i = choose|i: int| 0 <= i < front.len() && #[trigger] front[i].account@ == k;
                assert(entries[i].account@ == k);
            }
        }
        assert forall|k: Seq<char>|
            (exists|i: int|
                0 <= i < entries.len() && #[trigger] entries[i].account@
                    == k) implies #[trigger] entries_map(entries).contains_key(k) by {
            let i = choose|i: int| 0 <= i < entries.len() && #[trigger] entries[i].account@ == k;
            if i < entries.len() - 1 {
                assert(front[i].account@ == k);
                assert(entries_map(front).contains_key(k));
            }
        }
        if accounts_distinct(entries) {
            assert(accounts_distinct(front)) by {
                assert forall|i: int, j: int| 0 <= i < j < front.len() implies front[i].account@
                    != front[j].account@ by {
                    assert(entries[i].account@ != entries[j].account@);
                }
            }
            assert forall|i: int| 0 <= i < entries.len() implies entries_map(
                entries,
            )[#[trigger] entries[i].account@] == entries[i].value by {
                if i < entries.len() - 1 {
                    assert(entries[i].account@ != entries[entries.len() - 1].account@);
                    assert(front[i].account@ == entries[i].account@);
                    assert(entries_map(front)[front[i].account@] == front[i].value);
                }
            }
        }
    }
}

/// Appending an entry records its value for its account.
proof fn lemma_entries_map_push<V>(entries: Seq<Entry<V>>, entry: Entry<V>)
    ensures
        entries_map(entries.push(entry)) == entries_map(entries).insert(
            entry.account@,
            entry.value,
        ),
{
    assert(entries.push(entry).drop_last() =~= entries);
}

/// Replacing the entry of an account records the new value for that account,
/// provided that no account occurs twice.
proof fn lemma_entries_map_update<V>(entries: Seq<Entry<V>>, at: int, entry: Entry<V>)
    requires
        accounts_distinct(entries),
        0 <= at < entries.len(),
        entries[at].account@ == entry.account@,
    ensures
        accounts_distinct(entries.update(at, entry)),
        entries_map(entries.update(at, entry)) == entries_map(entries).insert(
            entry.account@,
            entry.value,
        ),
    decreases entries.len(),
{
    let updated = entries.update(at, entry);
    let front = entries.drop_last();
    assert forall|i: int, j: int| 0 <= i < j < updated.len() implies updated[i].account@
        != updated[j].account@ by {
        assert(entries[i].account@ != entries[j].account@);
    }
    if at == entries.len() - 1 {
        assert(updated.drop_last() =~= front);
        assert(entries_map(updated) =~= entries_map(entries).insert(entry.account@, entry.value));
    } else {
        assert(accounts_distinct(front)) by {
            assert forall|i: int, j: int| 0 <= i < j < front.len() implies front[i].account@
                != front[j].account@ by {
                assert(entries[i].account@ != entries[j].account@);
            }
        }
        lemma_entries_map_update(front, at, entry);
        assert(updated.drop_last() =~= front.update(at, entry));
        assert(entries[at].account@ != entries[entries.len() - 1].account@);
        assert(updated.last() == entries.last());
        assert(entries_map(updated) =~= entries_map(entries).insert(entry.account@, entry.value));
    }
}

/// A map from account identifiers to values of type `V`.
#[derive(Clone, Debug, PartialEq, Eq)]
pub struct AccountMap<V> {
    entries: Vec<Entry<V>>,
}

impl<V> View for AccountMap<V> {
    type V = Map<Seq<char>, V>;

    closed spec fn view(&self) -> Map<Seq<char>, V> {
        entries_map(self.entries@)
    }
}

impl<V> AccountMap<V> {
    /// The representation is sound: no account has two entries.
    pub closed spec fn wf(&self) -> bool {
        accounts_distinct(self.entries@)
    }

    /// Where the entry of `account` stands, if it has one.
    fn position(&self, account: &String) -> (found: Option<usize>)
        ensures
            match found {
                Some(at) => at < self.entries@.len() && self.entries@[at as int].account@
                    == account@,
                None => forall|i: int|
                    0 <= i < self.entries@.len() ==> self.entries@[i].account@ != account@,
            },
    {
        let mut at: usize = 0;
        while at < self.entries.len()
            invariant
                at <= self.entries@.len(),
                forall|i: int| 0 <= i < at ==> self.entries@[i].account@ != account@,
            decreases self.entries@.len() - at,
        {
            if self.entries[at].account == *account {
                return Some(at);
            }
            at += 1;
        }
        None
    }

    /// The map without any account.
    pub fn new() -> (map: Self)
        ensures
            map.wf(),
            map@ == Map::<Seq<char>, V>::empty(),
    {
        AccountMap { entries: Vec::new() }
    }

    /// The value recorded for `account`, or `None` where it has no entry.
    pub fn get(&self, account: &String) -> (found: Option<&V>)
        requires
            self.wf(),
        ensures
            match found {
                Some(value) => self@.contains_key(account@) && *value == self@[account@],
                None => !self@.contains_key(account@),
            },
    {
        proof {
            lemma_entries_map_lookup(self.entries@);
        }
        match self.position(account) {
            Some(at) => Some(&self.entries[at].value),
            None => None,
        }
    }

    /// Records `value` for `account`, in place of what was recorded before.
    pub fn set(&mut self, account: String, value: V)
        requires
            old(self).wf(),
        ensures
            final(self).wf(),
            final(self)@ == old(self)@.insert(account@, value),
    {
        let found = self.position(&account);
        let entry = Entry { account, value };
        match found {
            Some(at) => {
                proof {
                    lemma_entries_map_update(self.entries@, at as int, entry);
                }
                self.entries.set(at, entry);
            },
            None => {
                proof {
                    lemma_entries_map_push(self.entries@, entry);
                    assert forall|i: int, j: int|
                        0 <= i < j < self.entries@.push(entry).len() implies self.entries@.push(
                        entry,
                    )[i].account@ != self.entries@.push(entry)[j].account@ by {
                        if j < self.entries@.len() {
                            assert(self.entries@[i].account@ != self.entries@[j].account@);
                        }
                    }
                }
                self.entries.push(entry);
            },
        }
    }
}

} // verus!
