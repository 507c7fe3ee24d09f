//! The walk over an iterable table, one lookup at a time.
//!
//! An iterable table keeps, with every value, the key of the entry after
//! it; the table itself keeps the key of the first. To read the whole table
//! is to follow that chain: look up the pending key, keep the value found
//! under it, go on with the key that the entry names, and stop when an
//! entry names none. Each lookup is a round trip to the chain, and it is the
//! caller who makes it: a [`Walk`] only says which key is due and takes in
//! what was found. It sets no bound on the length of the chain, so on a
//! chain that runs in a circle it never says that the walk is over.

use vstd::prelude::*;

verus! {

/// An entry of an iterable table: the value, and the key of the entry
/// after it, if there is one.
pub struct IterableValue<K, V> {
    pub val: V,
    pub next: Option<K>,
}

/// How far a walk has come.
pub struct Walk<K, V> {
    /// The key to look up next; `None` once the walk is over.
    pub next: Option<K>,
    /// The keys looked up so far, each with the value found under it, in
    /// the order of the lookups.
    pub found: Vec<(K, V)>,
}

/// A [`Walk`] as mathematics.
pub struct Progress<K, V> {
    pub next: Option<K>,
    pub found: Seq<(K, V)>,
}

impl<K, V> View for Walk<K, V> {
    type V = Progress<K, V>;

    open spec fn view(&self) -> Progress<K, V> {
        Progress { next: self.next, found: self.found@ }
    }
}

/// A walk that has looked up nothing yet and is due to look up `head`.
pub open spec fn started<K, V>(head: Option<K>) -> Progress<K, V> {
    Progress { next: head, found: Seq::empty() }
}

/// The walk after `entry` was found under the pending key. A walk that is
/// over stays as it is.
pub open spec fn advanced<K, V>(walk: Progress<K, V>, entry: IterableValue<K, V>) -> Progress<
    K,
    V,
> {
    match walk.next {
        Some(key) => Progress { next: entry.next, found: walk.found.push((key, entry.val)) },
        None => walk,
    }
}

/// The walk after each of `entries` in turn was found under the key that
/// was pending then.
pub open spec fn advanced_through<K, V>(
    walk: Progress<K, V>,
    entries: Seq<IterableValue<K, V>>,
) -> Progress<K, V>
    decreases entries.len(),
{
    if entries.len() == 0 {
        walk
    } else {
        advanced(advanced_through(walk, entries.drop_last()), entries.last())
    }
}

/// `entries` are the entries of a table whose first key is `head`, in the
/// order of the chain, and `keys` are their keys: the table names the first
/// key, each entry but the last names the key of the next, and the last
/// names none.
pub open spec fn is_chain<K, V>(
    head: Option<K>,
    keys: Seq<K>,
    entries: Seq<IterableValue<K, V>>,
) -> bool {
    &&& keys.len() == entries.len()
    &&& head == if keys.len() == 0 {
        None
    } else {
        Some(keys[0])
    }
    &&& forall|i: int|
        0 <= i < entries.len() ==> (#[trigger] entries[i]).next == if i + 1 < keys.len() {
            Some(keys[i + 1])
        } else {
            None
        }
}

/// The keys of a chain, each with the value of its entry, in the order of
/// the chain.
pub open spec fn pairs<K, V>(keys: Seq<K>, entries: Seq<IterableValue<K, V>>) -> Seq<(K, V)> {
    Seq::new(keys.len(), |i: int| (keys[i], entries[i].val))
}

impl<K, V> Walk<K, V> {
    /// A walk over the table whose first key is `head`.
    pub fn begin(head: Option<K>) -> (walk: Self)
        ensures
            walk@ == started::<K, V>(head),
    {
        Walk { next: head, found: Vec::new() }
    }

    /// Whether the walk is over: no key is left to look up.
    pub fn is_over(&self) -> (over: bool)
        ensures
            over == (self@.next is None),
    {
        self.next.is_none()
    }

    /// The key to look up next, unless the walk is over.
    pub fn pending(&self) -> (key: Option<&K>)
        ensures
            self@.next is None ==> key is None,
            self@.next matches Some(due) ==> key == Some(&due),
    {
        self.next.as_ref()
    }

    /// Takes in the entry found under the pending key: the key and the
    /// value join what was found, and the key that the entry names is due
    /// next. A walk that is over takes in nothing.
    pub fn advance(self, entry: IterableValue<K, V>) -> (walk: Self)
        ensures
            walk@ == advanced(self@, entry),
    {
        match self.next {
            Some(key) => {
                let mut found = self.found;
                found.push((key, entry.val));
                Walk { next: entry.next, found }
            },
            None => Walk { next: None, found: self.found },
        }
    }

    /// What the walk has found, in the order of the lookups.
    pub fn finish(self) -> (found: Vec<(K, V)>)
        ensures
            found@ == self@.found,
    {
        self.found
    }
}

/// A walk over a table without a first key is over before any lookup, and
/// has found nothing.
pub proof fn lemma_empty_table_needs_no_lookup<K, V>()
    ensures
        started::<K, V>(None).next is None,
        started::<K, V>(None).found.len() == 0,
{
}

/// A walk along the first `n` entries of a chain has found exactly those
/// entries, in the order of the chain, and is due to look up the key of
/// the entry after them; after the last entry no key is due.
pub proof fn lemma_walk_follows_chain<K, V>(
    head: Option<K>,
    keys: Seq<K>,
    entries: Seq<IterableValue<K, V>>,
    n: int,
)
    requires
        is_chain(head, keys, entries),
        0 <= n <= entries.len(),
    ensures
        advanced_through(started(head), entries.take(n)).found == pairs(
            keys.take(n),
            entries.take(n),
        ),
        advanced_through(started(head), entries.take(n)).next == if n < keys.len() {
            Some(keys[n])
        } else {
            None
        },
    decreases n,
{
    if n > 0 {
        lemma_walk_follows_chain(head, keys, entries, n - 1);
        assert(entries.take(n).drop_last() =~= entries.take(n - 1));
    }
}

/// A walk over a table of `n` chained entries is over after exactly `n`
/// lookups, not before, and has then found every entry, each under its
/// key, in the order of the chain.
pub proof fn lemma_walk_visits_every_entry<K, V>(
    head: Option<K>,
    keys: Seq<K>,
    entries: Seq<IterableValue<K, V>>,
)
    requires
        is_chain(head, keys, entries),
    ensures
        advanced_through(started(head), entries).next is None,
        advanced_through(started(head), entries).found == pairs(keys, entries),
        advanced_through(started(head), entries).found.len() == entries.len(),
        forall|n: int|
            0 <= n < entries.len() ==> (#[trigger] advanced_through(
                started(head),
                entries.take(n),
            )).next == Some(keys[n]),
{
    let n = entries.len() as int;
    lemma_walk_follows_chain(head, keys, entries, n);
    assert(entries.take(n) =~= entries);
    assert forall|m: int| 0 <= m < entries.len() implies (#[trigger] advanced_through(
        started(head),
        entries.take(m),
    )).next == Some(keys[m]) by {
        lemma_walk_follows_chain(head, keys, entries, m);
    }
}

} // verus!
