//! The messages that were sent and whose fate is not known yet.
//!
//! A message is known by the account it was sent to and by its own hash. The
//! table finds an entry through the first eight bytes of the message hash, so
//! that all entries but a few stand alone in their bucket.

use std::collections::hash_map;
use std::collections::HashMap;

use vstd::prelude::*;

use crate::uint256::UInt256;

verus! {

broadcast use vstd::std_specs::hash::group_hash_axioms;

/// What became of a pending message.
#[derive(Clone, Copy, Debug, PartialEq, Eq, Structural)]
pub enum PendingMessageStatus {
    /// A transaction of the account took the message in.
    Delivered,
    /// The message's time ran out first.
    Expired,
}

/// What is kept of a pending message.
#[derive(Debug)]
pub struct PendingMessageState<T> {
    /// The time, in Unix seconds, after which the message is no longer valid.
    pub expired_at: u32,
    /// Where the message's fate is to be reported, until it has been.
    pub tx: Option<T>,
}

/// Names a pending message: the account and the message hash.
pub type MessageKey = (UInt256, UInt256);

/// Says what became of a pending message: the account, the message hash and its
/// fate.
pub type PendingNotice = (UInt256, UInt256, PendingMessageStatus);

/// The pending messages and what is kept of each.
pub type PendingMap<T> = Map<MessageKey, PendingMessageState<T>>;

struct Entry<T> {
    account: UInt256,
    hash: UInt256,
    state: PendingMessageState<T>,
}

impl<T> Entry<T> {
    spec fn key(self) -> MessageKey {
        (self.account, self.hash)
    }
}

/// The bucket of a message hash: its first eight bytes, the first as the lowest.
spec fn slot_of(hash: UInt256) -> u64 {
    (hash@[0] as u64) | (hash@[1] as u64) << 8 | (hash@[2] as u64) << 16 | (hash@[3] as u64) << 24
        | (hash@[4] as u64) << 32 | (hash@[5] as u64) << 40 | (hash@[6] as u64) << 48 | (
    hash@[7] as u64) << 56
}

fn slot(hash: &UInt256) -> (s: u64)
    ensures
        s == slot_of(*hash),
{
    let b = &hash.bytes;
    (b[0] as u64) | (b[1] as u64) << 8 | (b[2] as u64) << 16 | (b[3] as u64) << 24 | (b[4] as u64)
        << 32 | (b[5] as u64) << 40 | (b[6] as u64) << 48 | (b[7] as u64) << 56
}

spec fn holds<T>(entries: Seq<Entry<T>>, key: MessageKey) -> bool {
    exists|i: int| 0 <= i < entries.len() && #[trigger] entries[i].key() == key
}

spec fn distinct<T>(entries: Seq<Entry<T>>) -> bool {
    forall|i: int, j: int|
        0 <= i < j < entries.len() ==> #[trigger] entries[i].key() != #[trigger] entries[j].key()
}

spec fn position<T>(entries: Seq<Entry<T>>, key: MessageKey) -> int {
    choose|i: int| 0 <= i < entries.len() && #[trigger] entries[i].key() == key
}

spec fn state_in<T>(entries: Seq<Entry<T>>, key: MessageKey) -> PendingMessageState<T> {
    entries[position(entries, key)].state
}

/// What holds of a bucket: it has entries, all of them belong there, and none
/// is for the same message as another.
spec fn bucket_ok<T>(s: u64, entries: Seq<Entry<T>>) -> bool {
    &&& entries.len() > 0
    &&& distinct(entries)
    &&& forall|i: int| 0 <= i < entries.len() ==> slot_of((#[trigger] entries[i]).hash) == s
}

/// The messages of a bucket, in its order.
spec fn keys_in<T>(entries: Seq<Entry<T>>) -> Seq<MessageKey> {
    Seq::new(entries.len(), |i: int| entries[i].key())
}

proof fn lemma_state_at<T>(entries: Seq<Entry<T>>, i: int)
    requires
        distinct(entries),
        0 <= i < entries.len(),
    ensures
        holds(entries, entries[i].key()),
        position(entries, entries[i].key()) == i,
{
    let key = entries[i].key();
    assert(entries[i].key() == key);
    let j = position(entries, key);
    assert(0 <= j < entries.len() && entries[j].key() == key);
}

/// Where the fate of the message `key` is to be reported, if it is pending and
/// has not been reported.
pub open spec fn report_to<T>(pending: PendingMap<T>, key: MessageKey) -> Option<T> {
    if pending.contains_key(key) {
        pending[key].tx
    } else {
        None
    }
}

/// The table once the fate of the message `key` has been reported: the message
/// stays pending, and nothing more is to be reported of it.
pub open spec fn reported<T>(pending: PendingMap<T>, key: MessageKey) -> PendingMap<T> {
    if pending.contains_key(key) {
        pending.insert(key, PendingMessageState { tx: None, ..pending[key] })
    } else {
        pending
    }
}

/// The table of pending messages. While one of its operations is at work on the
/// buckets, the table itself stands empty.
#[verifier::reject_recursive_types(T)]
pub struct PendingMessagesCache<T> {
    buckets: HashMap<u64, Vec<Entry<T>>>,
}

impl<T> View for PendingMessagesCache<T> {
    type V = PendingMap<T>;

    closed spec fn view(&self) -> PendingMap<T> {
        table(self.buckets@)
    }
}

/// The pending messages that the buckets hold.
spec fn table<T>(buckets: Map<u64, Vec<Entry<T>>>) -> PendingMap<T> {
    Map::new(
        |key: MessageKey|
            buckets.contains_key(slot_of(key.1)) && holds(buckets[slot_of(key.1)]@, key),
        |key: MessageKey| state_in(buckets[slot_of(key.1)]@, key),
    )
}

/// Where in a bucket the entry of a message stands, if it has one.
fn find<T>(entries: &Vec<Entry<T>>, account: &UInt256, hash: &UInt256) -> (found: Option<usize>)
    ensures
        match found {
            Some(i) => i < entries.len() && entries@[i as int].key() == (*account, *hash),
            None => !holds(entries@, (*account, *hash)),
        },
{
    let mut i: usize = 0;
    while i < entries.len()
        invariant
            i <= entries.len(),
            forall|j: int|
                0 <= j < i ==> #[trigger] entries@[j].key() != (*account, *hash),
        decreases entries.len() - i,
    {
        if entries[i].account == *account && entries[i].hash == *hash {
            return Some(i);
        }
        i += 1;
    }
    None
}

/// Appends the messages of a bucket.
fn push_keys<T>(entries: &Vec<Entry<T>>, keys: &mut Vec<MessageKey>)
    ensures
        final(keys)@ == old(keys)@ + keys_in(entries@),
{
    let mut i: usize = 0;
    while i < entries.len()
        invariant
            i <= entries.len(),
            keys@ == old(keys)@ + keys_in(entries@).take(i as int),
        decreases entries.len() - i,
    {
        keys.push((entries[i].account, entries[i].hash));
        i += 1;
        assert(keys_in(entries@).take(i as int) =~= keys_in(entries@).take(i - 1).push(
            entries@[i - 1].key(),
        ));
    }
    assert(keys_in(entries@).take(i as int) =~= keys_in(entries@));
}

impl<T> PendingMessagesCache<T> {
    /// Every bucket is in order.
    #[verifier::type_invariant]
    spec fn wf(&self) -> bool {
        forall|s: u64| #[trigger]
            self.buckets@.contains_key(s) ==> bucket_ok(s, self.buckets@[s]@)
    }

    /// A table with no messages.
    pub fn new() -> (cache: Self)
        ensures
            cache@ == PendingMap::<T>::empty(),
    {
        let cache = PendingMessagesCache { buckets: HashMap::new() };
        assert(cache@ =~= PendingMap::<T>::empty());
        cache
    }

    /// What is kept of a message, if it is pending.
    pub fn get(&self, account: &UInt256, hash: &UInt256) -> (state: Option<&PendingMessageState<T>>)
        ensures
            match state {
                Some(state) => self@.contains_key((*account, *hash)) && *state == self@[(
                    *account,
                    *hash,
                )],
                None => !self@.contains_key((*account, *hash)),
            },
    {
        proof {
            use_type_invariant(self);
        }
        match self.buckets.get(&slot(hash)) {
            Some(entries) => match find(entries, account, hash) {
                Some(i) => {
                    proof {
                        lemma_state_at(entries@, i as int);
                    }
                    Some(&entries[i].state)
                },
                None => None,
            },
            None => None,
        }
    }

    /// The pending messages, each once, in no particular order.
    pub fn keys(&self) -> (keys: Vec<MessageKey>)
        ensures
            keys@.no_duplicates(),
            forall|key: MessageKey| keys@.contains(key) <==> self@.contains_key(key),
    {
        proof {
            use_type_invariant(self);
        }
        let mut keys: Vec<MessageKey> = Vec::new();
        let ghost mut walked: Set<u64> = Set::empty();
        for s in it: self.buckets.keys()
            invariant
                self.wf(),
                it.seq().unref().to_set() == self.buckets@.dom(),
                it.seq().no_duplicates(),
                forall|r: u64|
                    walked.contains(r) <==> exists|j: int|
                        0 <= j < it.index() && *#[trigger] it.seq()[j] == r,
                keys@.no_duplicates(),
                forall|key: MessageKey|
                    keys@.contains(key) <==> self@.contains_key(key) && walked.contains(
                        slot_of(key.1),
                    ),
        {
            match self.buckets.get(s) {
                Some(entries) => {
                    let ghost before = keys@;
                    push_keys(entries, &mut keys);
                    proof {
                        lemma_walked(self.buckets@, walked, before, keys@, *s);
                    }
                },
                None => {},
            }
            proof {
                walked = walked.insert(*s);
            }
        }
        keys
    }

    /// Adds a message that is not pending yet.
    pub fn insert(&mut self, account: UInt256, hash: UInt256, state: PendingMessageState<T>)
        requires
            !old(self)@.contains_key((account, hash)),
        ensures
            final(self)@ == old(self)@.insert((account, hash), state),
    {
        let s: u64 = slot(&hash);
        proof {
            use_type_invariant(&*self);
        }
        let mut buckets = HashMap::new();
        std::mem::swap(&mut buckets, &mut self.buckets);
        let ghost before = buckets@;
        let entry = Entry { account, hash, state };
        let ghost new_entry = entry;
        match buckets.entry(s) {
            hash_map::Entry::Occupied(occupied) => {
                let entries = occupied.into_mut();
                entries.push(entry);
            },
            hash_map::Entry::Vacant(vacant) => {
                let mut entries = Vec::new();
                entries.push(entry);
                vacant.insert(entries);
            },
        }
        proof {
            let old_entries = if before.contains_key(s) {
                before[s]@
            } else {
                Seq::empty()
            };
            assert(buckets@[s]@ == old_entries.push(new_entry));
            lemma_table_push(before, buckets@, s, new_entry);
        }
        self.buckets = buckets;
    }

    /// Drops a message, and hands back what was kept of it, if it was pending.
    pub fn remove(&mut self, account: &UInt256, hash: &UInt256) -> (state: Option<
        PendingMessageState<T>,
    >)
        ensures
            final(self)@ == old(self)@.remove((*account, *hash)),
            match state {
                Some(state) => old(self)@.contains_key((*account, *hash)) && state == old(self)@[(
                    *account,
                    *hash,
                )],
                None => !old(self)@.contains_key((*account, *hash)),
            },
    {
        let s: u64 = slot(hash);
        proof {
            use_type_invariant(&*self);
        }
        let mut buckets = HashMap::new();
        std::mem::swap(&mut buckets, &mut self.buckets);
        let ghost before = buckets@;
        let removed = match buckets.entry(s) {
            hash_map::Entry::Occupied(mut occupied) => match find(occupied.get(), account, hash) {
                Some(i) => {
                    let entry;
                    if occupied.get().len() == 1 {
                        let mut entries = occupied.remove();
                        entry = entries.remove(i);
                    } else {
                        let entries = occupied.get_mut();
                        entry = entries.remove(i);
                    }
                    proof {
                        lemma_table_remove(before, buckets@, s, i as int);
                        lemma_state_at(before[s]@, i as int);
                    }
                    Some(entry.state)
                },
                None => None,
            },
            hash_map::Entry::Vacant(_) => None,
        };
        proof {
            if removed is None {
                assert(buckets@ =~= before);
                assert(table(before) =~= table(before).remove((*account, *hash)));
            }
        }
        self.buckets = buckets;
        removed
    }

    /// Takes the place where a message's fate is to be reported, if the message
    /// is pending and nothing has been reported of it. The message stays pending.
    pub fn take_tx(&mut self, account: &UInt256, hash: &UInt256) -> (tx: Option<T>)
        ensures
            final(self)@ == reported(old(self)@, (*account, *hash)),
            tx == report_to(old(self)@, (*account, *hash)),
    {
        let s: u64 = slot(hash);
        proof {
            use_type_invariant(&*self);
        }
        let mut buckets = HashMap::new();
        std::mem::swap(&mut buckets, &mut self.buckets);
        let ghost before = buckets@;
        let tx = match buckets.entry(s) {
            hash_map::Entry::Occupied(occupied) => match find(occupied.get(), account, hash) {
                Some(i) => {
                    let entries = occupied.into_mut();
                    let entry = &mut entries[i];
                    let tx = entry.state.tx.take();
                    proof {
                        lemma_table_update(before, buckets@, s, i as int);
                        lemma_state_at(before[s]@, i as int);
                        assert(table(buckets@) =~= reported(table(before), (*account, *hash)));
                    }
                    tx
                },
                None => {
                    assert(buckets@ =~= before);
                    None
                },
            },
            hash_map::Entry::Vacant(_) => {
                assert(buckets@ =~= before);
                None
            },
        };
        self.buckets = buckets;
        tx
    }
}

/// A walk over the buckets that has listed the messages of the buckets `walked`
/// goes on to list those of the bucket `s`.
proof fn lemma_walked<T>(
    buckets: Map<u64, Vec<Entry<T>>>,
    walked: Set<u64>,
    before: Seq<MessageKey>,
    after: Seq<MessageKey>,
    s: u64,
)
    requires
        buckets.contains_key(s),
        bucket_ok(s, buckets[s]@),
        !walked.contains(s),
        before.no_duplicates(),
        forall|key: MessageKey|
            before.contains(key) <==> table(buckets).contains_key(key) && walked.contains(
                slot_of(key.1),
            ),
        after == before + keys_in(buckets[s]@),
    ensures
        after.no_duplicates(),
        forall|key: MessageKey|
            after.contains(key) <==> table(buckets).contains_key(key) && walked.insert(
                s,
            ).contains(slot_of(key.1)),
{
    let entries = buckets[s]@;
    let added = keys_in(entries);
    assert forall|key: MessageKey| added.contains(key) <==> table(buckets).contains_key(key)
        && slot_of(key.1) == s by {
        if added.contains(key) {
            let i = choose|i: int| 0 <= i < added.len() && added[i] == key;
            assert(entries[i].key() == key);
        }
        if table(buckets).contains_key(key) && slot_of(key.1) == s {
            let i = position(entries, key);
            assert(added[i] == key);
        }
    }
    assert forall|key: MessageKey| after.contains(key) <==> before.contains(key) || added.contains(
        key,
    ) by {
        if before.contains(key) {
            let i = choose|i: int| 0 <= i < before.len() && before[i] == key;
            assert(after[i] == key);
        }
        if added.contains(key) {
            let i = choose|i: int| 0 <= i < added.len() && added[i] == key;
            assert(after[before.len() + i] == key);
        }
        if after.contains(key) {
            let i = choose|i: int| 0 <= i < after.len() && after[i] == key;
            if i >= before.len() {
                assert(added[i - before.len()] == key);
            }
        }
    }
    assert forall|i: int, j: int| 0 <= i < after.len() && 0 <= j < after.len() && i != j implies
        after[i] != after[j] by {
        let n = before.len() as int;
        if i >= n && j >= n {
            assert(entries[i - n].key() != entries[j - n].key());
        } else if i < n && j >= n {
            assert(before.contains(after[i]) && added.contains(added[j - n]));
        } else if j < n && i >= n {
            assert(before.contains(after[j]) && added.contains(added[i - n]));
        }
    }
}

proof fn lemma_table_push<T>(
    before: Map<u64, Vec<Entry<T>>>,
    after: Map<u64, Vec<Entry<T>>>,
    s: u64,
    entry: Entry<T>,
)
    requires
        forall|r: u64| #[trigger] before.contains_key(r) ==> bucket_ok(r, before[r]@),
        s == slot_of(entry.hash),
        !table(before).contains_key(entry.key()),
        after == before.insert(s, after[s]),
        after[s]@ == (if before.contains_key(s) {
            before[s]@
        } else {
            Seq::empty()
        }).push(entry),
    ensures
        forall|r: u64| #[trigger] after.contains_key(r) ==> bucket_ok(r, after[r]@),
        table(after) == table(before).insert(entry.key(), entry.state),
{
    let old_entries = if before.contains_key(s) {
        before[s]@
    } else {
        Seq::empty()
    };
    let entries = after[s]@;
    assert(distinct(entries)) by {
        assert forall|i: int, j: int| 0 <= i < j < entries.len() implies #[trigger] entries[i].key()
            != #[trigger] entries[j].key() by {
            if j == old_entries.len() {
                assert(old_entries[i].key() == entries[i].key());
            } else {
                assert(old_entries[i].key() != old_entries[j].key());
            }
        }
    }
    assert(bucket_ok(s, entries));
    assert forall|key: MessageKey| slot_of(key.1) == s implies (holds(entries, key) <==> holds(
        old_entries,
        key,
    ) || key == entry.key()) by {
        if holds(old_entries, key) {
            let i = position(old_entries, key);
            assert(entries[i].key() == key);
        }
        assert(entries[old_entries.len() as int].key() == entry.key());
    }
    assert forall|key: MessageKey| holds(old_entries, key) implies state_in(entries, key)
        == state_in(old_entries, key) by {
        let i = position(old_entries, key);
        assert(entries[i].key() == key);
        lemma_state_at(entries, i);
    }
    lemma_state_at(entries, old_entries.len() as int);
    assert(table(after) =~= table(before).insert(entry.key(), entry.state));
}

proof fn lemma_table_remove<T>(
    before: Map<u64, Vec<Entry<T>>>,
    after: Map<u64, Vec<Entry<T>>>,
    s: u64,
    i: int,
)
    requires
        forall|r: u64| #[trigger] before.contains_key(r) ==> bucket_ok(r, before[r]@),
        before.contains_key(s),
        0 <= i < before[s]@.len(),
        if before[s]@.len() == 1 {
            after == before.remove(s)
        } else {
            after == before.insert(s, after[s]) && after[s]@ == before[s]@.remove(i)
        },
    ensures
        forall|r: u64| #[trigger] after.contains_key(r) ==> bucket_ok(r, after[r]@),
        table(after) == table(before).remove(before[s]@[i].key()),
{
    let old_entries = before[s]@;
    let gone = old_entries[i].key();
    let entries = old_entries.remove(i);
    assert(distinct(entries)) by {
        assert forall|j: int, k: int| 0 <= j < k < entries.len() implies #[trigger] entries[j].key()
            != #[trigger] entries[k].key() by {
            let (j0, k0) = (
                if j < i {
                    j
                } else {
                    j + 1
                },
                if k < i {
                    k
                } else {
                    k + 1
                },
            );
            assert(old_entries[j0].key() != old_entries[k0].key());
        }
    }
    assert forall|key: MessageKey| holds(entries, key) <==> holds(old_entries, key) && key
        != gone by {
        if holds(entries, key) {
            let j = position(entries, key);
            let j0 = if j < i {
                j
            } else {
                j + 1
            };
            assert(old_entries[j0].key() == key);
            assert(old_entries[i].key() != old_entries[j0].key());
        }
        if holds(old_entries, key) && key != gone {
            let j0 = position(old_entries, key);
            let j = if j0 < i {
                j0
            } else {
                j0 - 1
            };
            assert(entries[j].key() == key);
        }
    }
    assert forall|key: MessageKey| holds(entries, key) implies state_in(entries, key) == state_in(
        old_entries,
        key,
    ) by {
        let j = position(entries, key);
        let j0 = if j < i {
            j
        } else {
            j + 1
        };
        assert(entries[j] == old_entries[j0]);
        lemma_state_at(old_entries, j0);
    }
    assert(slot_of(gone.1) == s);
    assert(table(after) =~= table(before).remove(gone));
}

proof fn lemma_table_update<T>(
    before: Map<u64, Vec<Entry<T>>>,
    after: Map<u64, Vec<Entry<T>>>,
    s: u64,
    i: int,
)
    requires
        forall|r: u64| #[trigger] before.contains_key(r) ==> bucket_ok(r, before[r]@),
        before.contains_key(s),
        0 <= i < before[s]@.len(),
        after == before.insert(s, after[s]),
        after[s]@ == before[s]@.update(i, after[s]@[i]),
        after[s]@[i].key() == before[s]@[i].key(),
    ensures
        forall|r: u64| #[trigger] after.contains_key(r) ==> bucket_ok(r, after[r]@),
        table(after) == table(before).insert(before[s]@[i].key(), after[s]@[i].state),
{
    let old_entries = before[s]@;
    let entries = after[s]@;
    let changed = entries[i].key();
    assert forall|j: int| 0 <= j < entries.len() implies #[trigger] entries[j].key()
        == old_entries[j].key() by {}
    assert(distinct(entries));
    assert(bucket_ok(s, entries)) by {
        assert forall|j: int| 0 <= j < entries.len() implies slot_of((#[trigger] entries[j]).hash)
            == s by {
            assert(entries[j].key() == old_entries[j].key());
        }
    }
    assert forall|key: MessageKey| holds(entries, key) <==> holds(old_entries, key) by {
        if holds(entries, key) {
            assert(old_entries[position(entries, key)].key() == key);
        }
        if holds(old_entries, key) {
            assert(entries[position(old_entries, key)].key() == key);
        }
    }
    assert forall|key: MessageKey| holds(entries, key) && key != changed implies state_in(
        entries,
        key,
    ) == state_in(old_entries, key) by {
        let j = position(entries, key);
        assert(entries[j].key() == key);
        lemma_state_at(old_entries, j);
    }
    lemma_state_at(entries, i);
    assert(slot_of(changed.1) == s);
    assert(table(after) =~= table(before).insert(changed, entries[i].state));
}

/// A report can be taken exactly where the message is pending and none was taken
/// before, and it goes where the message was to be reported. Taking it leaves
/// nothing more to take, and keeps which messages are pending, their deadlines,
/// and all that is kept of the others. Where there is none to take, nothing
/// changes.
pub proof fn law_report_is_taken_once<T>(
    pending: PendingMap<T>,
    key: MessageKey,
    other: MessageKey,
)
    ensures
        report_to(pending, key) is Some <==> pending.contains_key(key) && pending[key].tx is Some,
        report_to(pending, key) is Some ==> report_to(pending, key) == pending[key].tx,
        report_to(pending, key) is None ==> reported(pending, key) == pending,
        report_to(reported(pending, key), key) is None,
        reported(pending, key).contains_key(other) <==> pending.contains_key(other),
        pending.contains_key(other) ==> reported(pending, key)[other].expired_at
            == pending[other].expired_at,
        pending.contains_key(key) ==> reported(pending, key)[key].tx is None,
        pending.contains_key(other) && other != key ==> reported(pending, key)[other]
            == pending[other],
{
    if report_to(pending, key) is None {
        assert(reported(pending, key) =~= pending);
    }
}

} // verus!
