//! The tracker's registry: an append-only list of announcements, searched by
//! link.

use vstd::prelude::*;
use crate::keys::RecordId;
use crate::text::{is_trimmed, lemma_trimmed_is_trimmed, trim, trimmed};

verus! {

/// One accepted announcement: the link as stored, when it was observed, in
/// milliseconds since the Unix epoch, and the record that holds a copy.
#[derive(Clone, Debug, PartialEq, Eq)]
pub struct RegistryEntry {
    pub channel_link: String,
    pub observed_at: i64,
    pub record: RecordId,
}

/// A registry entry as a mathematical value.
pub struct EntryView {
    pub channel_link: Seq<char>,
    pub observed_at: i64,
    pub record: RecordId,
}

impl View for RegistryEntry {
    type V = EntryView;

    open spec fn view(&self) -> EntryView {
        EntryView {
            channel_link: self.channel_link@,
            observed_at: self.observed_at,
            record: self.record,
        }
    }
}

/// The records of the entries of `entries` whose link is exactly `link`, in
/// the order of the entries, one for each entry.
pub open spec fn records_for(entries: Seq<EntryView>, link: Seq<char>) -> Seq<RecordId>
    decreases entries.len(),
{
    if entries.len() == 0 {
        Seq::empty()
    } else if entries.last().channel_link == link {
        records_for(entries.drop_last(), link).push(entries.last().record)
    } else {
        records_for(entries.drop_last(), link)
    }
}

/// The entry that an announcement of `record` under `link`, observed at
/// `observed_at`, leaves in the registry: the link is stored trimmed.
pub open spec fn entry_for(link: Seq<char>, observed_at: i64, record: RecordId) -> EntryView {
    EntryView { channel_link: trimmed(link), observed_at, record }
}

/// The registry that `before` becomes when the announcements `updates` are
/// registered one after the other, each given by its link as it was sent, the
/// time it was observed and its record.
pub open spec fn after_updates(before: Seq<EntryView>, updates: Seq<EntryView>) -> Seq<EntryView>
    decreases updates.len(),
{
    if updates.len() == 0 {
        before
    } else {
        let last = updates.last();
        after_updates(before, updates.drop_last()).push(
            entry_for(last.channel_link, last.observed_at, last.record),
        )
    }
}

/// A record is among those found under `link` exactly if some entry holds it
/// under that very link.
pub proof fn lemma_records_for_contains(entries: Seq<EntryView>, link: Seq<char>, record: RecordId)
    ensures
        records_for(entries, link).contains(record) <==> exists|i: int|
            0 <= i < entries.len() && (#[trigger] entries[i]).channel_link == link && entries[i].record
                == record,
    decreases entries.len(),
{
    if entries.len() > 0 {
        let rest = entries.drop_last();
        let last = entries.last();
        lemma_records_for_contains(rest, link, record);
        let found = records_for(rest, link);
        if records_for(entries, link).contains(record) {
            if last.channel_link == link && last.record == record {
                assert(entries[entries.len() - 1] == last);
            } else {
                if last.channel_link == link {
                    let k = choose|k: int|
                        0 <= k < found.push(last.record).len() && found.push(last.record)[k] == record;
                    assert(k < found.len());
                    assert(found[k] == record);
                }
                assert(found.contains(record));
                let i = choose|i: int|
                    0 <= i < rest.len() && (#[trigger] rest[i]).channel_link == link && rest[i].record
                        == record;
                assert(entries[i] == rest[i]);
            }
        }
        if exists|i: int|
            0 <= i < entries.len() && (#[trigger] entries[i]).channel_link == link && entries[i].record
                == record {
            let i = choose|i: int|
                0 <= i < entries.len() && (#[trigger] entries[i]).channel_link == link && entries[i].record
                    == record;
            if i < rest.len() {
                assert(rest[i] == entries[i]);
                assert(found.contains(record));
                let k = choose|k: int| 0 <= k < found.len() && found[k] == record;
                if last.channel_link == link {
                    assert(found.push(last.record)[k] == record);
                }
            } else {
                assert(found.push(last.record)[found.len() as int] == record);
            }
        }
    }
}

/// The records found under `link` are the records of the entries that hold
/// the link, in their order: every record is found as often as it was
/// announced under the link.
pub proof fn lemma_records_for_is_filter(entries: Seq<EntryView>, link: Seq<char>)
    ensures
        records_for(entries, link) == entries.filter(
            |e: EntryView| e.channel_link == link,
        ).map_values(|e: EntryView| e.record),
    decreases entries.len(),
{
    let holds = |e: EntryView| e.channel_link == link;
    let record = |e: EntryView| e.record;
    if entries.len() == 0 {
        assert(entries.filter(holds) =~= Seq::<EntryView>::empty()) by {
            reveal(Seq::filter);
        }
        assert(records_for(entries, link) =~= entries.filter(holds).map_values(record));
    } else {
        let rest = entries.drop_last();
        lemma_records_for_is_filter(rest, link);
        assert(entries.filter(holds) == if holds(entries.last()) {
            rest.filter(holds).push(entries.last())
        } else {
            rest.filter(holds)
        }) by {
            reveal(Seq::filter);
        }
        assert(records_for(entries, link) =~= entries.filter(holds).map_values(record));
    }
}

/// The entries that registering `updates` adds are the trimmed announcements,
/// in order, behind the entries that were there before.
pub proof fn lemma_after_updates(before: Seq<EntryView>, updates: Seq<EntryView>)
    ensures
        after_updates(before, updates).len() == before.len() + updates.len(),
        forall|i: int| 0 <= i < before.len() ==> after_updates(before, updates)[i] == before[i],
        forall|i: int|
            0 <= i < updates.len() ==> #[trigger] after_updates(before, updates)[before.len() + i]
                == entry_for(updates[i].channel_link, updates[i].observed_at, updates[i].record),
    decreases updates.len(),
{
    if updates.len() > 0 {
        lemma_after_updates(before, updates.drop_last());
    }
}

/// After any sequence of announcements to an empty registry, the records
/// found under a link are, as a set, exactly the records that were announced
/// under a link with the same trimmed text, however often each was announced.
pub proof fn lemma_lookup_after_updates(updates: Seq<EntryView>, link: Seq<char>)
    ensures
        records_for(after_updates(Seq::empty(), updates), trimmed(link)).to_set() == Set::new(
            |record: RecordId|
                exists|i: int|
                    0 <= i < updates.len() && trimmed((#[trigger] updates[i]).channel_link) == trimmed(
                        link,
                    ) && updates[i].record == record,
        ),
{
    let registry = after_updates(Seq::empty(), updates);
    let found = records_for(registry, trimmed(link));
    let announced = Set::new(
        |record: RecordId|
            exists|i: int|
                0 <= i < updates.len() && trimmed((#[trigger] updates[i]).channel_link) == trimmed(link)
                    && updates[i].record == record,
    );
    lemma_after_updates(Seq::empty(), updates);
    assert forall|record: RecordId| found.to_set().contains(record) <==> announced.contains(
        record,
    ) by {
        lemma_records_for_contains(registry, trimmed(link), record);
        if found.contains(record) {
            let i = choose|i: int|
                0 <= i < registry.len() && (#[trigger] registry[i]).channel_link == trimmed(link)
                    && registry[i].record == record;
            assert(registry[0 + i] == entry_for(
                updates[i].channel_link,
                updates[i].observed_at,
                updates[i].record,
            ));
            assert(trimmed(updates[i].channel_link) == trimmed(link) && updates[i].record == record);
        }
        if announced.contains(record) {
            let i = choose|i: int|
                0 <= i < updates.len() && trimmed((#[trigger] updates[i]).channel_link) == trimmed(link)
                    && updates[i].record == record;
            assert(registry[0 + i].channel_link == trimmed(link) && registry[0 + i].record == record);
        }
    }
    assert(found.to_set() =~= announced);
}

/// A stored link neither starts nor ends with whitespace, so that trimming
/// it again at a lookup would change nothing.
pub proof fn lemma_stored_link_is_trimmed(link: Seq<char>, observed_at: i64, record: RecordId)
    ensures
        is_trimmed(entry_for(link, observed_at, record).channel_link),
        trimmed(entry_for(link, observed_at, record).channel_link) == entry_for(
            link,
            observed_at,
            record,
        ).channel_link,
{
    lemma_trimmed_is_trimmed(link);
}

/// A link under which no entry is stored has no records: the answer is
/// empty.
pub proof fn lemma_unregistered_link(entries: Seq<EntryView>, link: Seq<char>)
    requires
        forall|i: int| 0 <= i < entries.len() ==> (#[trigger] entries[i]).channel_link != link,
    ensures
        records_for(entries, link) == Seq::<RecordId>::empty(),
    decreases entries.len(),
{
    if entries.len() > 0 {
        assert(entries[entries.len() - 1].channel_link != link);
        let rest = entries.drop_last();
        assert forall|i: int| 0 <= i < rest.len() implies (#[trigger] rest[i]).channel_link
            != link by {
            assert(rest[i] == entries[i]);
        }
        lemma_unregistered_link(rest, link);
    }
}

/// An announcement that has been registered is seen by every later lookup of
/// its link, whole and behind the records that were found before it.
pub proof fn lemma_registered_is_seen(
    entries: Seq<EntryView>,
    link: Seq<char>,
    observed_at: i64,
    record: RecordId,
)
    ensures
        records_for(entries.push(entry_for(link, observed_at, record)), trimmed(link))
            == records_for(entries, trimmed(link)).push(record),
{
    let after = entries.push(entry_for(link, observed_at, record));
    assert(after.drop_last() =~= entries);
}

/// The announcements that a tracker has accepted, oldest first. Nothing is
/// ever removed or merged: an announcement that is repeated is stored again.
pub struct Registry {
    entries: Vec<RegistryEntry>,
}

impl View for Registry {
    type V = Seq<EntryView>;

    closed spec fn view(&self) -> Seq<EntryView> {
        Seq::new(self.entries@.len(), |i: int| self.entries@[i]@)
    }
}

impl Registry {
    /// A registry without entries.
    pub fn new() -> (r: Registry)
        ensures
            r@ == Seq::<EntryView>::empty(),
    {
        Registry { entries: Vec::new() }
    }

    /// The number of entries.
    pub fn len(&self) -> (n: usize)
        ensures
            n == self@.len(),
    {
        self.entries.len()
    }

    /// The entry at `index`, counted from the oldest, if there are that
    /// many.
    pub fn entry(&self, index: usize) -> (e: Option<&RegistryEntry>)
        ensures
            index < self@.len() ==> e is Some && e->Some_0@ == self@[index as int],
            index >= self@.len() ==> e is None,
    {
        if index < self.entries.len() {
            Some(&self.entries[index])
        } else {
            None
        }
    }

    /// Appends the announcement of `record` under `link`, observed at
    /// `observed_at`. The link is stored without its leading and trailing
    /// whitespace; the earlier entries stay as they are.
    pub fn register(&mut self, link: &str, observed_at: i64, record: RecordId)
        ensures
            final(self)@ == old(self)@.push(entry_for(link@, observed_at, record)),
    {
        let entry = RegistryEntry { channel_link: trim(link), observed_at, record };
        self.entries.push(entry);
        assert(self@ =~= old(self)@.push(entry_for(link@, observed_at, record)));
    }

    /// The records registered under `link`: `link` is trimmed, and the record
    /// of every entry whose stored link is exactly the trimmed text is
    /// returned, oldest first, repeated as often as it was announced. The age
    /// of an entry plays no part.
    pub fn lookup(&self, link: &str) -> (records: Vec<RecordId>)
        ensures
            records@ == records_for(self@, trimmed(link@)),
    {
        let wanted = trim(link);
        let mut records: Vec<RecordId> = Vec::new();
        let mut i: usize = 0;
        while i < self.entries.len()
            invariant
                i <= self.entries.len(),
                wanted@ == trimmed(link@),
                records@ == records_for(self@.take(i as int), wanted@),
            decreases self.entries.len() - i,
        {
            let entry = &self.entries[i];
            assert(self@.take(i as int + 1).drop_last() =~= self@.take(i as int));
            assert(self@.take(i as int + 1).last() == entry@);
            if entry.channel_link == wanted {
                records.push(entry.record);
            }
            i = i + 1;
        }
        assert(self@.take(i as int) =~= self@);
        records
    }
}

} // verus!
