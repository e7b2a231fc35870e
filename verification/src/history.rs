//! The history of output text, newest first and bounded in length.
use vstd::prelude::*;
use crate::pipeline::Output;

verus! {

/// How many entries the history keeps; the oldest go first.
pub const MAX_HISTORY_ENTRIES: usize = 500;

/// One output text.
#[derive(Clone, Debug)]
pub struct HistoryEntry {
    /// Seconds since the Unix epoch.
    pub timestamp: u64,
    pub text: String,
    /// Whether `text` is a translation.
    pub translated: bool,
    /// The translation's target language; empty when not translated.
    pub target_language: String,
    /// The recognised text that was translated; empty when not translated.
    pub source_text: String,
}

/// Whether `e` records `out`, output at `timestamp`.
pub open spec fn records(e: HistoryEntry, timestamp: u64, out: Output) -> bool {
    &&& e.timestamp == timestamp
    &&& e.text@ == out.text@
    &&& e.translated == out.translated
    &&& e.target_language@ == out.target_language@
    &&& e.source_text@ == out.source_text@
}

/// The history entry for a text that was output at `timestamp`.
pub fn entry_for(timestamp: u64, out: Output) -> (e: HistoryEntry)
    ensures
        records(e, timestamp, out),
        e.timestamp == timestamp && e.text@ == out.text@ && e.translated == out.translated,
        e.target_language@ == out.target_language@ && e.source_text@ == out.source_text@,
{
    HistoryEntry {
        timestamp,
        text: out.text,
        translated: out.translated,
        target_language: out.target_language,
        source_text: out.source_text,
    }
}

/// The history after `entry` is recorded: the entry first, then the older
/// entries, cut to `MAX_HISTORY_ENTRIES`.
pub open spec fn with_entry(entries: Seq<HistoryEntry>, entry: HistoryEntry) -> Seq<HistoryEntry> {
    let all = seq![entry] + entries;
    if all.len() <= MAX_HISTORY_ENTRIES {
        all
    } else {
        all.subrange(0, MAX_HISTORY_ENTRIES as int)
    }
}

/// Records a new entry in front of the history; beyond the limit, the oldest
/// entries are dropped.
pub fn add_entry(entries: &mut Vec<HistoryEntry>, entry: HistoryEntry)
    ensures
        final(entries)@ == with_entry(old(entries)@, entry),
        final(entries)@[0] == entry,
        final(entries)@.len() == if old(entries)@.len() < MAX_HISTORY_ENTRIES {
            old(entries)@.len() + 1int
        } else {
            MAX_HISTORY_ENTRIES as int
        },
        forall|i: int| 1 <= i < final(entries)@.len() ==> final(entries)@[i] == old(entries)@[i - 1],
{
    entries.insert(0, entry);
    assert(entries@ =~= seq![entry] + old(entries)@);
    entries.truncate(MAX_HISTORY_ENTRIES);
    assert(entries@ =~= with_entry(old(entries)@, entry));
}

/// The newest entry comes first, the history never exceeds its limit, and
/// the entries that stay keep their order behind the new one.
pub proof fn law_history_newest_first(entries: Seq<HistoryEntry>, entry: HistoryEntry)
    ensures
        with_entry(entries, entry)[0] == entry,
        with_entry(entries, entry).len() <= MAX_HISTORY_ENTRIES,
        with_entry(entries, entry).len() == if entries.len() < MAX_HISTORY_ENTRIES {
            entries.len() + 1int
        } else {
            MAX_HISTORY_ENTRIES as int
        },
        forall|i: int|
            0 <= i < with_entry(entries, entry).len() - 1 ==> #[trigger] with_entry(entries, entry)[i
                + 1] == entries[i],
{
}

/// First in, first out: when the history is full, recording an entry drops
/// exactly the oldest one.
pub proof fn law_history_drops_oldest(entries: Seq<HistoryEntry>, entry: HistoryEntry)
    requires
        entries.len() == MAX_HISTORY_ENTRIES,
    ensures
        with_entry(entries, entry) == seq![entry] + entries.drop_last(),
{
    assert(with_entry(entries, entry) =~= seq![entry] + entries.drop_last());
}

} // verus!
