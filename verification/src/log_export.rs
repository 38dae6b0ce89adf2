//! The text of a log export: a header with the export time, then one line
//! per log entry (`[timestamp] [LEVEL] message`, each bracket only when its
//! value is present).

use vstd::prelude::*;

use crate::text::owned;
use vstd::string::{StrSliceExecFns, StringExecFns};

verus! {

/// One logged event, as the export reads it: the timestamp text, the text
/// of whichever level field is set, and the message.
#[derive(Debug, Clone, PartialEq)]
pub struct LogRecord {
    /// Timestamp text (empty when absent).
    pub timestamp: String,
    /// Info level label (empty unless the entry is info).
    pub info: String,
    /// Debug level label.
    pub debug: String,
    /// Warning level label.
    pub warning: String,
    /// Error level label.
    pub error: String,
    /// The message.
    pub message: String,
}

/// The level label of an entry: the first non-empty of info, debug,
/// warning, error; empty when none is set.
pub open spec fn level_label(e: LogRecord) -> Seq<char> {
    if e.info@.len() > 0 {
        e.info@
    } else if e.debug@.len() > 0 {
        e.debug@
    } else if e.warning@.len() > 0 {
        e.warning@
    } else if e.error@.len() > 0 {
        e.error@
    } else {
        Seq::empty()
    }
}

/// `[x] ` when `x` is non-empty, nothing otherwise.
pub open spec fn bracketed(x: Seq<char>) -> Seq<char> {
    if x.len() > 0 {
        "["@ + x + "] "@
    } else {
        Seq::empty()
    }
}

/// The export line of an entry.
pub open spec fn entry_line(e: LogRecord) -> Seq<char> {
    bracketed(e.timestamp@) + bracketed(level_label(e)) + e.message@ + "\n"@
}

/// The export lines of the first `n` entries.
pub open spec fn entry_lines(entries: Seq<LogRecord>, n: int) -> Seq<char>
    decreases n,
{
    if n <= 0 {
        Seq::empty()
    } else {
        entry_lines(entries, n - 1) + entry_line(entries[n - 1])
    }
}

/// The export header.
pub open spec fn export_header(exported_at: Seq<char>) -> Seq<char> {
    "--- Logger Export ---\n"@ + "Exported: "@ + exported_at + "\n\n"@
}

/// The whole export text.
pub open spec fn export_text_spec(exported_at: Seq<char>, entries: Seq<LogRecord>) -> Seq<char> {
    export_header(exported_at) + entry_lines(entries, entries.len() as int)
}

/// The level label of an entry.
fn entry_level(e: &LogRecord) -> (r: &str)
    ensures
        r@ == level_label(*e),
{
    if e.info.as_str().unicode_len() > 0 {
        e.info.as_str()
    } else if e.debug.as_str().unicode_len() > 0 {
        e.debug.as_str()
    } else if e.warning.as_str().unicode_len() > 0 {
        e.warning.as_str()
    } else if e.error.as_str().unicode_len() > 0 {
        e.error.as_str()
    } else {
        proof {
            reveal_strlit("");
        }
        ""
    }
}

/// Append `[x] ` when `x` is non-empty.
fn push_bracketed(out: &mut String, x: &str)
    ensures
        final(out)@ == old(out)@ + bracketed(x@),
{
    if x.unicode_len() > 0 {
        out.append("[");
        out.append(x);
        out.append("] ");
    } else {
        assert(old(out)@ + bracketed(x@) =~= old(out)@);
    }
}

/// The export text for the given export time and entries.
pub fn export_text(exported_at: &str, entries: &Vec<LogRecord>) -> (r: String)
    ensures
        r@ == export_text_spec(exported_at@, entries@),
{
    let mut out = owned("--- Logger Export ---\n");
    out.append("Exported: ");
    out.append(exported_at);
    out.append("\n\n");
    let ghost header = out@;
    let mut i: usize = 0;
    while i < entries.len()
        invariant
            i <= entries@.len(),
            header == export_header(exported_at@),
            out@ == header + entry_lines(entries@, i as int),
        decreases entries@.len() - i,
    {
        let e = &entries[i];
        let ghost before = out@;
        push_bracketed(&mut out, e.timestamp.as_str());
        push_bracketed(&mut out, entry_level(e));
        out.append(e.message.as_str());
        out.append("\n");
        assert(out@ =~= before + entry_line(entries@[i as int]));
        i = i + 1;
    }
    out
}

/// Appending an entry keeps the lines of the entries before it.
proof fn lemma_entry_lines_push(entries: Seq<LogRecord>, e: LogRecord, k: int)
    requires
        0 <= k <= entries.len(),
    ensures
        entry_lines(entries.push(e), k) == entry_lines(entries, k),
    decreases k,
{
    if k > 0 {
        lemma_entry_lines_push(entries, e, k - 1);
        assert(entries.push(e)[k - 1] == entries[k - 1]);
    }
}

/// The export of no entries is the header: the title line, `Exported: `
/// with the export time, and a blank line.
pub proof fn lemma_export_of_nothing(exported_at: Seq<char>)
    ensures
        export_text_spec(exported_at, Seq::empty()) == "--- Logger Export ---\n"@ + "Exported: "@
            + exported_at + "\n\n"@,
{
    assert(entry_lines(Seq::<LogRecord>::empty(), 0) =~= Seq::<char>::empty());
    assert(export_text_spec(exported_at, Seq::empty()) =~= "--- Logger Export ---\n"@
        + "Exported: "@ + exported_at + "\n\n"@);
}

/// Each entry adds one line to the export: its timestamp in brackets (when
/// it has one), then the level in brackets (the first of info, debug,
/// warning, error that is set; no bracket when none is), then the message
/// and a newline.
pub proof fn lemma_export_entry_line(exported_at: Seq<char>, entries: Seq<LogRecord>, e: LogRecord)
    ensures
        ({
            let before = export_text_spec(exported_at, entries);
            let after = export_text_spec(exported_at, entries.push(e));
            let stamp = if e.timestamp@.len() > 0 {
                "["@ + e.timestamp@ + "] "@
            } else {
                Seq::<char>::empty()
            };
            &&& e.info@.len() > 0 ==> after == before + stamp + "["@ + e.info@ + "] "@ + e.message@
                + "\n"@
            &&& e.info@.len() == 0 && e.debug@.len() > 0 ==> after == before + stamp + "["@
                + e.debug@ + "] "@ + e.message@ + "\n"@
            &&& e.info@.len() == 0 && e.debug@.len() == 0 && e.warning@.len() > 0 ==> after
                == before + stamp + "["@ + e.warning@ + "] "@ + e.message@ + "\n"@
            &&& e.info@.len() == 0 && e.debug@.len() == 0 && e.warning@.len() == 0
                && e.error@.len() > 0 ==> after == before + stamp + "["@ + e.error@ + "] "@
                + e.message@ + "\n"@
            &&& e.info@.len() == 0 && e.debug@.len() == 0 && e.warning@.len() == 0
                && e.error@.len() == 0 ==> after == before + stamp + e.message@ + "\n"@
        }),
{
    let n = entries.len() as int;
    lemma_entry_lines_push(entries, e, n);
    assert(entries.push(e)[n] == e);
    let before = export_text_spec(exported_at, entries);
    let after = export_text_spec(exported_at, entries.push(e));
    assert(after =~= before + entry_line(e));
    let stamp = if e.timestamp@.len() > 0 {
        "["@ + e.timestamp@ + "] "@
    } else {
        Seq::<char>::empty()
    };
    assert(bracketed(e.timestamp@) == stamp);
    let lvl = level_label(e);
    if lvl.len() > 0 {
        assert(after =~= before + stamp + "["@ + lvl + "] "@ + e.message@ + "\n"@);
    } else {
        assert(after =~= before + stamp + e.message@ + "\n"@);
    }
}

/// `chrono::Local::now().format("%Y-%m-%d %H:%M:%S")`: the local time as
/// text (it depends on the clock and time zone, so nothing is stated of it).
#[verifier::external_body]
fn local_timestamp() -> String {
    chrono::Local::now().format("%Y-%m-%d %H:%M:%S").to_string()
}

/// The export text stamped with the current local time.
pub fn export_text_now(entries: &Vec<LogRecord>) -> (r: String)
    ensures
        exists|stamp: Seq<char>| r@ == export_text_spec(stamp, entries@),
{
    let stamp = local_timestamp();
    export_text(stamp.as_str(), entries)
}

} // verus!
