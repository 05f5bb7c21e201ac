//! Liveness detection over a snapshot of the process table.  The host
//! enumerates the process directory and hands over one entry per item:
//! the entry's file name and, where it could still be read, the
//! process's command line.  An entry that vanished or was unreadable
//! mid-scan carries no command line and is skipped, never an error.

use vstd::prelude::*;

verus! {

/// One enumerated process-table entry: the directory entry's name and,
/// if it was readable, the command-line text of that process.
#[derive(Debug)]
pub struct ProcEntry {
    pub name: String,
    pub cmdline: Option<String>,
}

/// Every character of `s` is a decimal digit; process identifiers are
/// exactly the all-digit entry names.
pub open spec fn all_digits(s: Seq<char>) -> bool {
    forall|i: int| 0 <= i < s.len() ==> '0' <= #[trigger] s[i] <= '9'
}

/// `needle` occurs contiguously somewhere in `hay`.
pub open spec fn contains_seq(hay: Seq<char>, needle: Seq<char>) -> bool {
    exists|i: int|
        0 <= i && i + needle.len() <= hay.len() && #[trigger] hay.subrange(i, i + needle.len())
            == needle
}

/// The entry counts as the daemon: its name is an all-digit process
/// identifier, its command line was readable, and that command line
/// contains the identifying substring.
pub open spec fn entry_indicates_daemon(e: ProcEntry, pattern: Seq<char>) -> bool {
    &&& all_digits(e.name@)
    &&& e.cmdline matches Some(c) && contains_seq(c@, pattern)
}

/// Whether every character of `s` is a decimal digit.
pub fn is_all_digits(s: &str) -> (b: bool)
    ensures
        b == all_digits(s@),
{
    let len = s.unicode_len();
    let mut i: usize = 0;
    while i < len
        invariant
            len == s@.len(),
            0 <= i <= len,
            forall|k: int| 0 <= k < i ==> '0' <= #[trigger] s@[k] <= '9',
        decreases len - i,
    {
        let c = s.get_char(i);
        if c < '0' || c > '9' {
            return false;
        }
        i += 1;
    }
    true
}

/// Whether `needle` matches `hay` at position `at`.
fn matches_at(hay: &str, needle: &str, at: usize, hay_len: usize, needle_len: usize) -> (b: bool)
    requires
        hay_len == hay@.len(),
        needle_len == needle@.len(),
        at + needle_len <= hay_len,
    ensures
        b == (hay@.subrange(at as int, at + needle@.len()) == needle@),
{
    let mut j: usize = 0;
    while j < needle_len
        invariant
            hay_len == hay@.len(),
            needle_len == needle@.len(),
            at + needle_len <= hay_len,
            0 <= j <= needle_len,
            forall|k: int| 0 <= k < j ==> hay@[at + k] == needle@[k],
        decreases needle_len - j,
    {
        if hay.get_char(at + j) != needle.get_char(j) {
            proof {
                let sub = hay@.subrange(at as int, at + needle@.len());
                assert(sub[j as int] == hay@[at + j]);
            }
            return false;
        }
        j += 1;
    }
    proof {
        assert(hay@.subrange(at as int, at + needle@.len()) =~= needle@);
    }
    true
}

/// Whether `hay` contains `needle` as a contiguous substring.
pub fn str_contains(hay: &str, needle: &str) -> (b: bool)
    ensures
        b == contains_seq(hay@, needle@),
{
    let hay_len = hay.unicode_len();
    let needle_len = needle.unicode_len();
    if needle_len > hay_len {
        return false;
    }
    if needle_len == 0 {
        proof {
            assert(hay@.subrange(0, 0 + needle@.len() as int) =~= needle@);
        }
        return true;
    }
    let mut i: usize = 0;
    while i <= hay_len - needle_len
        invariant
            hay_len == hay@.len(),
            needle_len == needle@.len(),
            1 <= needle_len <= hay_len,
            0 <= i <= hay_len - needle_len + 1,
            forall|k: int|
                0 <= k < i ==> #[trigger] hay@.subrange(k, k + needle@.len()) != needle@,
        decreases hay_len - i,
    {
        if matches_at(hay, needle, i, hay_len, needle_len) {
            return true;
        }
        i += 1;
    }
    false
}

/// Whether `entry` counts as the daemon under `pattern`.
pub fn entry_matches(entry: &ProcEntry, pattern: &str) -> (b: bool)
    ensures
        b == entry_indicates_daemon(*entry, pattern@),
{
    if !is_all_digits(entry.name.as_str()) {
        return false;
    }
    match &entry.cmdline {
        Some(cmdline) => str_contains(cmdline.as_str(), pattern),
        None => false,
    }
}

/// Whether some entry of the snapshot shows the daemon alive: true
/// exactly when at least one enumerated entry is an all-digit process
/// identifier whose readable command line contains `pattern`.
/// Unreadable entries are skipped, never a failure.
pub fn is_daemon_running(snapshot: &Vec<ProcEntry>, pattern: &str) -> (found: bool)
    ensures
        found == exists|i: int|
            0 <= i < snapshot@.len() && entry_indicates_daemon(snapshot@[i], pattern@),
{
    let n = snapshot.len();
    let mut i: usize = 0;
    while i < n
        invariant
            n == snapshot@.len(),
            0 <= i <= n,
            forall|k: int| 0 <= k < i ==> !entry_indicates_daemon(snapshot@[k], pattern@),
        decreases n - i,
    {
        if entry_matches(&snapshot[i], pattern) {
            return true;
        }
        i += 1;
    }
    false
}

} // verus!
