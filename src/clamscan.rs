use vstd::prelude::*;
use crate::mounts::starts;
use crate::text::{contains_text, has_prefix, has_suffix, occurs_in, trim_of, trim_text};

verus! {

/// Index of the last `c` in `s`, or -1 when there is none.
pub open spec fn last_index(s: Seq<char>, c: char) -> int
    decreases s.len(),
{
    if s.len() == 0 {
        -1
    } else if s.last() == c {
        s.len() - 1
    } else {
        last_index(s.drop_last(), c)
    }
}

proof fn lemma_last_index(s: Seq<char>, c: char, k: int)
    requires
        -1 <= k < s.len(),
        forall|j: int| k < j < s.len() ==> s[j] != c,
        k >= 0 ==> s[k] == c,
    ensures
        last_index(s, c) == k,
    decreases s.len(),
{
    if s.len() > 0 && k < s.len() - 1 {
        lemma_last_index(s.drop_last(), c, k);
    }
}

fn find_last(s: &str, c: char) -> (r: Option<usize>)
    ensures
        r matches Some(k) ==> last_index(s@, c) == k && k < s@.len(),
        r is None ==> last_index(s@, c) == -1,
{
    let n = s.unicode_len();
    let mut i = n;
    while i > 0
        invariant
            n == s@.len(),
            0 <= i <= n,
            forall|j: int| i <= j < n ==> s@[j] != c,
        decreases i,
    {
        if s.get_char(i - 1) == c {
            proof {
                lemma_last_index(s@, c, i - 1);
            }
            return Some(i - 1);
        }
        i -= 1;
    }
    proof {
        lemma_last_index(s@, c, -1);
    }
    None
}

/// `s` ends with `t`.
pub open spec fn ends(s: Seq<char>, t: Seq<char>) -> bool {
    t.len() <= s.len() && s.subrange(s.len() - t.len(), s.len() as int) == t
}

/// Lines of the scanner's report that name no file: blank lines, the
/// summary and banner lines, and errors.
pub open spec fn skipped_line(l: Seq<char>) -> bool {
    l.len() == 0 || starts(l, "---"@) || starts(l, "LibClamAV"@) || starts(l, "Known viruses"@)
        || starts(l, "Engine version"@) || starts(l, "Scanned directories"@) || starts(l, "Scanned files"@)
        || starts(l, "Infected files"@) || starts(l, "Data scanned"@) || starts(l, "Data read"@)
        || starts(l, "Time:"@) || starts(l, "Start Date"@) || starts(l, "End Date"@) || occurs_in(l, "ERROR"@)
}

/// The file a report line names and its status, "OK" or "FOUND": what
/// precedes the line's last ':' and what follows it, both trimmed.
pub open spec fn scan_line(l: Seq<char>) -> Option<(Seq<char>, Seq<char>)> {
    let k = last_index(l, ':');
    if skipped_line(l) || k < 0 {
        None
    } else {
        let status = trim_of(l.subrange(k + 1, l.len() as int));
        let path = trim_of(l.subrange(0, k));
        if ends(status, "OK"@) {
            Some((path, "OK"@))
        } else if ends(status, "FOUND"@) {
            Some((path, "FOUND"@))
        } else {
            None
        }
    }
}

/// Parses one line of the command-line scanner's report into the file it
/// names and its status.
pub fn parse_scan_line(line: &str) -> (r: Option<(String, String)>)
    ensures
        r is None <==> scan_line(line@) is None,
        r matches Some((p, s)) ==> scan_line(line@) == Some((p@, s@)),
{
    if line.unicode_len() == 0 || has_prefix(line, "---") || has_prefix(line, "LibClamAV")
        || has_prefix(line, "Known viruses") || has_prefix(line, "Engine version")
        || has_prefix(line, "Scanned directories") || has_prefix(line, "Scanned files")
        || has_prefix(line, "Infected files") || has_prefix(line, "Data scanned")
        || has_prefix(line, "Data read") || has_prefix(line, "Time:") || has_prefix(line, "Start Date")
        || has_prefix(line, "End Date") || contains_text(line, "ERROR") {
        return None;
    }
    let k = match find_last(line, ':') {
        Some(k) => k,
        None => {
            return None;
        },
    };
    let n = line.unicode_len();
    let path = trim_text(line.substring_char(0, k));
    let status = trim_text(line.substring_char(k + 1, n));
    if has_suffix(status.as_str(), "OK") {
        Some((path, String::from_str("OK")))
    } else if has_suffix(status.as_str(), "FOUND") {
        Some((path, String::from_str("FOUND")))
    } else {
        None
    }
}

/// `s` without its trailing ':' characters.
pub open spec fn strip_colons(s: Seq<char>) -> Seq<char>
    decreases s.len(),
{
    if s.len() > 0 && s.last() == ':' {
        strip_colons(s.drop_last())
    } else {
        s
    }
}

/// The file and signature a "FOUND" line names: the line splits at its last
/// two spaces into path, signature and status; the path loses trailing ':'.
pub open spec fn threat_line(l: Seq<char>) -> Option<(Seq<char>, Seq<char>)> {
    let k1 = last_index(l, ' ');
    if k1 < 0 {
        None
    } else {
        let k2 = last_index(l.subrange(0, k1), ' ');
        if k2 < 0 {
            None
        } else {
            Some((strip_colons(l.subrange(0, k2)), l.subrange(k2 + 1, k1)))
        }
    }
}

/// Parses a "path: Signature FOUND" line into the path and the signature.
pub fn parse_threat_line(line: &str) -> (r: Option<(String, String)>)
    ensures
        r is None <==> threat_line(line@) is None,
        r matches Some((p, v)) ==> threat_line(line@) == Some((p@, v@)),
{
    let k1 = match find_last(line, ' ') {
        Some(k) => k,
        None => {
            return None;
        },
    };
    let head = line.substring_char(0, k1);
    let k2 = match find_last(head, ' ') {
        Some(k) => k,
        None => {
            return None;
        },
    };
    let virus = line.substring_char(k2 + 1, k1).to_owned();
    assert(virus@ =~= line@.subrange(k2 + 1, k1 as int));
    let mut end = k2;
    while end > 0 && line.get_char(end - 1) == ':'
        invariant
            0 <= end <= k2,
            k2 < k1 < line@.len(),
            strip_colons(line@.subrange(0, end as int)) == strip_colons(line@.subrange(0, k2 as int)),
        decreases end,
    {
        assert(line@.subrange(0, end as int).drop_last() =~= line@.subrange(0, end - 1));
        end -= 1;
    }
    assert(head@.subrange(0, k2 as int) =~= line@.subrange(0, k2 as int));
    let path = line.substring_char(0, end).to_owned();
    Some((path, virus))
}

} // verus!
