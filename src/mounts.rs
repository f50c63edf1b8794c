use vstd::prelude::*;
use crate::text::{
    has_prefix, contains_text, occurs_in, same_text, text_less, text_lt, lemma_text_lt_total,
    lemma_text_lt_transitive,
};

verus! {

/// A separator: a newline when splitting lines, any blank when splitting
/// fields.
pub open spec fn is_sep(c: char, lines: bool) -> bool {
    if lines { c == '\n' } else { c == ' ' || c == '\t' || c == '\r' || c == '\n' }
}

/// Tokens finished so far and the token being read, after reading `s`.
pub open spec fn split_state(s: Seq<char>, lines: bool) -> (Seq<Seq<char>>, Seq<char>)
    decreases s.len(),
{
    if s.len() == 0 {
        (Seq::empty(), Seq::empty())
    } else {
        let (done, cur) = split_state(s.drop_last(), lines);
        if is_sep(s.last(), lines) {
            if cur.len() > 0 { (done.push(cur), Seq::empty()) } else { (done, Seq::empty()) }
        } else {
            (done, cur.push(s.last()))
        }
    }
}

/// The non-empty separator-free pieces of `s`, in order.
pub open spec fn tokens(s: Seq<char>, lines: bool) -> Seq<Seq<char>> {
    let (done, cur) = split_state(s, lines);
    if cur.len() > 0 { done.push(cur) } else { done }
}

pub open spec fn views(v: Seq<String>) -> Seq<Seq<char>> {
    v.map_values(|t: String| t@)
}

/// Splits `s` into its non-empty pieces between separators.
pub fn split_tokens(s: &str, lines: bool) -> (r: Vec<String>)
    ensures
        views(r@) == tokens(s@, lines),
{
    let n = s.unicode_len();
    let mut out: Vec<String> = Vec::new();
    let mut start: usize = 0;
    let mut i: usize = 0;
    while i < n
        invariant
            n == s@.len(),
            0 <= start <= i <= n,
            split_state(s@.subrange(0, i as int), lines) == (views(out@), s@.subrange(start as int, i as int)),
        decreases n - i,
    {
        let c = s.get_char(i);
        let ghost pre = s@.subrange(0, i as int + 1);
        assert(pre.drop_last() =~= s@.subrange(0, i as int));
        assert(pre.last() == c);
        let sep = if lines { c == '\n' } else { c == ' ' || c == '\t' || c == '\r' || c == '\n' };
        if sep {
            if start < i {
                let t = s.substring_char(start, i).to_owned();
                let ghost before = out@;
                out.push(t);
                assert(views(out@) =~= views(before).push(s@.subrange(start as int, i as int)));
            }
            start = i + 1;
            assert(s@.subrange(start as int, i as int + 1) =~= Seq::<char>::empty());
        } else {
            assert(s@.subrange(start as int, i as int + 1) =~= s@.subrange(start as int, i as int).push(c));
        }
        i += 1;
    }
    assert(s@.subrange(0, n as int) =~= s@);
    if start < n {
        let t = s.substring_char(start, n).to_owned();
        let ghost before = out@;
        out.push(t);
        assert(views(out@) =~= views(before).push(s@.subrange(start as int, n as int)));
    }
    out
}

pub open spec fn starts(m: Seq<char>, p: Seq<char>) -> bool {
    p.len() <= m.len() && m.subrange(0, p.len() as int) == p
}

/// A mount point worth a full scan: a data volume or home directory (or the
/// root), not under a system directory, not a snapshot, an app-center
/// directory or a special kernel mount, and not of a virtual or overlay
/// filesystem type.
pub open spec fn mount_kept(m: Seq<char>, t: Seq<char>) -> bool {
    &&& !(starts(m, "/proc"@) || starts(m, "/sys"@) || starts(m, "/dev"@) || starts(m, "/run"@)
        || starts(m, "/tmp"@) || starts(m, "/snap"@))
    &&& !occurs_in(m, ".zfs/snapshot"@)
    &&& !occurs_in(m, "/@appcenter/"@)
    &&& !(t == "overlay"@ || t == "proc"@ || t == "sysfs"@ || t == "debugfs"@ || t == "tracefs"@)
    &&& !(occurs_in(m, "/rpc_pipefs"@) || occurs_in(m, "/binfmt_misc"@) || occurs_in(m, "/nfsd"@)
        || occurs_in(m, "/fuse/connections"@) || occurs_in(m, "/bpf"@) || occurs_in(m, "/pstore"@)
        || occurs_in(m, "/efivars"@))
    &&& (m == "/"@ || starts(m, "/vol"@) || starts(m, "/data"@) || starts(m, "/mnt"@)
        || starts(m, "/home"@) || starts(m, "/root"@))
}

/// Whether a mount point of the given filesystem type is scanned in a full scan.
pub fn keep_mount(m: &str, t: &str) -> (r: bool)
    ensures
        r == mount_kept(m@, t@),
{
    if has_prefix(m, "/proc") || has_prefix(m, "/sys") || has_prefix(m, "/dev") || has_prefix(m, "/run")
        || has_prefix(m, "/tmp") || has_prefix(m, "/snap") {
        return false;
    }
    if contains_text(m, ".zfs/snapshot") || contains_text(m, "/@appcenter/") {
        return false;
    }
    if same_text(t, "overlay") || same_text(t, "proc") || same_text(t, "sysfs") || same_text(t, "debugfs")
        || same_text(t, "tracefs") {
        return false;
    }
    if contains_text(m, "/rpc_pipefs") || contains_text(m, "/binfmt_misc") || contains_text(m, "/nfsd")
        || contains_text(m, "/fuse/connections") || contains_text(m, "/bpf") || contains_text(m, "/pstore")
        || contains_text(m, "/efivars") {
        return false;
    }
    same_text(m, "/") || has_prefix(m, "/vol") || has_prefix(m, "/data") || has_prefix(m, "/mnt")
        || has_prefix(m, "/home") || has_prefix(m, "/root")
}

/// Mount point a line of the mount table names for a full scan, if it names
/// one worth scanning: its second field, with the third as filesystem type.
pub open spec fn line_mount(line: Seq<char>) -> Option<Seq<char>> {
    let f = tokens(line, false);
    if f.len() >= 2 && mount_kept(f[1], if f.len() >= 3 { f[2] } else { Seq::empty() }) {
        Some(f[1])
    } else {
        None
    }
}

/// `m` is kept from some line of the mount table `content`.
pub open spec fn listed_mount(content: Seq<char>, m: Seq<char>) -> bool {
    exists|i: int| 0 <= i < tokens(content, true).len() && line_mount(#[trigger] tokens(content, true)[i]) == Some(m)
}

/// Strictly increasing: sorted, without duplicates.
pub open spec fn ascending(v: Seq<Seq<char>>) -> bool {
    forall|i: int, j: int| 0 <= i < j < v.len() ==> text_lt(v[i], v[j])
}

/// Adds `x` to a strictly increasing list unless it is there already.
fn insert_sorted(v: &mut Vec<String>, x: String)
    requires
        ascending(views(old(v)@)),
    ensures
        ascending(views(final(v)@)),
        forall|y: Seq<char>| #[trigger] views(final(v)@).contains(y) == (views(old(v)@).contains(y) || y == x@),
{
    let n = v.len();
    let mut p: usize = 0;
    while p < n && text_less(v[p].as_str(), x.as_str())
        invariant
            n == v@.len(),
            0 <= p <= n,
            forall|k: int| 0 <= k < p ==> text_lt(v@[k]@, x@),
        decreases n - p,
    {
        p += 1;
    }
    let ghost old_v = views(v@);
    if p < n && same_text(v[p].as_str(), x.as_str()) {
        proof {
            assert(old_v[p as int] == x@);
        }
        return;
    }
    proof {
        if p < n {
            lemma_text_lt_total(v@[p as int]@, x@);
        }
    }
    v.insert(p, x);
    proof {
        let nv = views(v@);
        assert(nv =~= old_v.insert(p as int, x@));
        assert forall|i: int, j: int| 0 <= i < j < nv.len() implies text_lt(nv[i], nv[j]) by {
            if j < p {
            } else if i < p && j == p {
                assert(nv[i] == old_v[i]);
            } else if i < p && j > p {
                assert(nv[j] == old_v[j - 1]);
                if j - 1 > p {
                    lemma_text_lt_transitive(x@, old_v[p as int], old_v[j - 1]);
                }
                lemma_text_lt_transitive(old_v[i], x@, old_v[j - 1]);
            } else if i == p {
                assert(nv[j] == old_v[j - 1]);
                if j - 1 > p {
                    lemma_text_lt_transitive(x@, old_v[p as int], old_v[j - 1]);
                }
            } else {
                assert(nv[i] == old_v[i - 1]);
                assert(nv[j] == old_v[j - 1]);
            }
        }
        assert forall|y: Seq<char>| #[trigger] nv.contains(y) == (old_v.contains(y) || y == x@) by {
            if nv.contains(y) {
                let k = choose|k: int| 0 <= k < nv.len() && nv[k] == y;
                if k < p {
                    assert(old_v[k] == y);
                } else if k > p {
                    assert(old_v[k - 1] == y);
                }
            }
            if old_v.contains(y) {
                let k = choose|k: int| 0 <= k < old_v.len() && old_v[k] == y;
                if k < p {
                    assert(nv[k] == y);
                } else {
                    assert(nv[k + 1] == y);
                }
            }
            if y == x@ {
                assert(nv[p as int] == y);
            }
        }
    }
}

/// Directories a full scan covers, from the text of the mount table: the
/// kept mount points, sorted and without duplicates; the root alone when
/// none is kept.
pub fn full_scan_paths(content: &str) -> (r: Vec<String>)
    ensures
        (forall|m: Seq<char>| !listed_mount(content@, m)) ==> views(r@) == seq!["/"@],
        (exists|m: Seq<char>| listed_mount(content@, m)) ==> ascending(views(r@))
            && forall|m: Seq<char>| #[trigger] views(r@).contains(m) == listed_mount(content@, m),
{
    let lines = split_tokens(content, true);
    let mut out: Vec<String> = Vec::new();
    let mut i: usize = 0;
    while i < lines.len()
        invariant
            0 <= i <= lines@.len(),
            views(lines@) == tokens(content@, true),
            ascending(views(out@)),
            forall|m: Seq<char>| #[trigger] views(out@).contains(m) == exists|k: int| 0 <= k < i
                && line_mount(#[trigger] tokens(content@, true)[k]) == Some(m),
        decreases lines@.len() - i,
    {
        let fields = split_tokens(lines[i].as_str(), false);
        let ghost line = lines@[i as int]@;
        assert(line == tokens(content@, true)[i as int]);
        let ghost before = views(out@);
        if fields.len() >= 2 {
            let kept = if fields.len() >= 3 {
                keep_mount(fields[1].as_str(), fields[2].as_str())
            } else {
                keep_mount(fields[1].as_str(), "")
            };
            if kept {
                let m = fields[1].clone();
                insert_sorted(&mut out, m);
            }
        }
        proof {
            let f = tokens(line, false);
            if f.len() >= 2 {
                assert(views(fields@)[1] == fields@[1]@);
            }
            if f.len() >= 3 {
                assert(views(fields@)[2] == fields@[2]@);
            } else {
                reveal_strlit("");
                assert(""@ =~= Seq::<char>::empty());
            }
            assert forall|m: Seq<char>| #[trigger] views(out@).contains(m) == exists|k: int| 0 <= k < i + 1
                && line_mount(#[trigger] tokens(content@, true)[k]) == Some(m) by {
                if exists|k: int| 0 <= k < i + 1 && line_mount(#[trigger] tokens(content@, true)[k]) == Some(m) {
                    let k = choose|k: int| 0 <= k < i + 1 && line_mount(#[trigger] tokens(content@, true)[k]) == Some(m);
                    if k < i {
                        assert(before.contains(m));
                    }
                }
                if before.contains(m) {
                    let k = choose|k: int| 0 <= k < i && line_mount(#[trigger] tokens(content@, true)[k]) == Some(m);
                    assert(0 <= k < i + 1);
                }
            }
        }
        i += 1;
    }
    if out.len() == 0 {
        proof {
            assert forall|m: Seq<char>| !listed_mount(content@, m) by {
                if listed_mount(content@, m) {
                    let k = choose|k: int| 0 <= k < tokens(content@, true).len() && line_mount(#[trigger] tokens(content@, true)[k]) == Some(m);
                    assert(views(out@).contains(m));
                }
            }
        }
        out.push(String::from_str("/"));
        proof {
            reveal_strlit("/");
            assert(views(out@) =~= seq!["/"@]);
        }
    } else {
        proof {
            let m0 = views(out@)[0];
            assert(views(out@).contains(m0));
            assert(listed_mount(content@, m0));
        }
    }
    out
}

} // verus!
