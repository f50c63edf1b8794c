use vstd::prelude::*;

verus! {

/// Bytes that open every signature database header: "ClamAV-VDB:".
pub open spec fn vdb_magic() -> Seq<u8> {
    seq![67u8, 108u8, 97u8, 109u8, 65u8, 86u8, 45u8, 86u8, 68u8, 66u8, 58u8]
}

pub open spec fn is_colon(b: u8) -> bool {
    b == 58u8
}

pub open spec fn is_blank(b: u8) -> bool {
    b == 32u8 || b == 9u8 || b == 10u8 || b == 13u8
}

pub open spec fn is_digit(b: u8) -> bool {
    48u8 <= b <= 57u8
}

/// Index of the first ':' at or after `k`, or the length when there is none.
pub open spec fn next_colon(s: Seq<u8>, k: int) -> int
    decreases s.len() - k,
{
    if k >= s.len() {
        s.len() as int
    } else if is_colon(s[k]) {
        k
    } else {
        next_colon(s, k + 1)
    }
}

/// Value of a string of decimal digits.
pub open spec fn digits_value(s: Seq<u8>) -> int
    decreases s.len(),
{
    if s.len() == 0 {
        0
    } else {
        digits_value(s.drop_last()) * 10 + (s.last() - 48u8)
    }
}

/// The field between the second and third ':' of a header, blanks around
/// it removed, if the header has a second ':'.
pub open spec fn third_field(h: Seq<u8>) -> Option<Seq<u8>> {
    let second_colon = next_colon(h, 11);
    if second_colon >= h.len() {
        None
    } else {
        let field_end = next_colon(h, second_colon + 1);
        Some(h.subrange(second_colon + 1, field_end))
    }
}

/// A field with blanks on both ends removed.
pub open spec fn strip_blanks(f: Seq<u8>) -> Seq<u8>
    decreases f.len(),
{
    if f.len() > 0 && is_blank(f[0]) {
        strip_blanks(f.drop_first())
    } else if f.len() > 0 && is_blank(f.last()) {
        strip_blanks(f.drop_last())
    } else {
        f
    }
}

/// The number a field of decimal digits writes, if it is one that fits in
/// 32 bits.
pub open spec fn digits_version(d: Seq<u8>) -> Option<u32> {
    if d.len() > 0 && (forall|i: int| 0 <= i < d.len() ==> is_digit(#[trigger] d[i]))
        && digits_value(d) <= u32::MAX {
        Some(digits_value(d) as u32)
    } else {
        None
    }
}

/// Version a database header declares: the header opens with
/// "ClamAV-VDB:" and its third ':'-separated field, blanks removed, is a
/// decimal number that fits in 32 bits.
pub open spec fn header_version(h: Seq<u8>) -> Option<u32> {
    if h.len() >= 11 && h.subrange(0, 11) == vdb_magic() {
        match third_field(h) {
            Some(f) => digits_version(strip_blanks(f)),
            None => None,
        }
    } else {
        None
    }
}

proof fn lemma_next_colon_range(s: Seq<u8>, k: int)
    requires
        0 <= k <= s.len(),
    ensures
        k <= next_colon(s, k) <= s.len(),
    decreases s.len() - k,
{
    if k < s.len() && !is_colon(s[k]) {
        lemma_next_colon_range(s, k + 1);
    }
}

fn find_colon(h: &Vec<u8>, start: usize) -> (r: usize)
    requires
        start <= h@.len(),
    ensures
        r as int == next_colon(h@, start as int),
        start <= r <= h@.len(),
{
    proof {
        lemma_next_colon_range(h@, start as int);
    }
    let mut k = start;
    while k < h.len()
        invariant
            start <= k <= h@.len(),
            next_colon(h@, start as int) == next_colon(h@, k as int),
        decreases h@.len() - k,
    {
        if h[k] == 58u8 {
            return k;
        }
        k += 1;
    }
    k
}

proof fn lemma_strip(f: Seq<u8>, a: int, b: int)
    requires
        0 <= a <= b <= f.len(),
        forall|i: int| 0 <= i < a ==> is_blank(#[trigger] f[i]),
        forall|i: int| b <= i < f.len() ==> is_blank(#[trigger] f[i]),
        a < b ==> !is_blank(f[a]) && !is_blank(f[b - 1]),
        a == b ==> a == f.len(),
    ensures
        strip_blanks(f) == f.subrange(a, b),
    decreases f.len(),
{
    if a > 0 {
        let g = f.drop_first();
        assert forall|i: int| b - 1 <= i < g.len() implies is_blank(#[trigger] g[i]) by {
            assert(g[i] == f[i + 1]);
        }
        lemma_strip(g, a - 1, b - 1);
        assert(g.subrange(a - 1, b - 1) =~= f.subrange(a, b));
    } else if b < f.len() {
        let g = f.drop_last();
        lemma_strip(g, a, b);
        assert(g.subrange(a, b) =~= f.subrange(a, b));
    } else {
        assert(f.subrange(a, b) =~= f);
    }
}

/// The version a signature database header declares, if it declares one.
pub fn parse_cvd_version(header: &Vec<u8>) -> (r: Option<u32>)
    ensures
        r == header_version(header@),
{
    let n = header.len();
    if n < 11 {
        return None;
    }
    let magic: [u8; 11] = [67u8, 108u8, 97u8, 109u8, 65u8, 86u8, 45u8, 86u8, 68u8, 66u8, 58u8];
    let mut i: usize = 0;
    while i < 11
        invariant
            n == header@.len(),
            n >= 11,
            0 <= i <= 11,
            magic@ == vdb_magic(),
            forall|j: int| 0 <= j < i ==> header@[j] == vdb_magic()[j],
        decreases 11 - i,
    {
        if header[i] != magic[i] {
            assert(header@.subrange(0, 11)[i as int] != vdb_magic()[i as int]);
            return None;
        }
        i += 1;
    }
    assert(header@.subrange(0, 11) =~= vdb_magic());
    let second_colon = find_colon(header, 11);
    if second_colon >= n {
        return None;
    }
    let field_end = find_colon(header, second_colon + 1);
    let ghost f = header@.subrange(second_colon + 1, field_end as int);
    let mut a = second_colon + 1;
    while a < field_end && (header[a] == 32u8 || header[a] == 9u8 || header[a] == 10u8 || header[a] == 13u8)
        invariant
            second_colon + 1 <= a <= field_end <= n,
            n == header@.len(),
            f == header@.subrange(second_colon + 1, field_end as int),
            forall|k: int| second_colon + 1 <= k < a ==> is_blank(#[trigger] header@[k]),
        decreases field_end - a,
    {
        a += 1;
    }
    let mut b = field_end;
    while b > a && (header[b - 1] == 32u8 || header[b - 1] == 9u8 || header[b - 1] == 10u8 || header[b - 1] == 13u8)
        invariant
            a <= b <= field_end <= n,
            n == header@.len(),
            forall|k: int| b <= k < field_end ==> is_blank(#[trigger] header@[k]),
        decreases b - a,
    {
        b -= 1;
    }
    proof {
        assert forall|k: int| 0 <= k < a - (second_colon + 1) implies is_blank(#[trigger] f[k]) by {
            assert(f[k] == header@[second_colon + 1 + k]);
        }
        assert forall|k: int| b - (second_colon + 1) <= k < f.len() implies is_blank(#[trigger] f[k]) by {
            assert(f[k] == header@[second_colon + 1 + k]);
        }
        if a < b {
            assert(f[a - (second_colon + 1)] == header@[a as int]);
            assert(f[b - 1 - (second_colon + 1)] == header@[b - 1]);
        }
        lemma_strip(f, a - (second_colon + 1), b - (second_colon + 1));
        assert(f.subrange(a - (second_colon + 1), b - (second_colon + 1)) =~= header@.subrange(a as int, b as int));
    }
    if a == b {
        return None;
    }
    let ghost d = header@.subrange(a as int, b as int);
    assert(header_version(header@) == digits_version(d));
    let mut value: u64 = 0;
    let mut k = a;
    while k < b
        invariant
            a <= k <= b <= n,
            n == header@.len(),
            d == header@.subrange(a as int, b as int),
            header_version(header@) == digits_version(d),
            forall|j: int| a <= j < k ==> is_digit(#[trigger] header@[j]),
            value as int == digits_value(header@.subrange(a as int, k as int)),
            value <= u32::MAX,
        decreases b - k,
    {
        let c = header[k];
        if c < 48u8 || c > 57u8 {
            assert(!is_digit(d[k - a]));
            return None;
        }
        assert(header@.subrange(a as int, k as int + 1).drop_last() =~= header@.subrange(a as int, k as int));
        assert(header@.subrange(a as int, k as int + 1).last() == c);
        let next: u64 = value * 10 + (c - 48u8) as u64;
        if next > 4294967295u64 {
            proof {
                assert(header@.subrange(a as int, k as int + 1).last() == c);
                assert(d.subrange(0, k - a + 1) =~= header@.subrange(a as int, k as int + 1));
                lemma_digits_overflow(d, k - a + 1);
            }
            return None;
        }
        value = next;
        k += 1;
    }
    proof {
        assert forall|j: int| 0 <= j < d.len() implies is_digit(#[trigger] d[j]) by {
            assert(d[j] == header@[a + j]);
        }
        assert(header@.subrange(a as int, b as int) =~= d);
    }
    Some(value as u32)
}

proof fn lemma_digits_overflow(d: Seq<u8>, m: int)
    requires
        0 < m <= d.len(),
        digits_value(d.subrange(0, m)) > u32::MAX,
    ensures
        (forall|j: int| 0 <= j < d.len() ==> is_digit(#[trigger] d[j])) ==> digits_value(d) > u32::MAX,
    decreases d.len() - m,
{
    if m < d.len() {
        if forall|j: int| 0 <= j < d.len() ==> is_digit(#[trigger] d[j]) {
            assert(d.subrange(0, m + 1).drop_last() =~= d.subrange(0, m));
            assert(is_digit(d[m]));
            assert(d.subrange(0, m + 1).last() == d[m]);
            lemma_digits_overflow(d, m + 1);
        }
    } else {
        assert(d.subrange(0, m) =~= d);
    }
}

} // verus!
