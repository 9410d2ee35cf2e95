//! Small verified text helpers: ASCII trimming, decimal rendering,
//! case-insensitive substring search, prefix tests, and string building.

use vstd::prelude::*;

verus! {

/// Relies on String::push: appends exactly the given character.
#[verifier::external_body]
pub fn push_char(s: &mut String, c: char)
    ensures
        final(s)@ == old(s)@.push(c),
{
    s.push(c)
}

/// Build a `String` out of a vector of characters.
pub fn chars_to_string(v: &Vec<char>) -> (r: String)
    ensures
        r@ == v@,
{
    let mut s = String::new();
    let mut i: usize = 0;
    while i < v.len()
        invariant
            i <= v@.len(),
            s@ =~= v@.subrange(0, i as int),
        decreases v@.len() - i,
    {
        push_char(&mut s, v[i]);
        i = i + 1;
    }
    assert(s@ =~= v@);
    s
}

/// Whether two string slices hold the same characters.
pub fn str_eq(a: &str, b: &str) -> (r: bool)
    ensures
        r == (a@ == b@),
{
    let an = a.unicode_len();
    let bn = b.unicode_len();
    if an != bn {
        return false;
    }
    let mut i: usize = 0;
    while i < an
        invariant
            i <= an,
            an == a@.len(),
            an == b@.len(),
            forall|j: int| 0 <= j < i ==> a@[j] == b@[j],
        decreases an - i,
    {
        if a.get_char(i) != b.get_char(i) {
            return false;
        }
        i = i + 1;
    }
    proof {
        assert(a@ =~= b@);
    }
    true
}

/// The characters of an optional string.
pub open spec fn opt_str_view(o: Option<String>) -> Option<Seq<char>> {
    match o {
        Some(s) => Some(s@),
        None => None,
    }
}

/// Copy an optional string, preserving its characters.
pub fn clone_opt_string(o: &Option<String>) -> (r: Option<String>)
    ensures
        opt_str_view(r) == opt_str_view(*o),
{
    match o {
        Some(s) => Some(s.clone()),
        None => None,
    }
}

pub open spec fn is_ascii_space(c: char) -> bool {
    c == ' ' || c == '\t' || c == '\n' || c == '\r'
}

pub open spec fn trim_start_spec(s: Seq<char>) -> Seq<char>
    decreases s.len(),
{
    if s.len() > 0 && is_ascii_space(s.first()) {
        trim_start_spec(s.drop_first())
    } else {
        s
    }
}

pub open spec fn trim_end_spec(s: Seq<char>) -> Seq<char>
    decreases s.len(),
{
    if s.len() > 0 && is_ascii_space(s.last()) {
        trim_end_spec(s.drop_last())
    } else {
        s
    }
}

/// ASCII whitespace stripped from both ends.
pub open spec fn trim_spec(s: Seq<char>) -> Seq<char> {
    trim_end_spec(trim_start_spec(s))
}

proof fn lemma_trim_start_suffix(s: Seq<char>, start: int)
    requires
        0 <= start <= s.len(),
        forall|i: int| 0 <= i < start ==> is_ascii_space(s[i]),
        start < s.len() ==> !is_ascii_space(s[start]),
    ensures
        trim_start_spec(s) =~= s.subrange(start, s.len() as int),
    decreases start,
{
    if start == 0 {
        if s.len() > 0 && is_ascii_space(s.first()) {
            assert(!is_ascii_space(s[0]));
            assert(false);
        }
        assert(trim_start_spec(s) =~= s.subrange(0, s.len() as int));
    } else {
        assert(is_ascii_space(s.first()));
        let t = s.drop_first();
        assert(t =~= s.subrange(1, s.len() as int));
        lemma_trim_start_suffix(t, start - 1);
        assert(t.subrange(start - 1, t.len() as int) =~= s.subrange(start, s.len() as int));
    }
}

proof fn lemma_trim_end_prefix(s: Seq<char>, end: int)
    requires
        0 <= end <= s.len(),
        forall|i: int| end <= i < s.len() ==> is_ascii_space(s[i]),
        end > 0 ==> !is_ascii_space(s[end - 1]),
    ensures
        trim_end_spec(s) =~= s.subrange(0, end),
    decreases s.len() - end,
{
    if end == s.len() {
        if s.len() > 0 && is_ascii_space(s.last()) {
            assert(false);
        }
        assert(trim_end_spec(s) =~= s.subrange(0, end));
    } else {
        assert(is_ascii_space(s.last()));
        let t = s.drop_last();
        assert(t =~= s.subrange(0, s.len() - 1));
        lemma_trim_end_prefix(t, end);
        assert(t.subrange(0, end) =~= s.subrange(0, end));
    }
}

/// Strip ASCII whitespace from both ends of a string.
pub fn trim(s: &str) -> (r: String)
    ensures
        r@ == trim_spec(s@),
{
    let n = s.unicode_len();
    let mut start: usize = 0;
    while start < n && is_space_exec(s.get_char(start))
        invariant
            start <= n,
            n == s@.len(),
            forall|i: int| 0 <= i < start ==> is_ascii_space(s@[i]),
        decreases n - start,
    {
        start = start + 1;
    }
    let mut end: usize = n;
    while end > start && is_space_exec(s.get_char(end - 1))
        invariant
            start <= end <= n,
            n == s@.len(),
            forall|i: int| end <= i < n ==> is_ascii_space(s@[i]),
        decreases end,
    {
        end = end - 1;
    }
    proof {
        lemma_trim_start_suffix(s@, start as int);
        let t = s@.subrange(start as int, s@.len() as int);
        lemma_trim_end_prefix(t, end - start);
        assert(t.subrange(0, end - start) =~= s@.subrange(start as int, end as int));
    }
    let r = s.substring_char(start, end);
    r.to_owned()
}

fn is_space_exec(c: char) -> (r: bool)
    ensures
        r == is_ascii_space(c),
{
    c == ' ' || c == '\t' || c == '\n' || c == '\r'
}

/// The character for a single decimal digit.
pub open spec fn digit_char(d: int) -> char {
    (((48 + d) as u8) as char)
}

/// The decimal rendering of a nonnegative integer, most significant digit
/// first, with no leading zeros.
pub open spec fn dec_chars(n: int) -> Seq<char>
    decreases n,
{
    if n < 10 {
        seq![digit_char(n)]
    } else {
        dec_chars(n / 10).push(digit_char(n % 10))
    }
}

/// Render an unsigned integer in decimal.
pub fn u64_to_string(n: u64) -> (r: String)
    ensures
        r@ == dec_chars(n as int),
{
    let mut digits: Vec<char> = Vec::new();
    let mut m: u64 = n;
    while m >= 10
        invariant
            dec_chars(n as int) =~= dec_chars(m as int) + digits@,
        decreases m,
    {
        let d: u8 = (m % 10) as u8;
        let c = (48 + d) as char;
        digits.insert(0, c);
        m = m / 10;
    }
    let d: u8 = (m % 10) as u8;
    let c = (48 + d) as char;
    digits.insert(0, c);
    proof {
        assert(dec_chars(m as int) =~= seq![digit_char(m as int)]);
        assert(dec_chars(n as int) =~= digits@);
    }
    chars_to_string(&digits)
}

/// Render a port number in decimal.
pub fn u16_to_string(n: u16) -> (r: String)
    ensures
        r@ == dec_chars(n as int),
{
    u64_to_string(n as u64)
}

/// ASCII uppercase letters mapped to lowercase; everything else unchanged.
pub open spec fn to_lower_char(c: char) -> char {
    if 65 <= c as u32 && c as u32 <= 90 {
        (((c as u32 + 32) as u8) as char)
    } else {
        c
    }
}

pub open spec fn lower_seq(s: Seq<char>) -> Seq<char> {
    s.map_values(|c: char| to_lower_char(c))
}

pub open spec fn seq_contains_at(h: Seq<char>, n: Seq<char>, i: int) -> bool {
    0 <= i && i + n.len() <= h.len() && h.subrange(i, i + n.len() as int) =~= n
}

/// Whether `n` occurs as a contiguous subsequence of `h`.
pub open spec fn seq_contains(h: Seq<char>, n: Seq<char>) -> bool {
    exists|i: int| seq_contains_at(h, n, i)
}

fn lower_char_exec(c: char) -> (r: char)
    ensures
        r == to_lower_char(c),
{
    let u = c as u32;
    if 65 <= u && u <= 90 {
        ((u + 32) as u8) as char
    } else {
        c
    }
}

/// Case-insensitive (ASCII case folding) substring test.
pub fn contains_ascii_ci(h: &str, needle: &str) -> (b: bool)
    ensures
        b == seq_contains(lower_seq(h@), lower_seq(needle@)),
{
    let hn = h.unicode_len();
    let nn = needle.unicode_len();
    if nn > hn {
        proof {
            assert(forall|i: int| !seq_contains_at(lower_seq(h@), lower_seq(needle@), i));
        }
        return false;
    }
    let mut i: usize = 0;
    while i <= hn - nn
        invariant
            nn <= hn,
            hn == h@.len(),
            nn == needle@.len(),
            i <= hn - nn + 1,
            forall|k: int| 0 <= k < i ==> !seq_contains_at(lower_seq(h@), lower_seq(needle@), k),
        decreases hn - nn - i + 1,
    {
        let mut j: usize = 0;
        let mut matched = true;
        while j < nn && matched
            invariant
                matched ==> forall|t: int| 0 <= t < j ==> lower_seq(h@)[i + t] == lower_seq(
                    needle@,
                )[t],
                !matched ==> !seq_contains_at(lower_seq(h@), lower_seq(needle@), i as int),
                i + nn <= hn,
                hn == h@.len(),
                nn == needle@.len(),
                j <= nn,
            decreases nn - j + (if matched { 1int } else { 0int }),
        {
            if lower_char_exec(h.get_char(i + j)) != lower_char_exec(needle.get_char(j)) {
                proof {
                    assert(lower_seq(h@)[i + j] != lower_seq(needle@)[j as int]);
                    assert(!seq_contains_at(lower_seq(h@), lower_seq(needle@), i as int)) by {
                        if seq_contains_at(lower_seq(h@), lower_seq(needle@), i as int) {
                            assert(lower_seq(h@).subrange(i as int, i + nn as int)[j as int]
                                == lower_seq(needle@)[j as int]);
                        }
                    }
                }
                matched = false;
            } else {
                j = j + 1;
            }
        }
        if matched {
            proof {
                assert(forall|t: int| 0 <= t < nn ==> lower_seq(h@).subrange(
                    i as int,
                    i + nn as int,
                )[t] == lower_seq(needle@)[t]);
                assert(lower_seq(h@).subrange(i as int, i + nn as int) =~= lower_seq(needle@));
                assert(seq_contains_at(lower_seq(h@), lower_seq(needle@), i as int));
            }
            return true;
        }
        i = i + 1;
    }
    proof {
        assert(forall|k: int| #![auto] seq_contains_at(lower_seq(h@), lower_seq(needle@), k)
            ==> 0 <= k <= hn - nn);
        assert(forall|k: int| !seq_contains_at(lower_seq(h@), lower_seq(needle@), k));
    }
    false
}

/// Case-sensitive substring test.
pub fn contains_str(h: &str, needle: &str) -> (b: bool)
    ensures
        b == seq_contains(h@, needle@),
{
    let hn = h.unicode_len();
    let nn = needle.unicode_len();
    if nn > hn {
        proof {
            assert(forall|i: int| !seq_contains_at(h@, needle@, i));
        }
        return false;
    }
    let mut i: usize = 0;
    while i <= hn - nn
        invariant
            nn <= hn,
            hn == h@.len(),
            nn == needle@.len(),
            i <= hn - nn + 1,
            forall|k: int| 0 <= k < i ==> !seq_contains_at(h@, needle@, k),
        decreases hn - nn - i + 1,
    {
        let mut j: usize = 0;
        let mut matched = true;
        while j < nn && matched
            invariant
                matched ==> forall|t: int| 0 <= t < j ==> h@[i + t] == needle@[t],
                !matched ==> !seq_contains_at(h@, needle@, i as int),
                i + nn <= hn,
                hn == h@.len(),
                nn == needle@.len(),
                j <= nn,
            decreases nn - j + (if matched { 1int } else { 0int }),
        {
            if h.get_char(i + j) != needle.get_char(j) {
                proof {
                    assert(!seq_contains_at(h@, needle@, i as int)) by {
                        if seq_contains_at(h@, needle@, i as int) {
                            assert(h@.subrange(i as int, i + nn as int)[j as int]
                                == needle@[j as int]);
                        }
                    }
                }
                matched = false;
            } else {
                j = j + 1;
            }
        }
        if matched {
            proof {
                assert(forall|t: int| 0 <= t < nn ==> h@.subrange(i as int, i + nn as int)[t]
                    == needle@[t]);
                assert(h@.subrange(i as int, i + nn as int) =~= needle@);
                assert(seq_contains_at(h@, needle@, i as int));
            }
            return true;
        }
        i = i + 1;
    }
    proof {
        assert(forall|k: int| !seq_contains_at(h@, needle@, k));
    }
    false
}

/// ASCII-lowercase a whole string.
pub fn to_lower_string(s: &str) -> (r: String)
    ensures
        r@ == lower_seq(s@),
{
    let n = s.unicode_len();
    let mut out = String::new();
    let mut i: usize = 0;
    while i < n
        invariant
            i <= n,
            n == s@.len(),
            out@ =~= lower_seq(s@).subrange(0, i as int),
        decreases n - i,
    {
        let c = lower_char_exec(s.get_char(i));
        push_char(&mut out, c);
        proof {
            assert(out@ =~= lower_seq(s@).subrange(0, i + 1));
        }
        i = i + 1;
    }
    proof {
        assert(out@ =~= lower_seq(s@));
    }
    out
}

pub open spec fn has_prefix(s: Seq<char>, p: Seq<char>) -> bool {
    p.len() <= s.len() && s.subrange(0, p.len() as int) =~= p
}

/// Whether `s` begins with `p`.
pub fn starts_with_str(s: &str, p: &str) -> (b: bool)
    ensures
        b == has_prefix(s@, p@),
{
    let sn = s.unicode_len();
    let pn = p.unicode_len();
    if pn > sn {
        return false;
    }
    let mut i: usize = 0;
    while i < pn
        invariant
            pn <= sn,
            sn == s@.len(),
            pn == p@.len(),
            i <= pn,
            forall|j: int| 0 <= j < i ==> s@[j] == p@[j],
        decreases pn - i,
    {
        if s.get_char(i) != p.get_char(i) {
            proof {
                if has_prefix(s@, p@) {
                    assert(s@.subrange(0, pn as int)[i as int] == p@[i as int]);
                }
            }
            return false;
        }
        i = i + 1;
    }
    proof {
        assert(s@.subrange(0, pn as int) =~= p@);
    }
    true
}

} // verus!
