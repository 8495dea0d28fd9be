//! Text on character sequences: Unicode white space and trimming, searching for a
//! pattern, decimal numerals, and the conversions between bytes, characters and `String`.

use vstd::prelude::*;

verus! {

/// The Unicode `White_Space` property, which `str::trim` strips.
pub open spec fn is_white_space(c: char) -> bool {
    let u = c as u32;
    ||| 0x09 <= u <= 0x0d
    ||| u == 0x20
    ||| u == 0x85
    ||| u == 0xa0
    ||| u == 0x1680
    ||| 0x2000 <= u <= 0x200a
    ||| u == 0x2028
    ||| u == 0x2029
    ||| u == 0x202f
    ||| u == 0x205f
    ||| u == 0x3000
}

/// `s` without its leading white space.
pub open spec fn trim_start(s: Seq<char>) -> Seq<char>
    decreases s.len(),
{
    if s.len() > 0 && is_white_space(s[0]) {
        trim_start(s.drop_first())
    } else {
        s
    }
}

/// `s` without its trailing white space.
pub open spec fn trim_end(s: Seq<char>) -> Seq<char>
    decreases s.len(),
{
    if s.len() > 0 && is_white_space(s.last()) {
        trim_end(s.drop_last())
    } else {
        s
    }
}

/// `s` without leading and trailing white space, as `str::trim` gives it.
pub open spec fn trim(s: Seq<char>) -> Seq<char> {
    trim_end(trim_start(s))
}

/// `pat` stands in `s` from index `i` on.
pub open spec fn occurs_at(s: Seq<char>, pat: Seq<char>, i: int) -> bool {
    &&& 0 <= i
    &&& i + pat.len() <= s.len()
    &&& s.subrange(i, i + pat.len()) == pat
}

/// The first index at or after `from` where `pat` stands in `s`.
pub open spec fn find_from(s: Seq<char>, pat: Seq<char>, from: int) -> Option<int>
    decreases s.len() + 1 - from,
{
    if from < 0 || from + pat.len() > s.len() {
        None
    } else if occurs_at(s, pat, from) {
        Some(from)
    } else {
        find_from(s, pat, from + 1)
    }
}

/// `find_from` gives the first index at or after `from` where `pat` stands in `s`, and
/// `None` exactly when `pat` stands nowhere from `from` on.
pub proof fn lemma_find_from_first(s: Seq<char>, pat: Seq<char>, from: int)
    requires
        0 <= from,
    ensures
        find_from(s, pat, from) matches Some(i) ==> {
            &&& from <= i
            &&& occurs_at(s, pat, i)
            &&& forall|j: int| from <= j < i ==> !occurs_at(s, pat, j)
        },
        find_from(s, pat, from) is None ==> forall|j: int| from <= j ==> !occurs_at(s, pat, j),
    decreases s.len() + 1 - from,
{
    if from + pat.len() <= s.len() && !occurs_at(s, pat, from) {
        lemma_find_from_first(s, pat, from + 1);
    }
}

/// Where `pat` stands at `k`, at or after `from`, and nowhere between, `find_from` finds `k`.
pub proof fn lemma_find_from_at(s: Seq<char>, pat: Seq<char>, from: int, k: int)
    requires
        0 <= from <= k,
        occurs_at(s, pat, k),
        forall|j: int| from <= j < k ==> !occurs_at(s, pat, j),
    ensures
        find_from(s, pat, from) == Some(k),
    decreases k - from,
{
    if from < k {
        lemma_find_from_at(s, pat, from + 1, k);
    }
}

/// In `head + body + pat + rest`, where `pat` stands nowhere in `body + pat` before `pat`
/// itself, the first `pat` from the end of `head` on is the one after `body`.
pub proof fn lemma_find_after_body(head: Seq<char>, body: Seq<char>, pat: Seq<char>, rest: Seq<char>)
    requires
        forall|j: int| 0 <= j < body.len() ==> !occurs_at(body + pat, pat, j),
    ensures
        find_from(head + body + pat + rest, pat, head.len() as int) == Some(
            (head.len() + body.len()) as int,
        ),
{
    let s = head + body + pat + rest;
    let framed = body + pat;
    let start = head.len() as int;
    let k = start + body.len();
    assert(s.subrange(k, k + pat.len()) =~= pat);
    assert forall|j: int| start <= j < k implies !occurs_at(s, pat, j) by {
        assert(s.subrange(j, j + pat.len()) =~= framed.subrange(j - start, j - start + pat.len()));
        if occurs_at(s, pat, j) {
            assert(occurs_at(framed, pat, j - start));
        }
    }
    lemma_find_from_at(s, pat, start, k);
}

/// Trimming keeps every character up to the last one that is not white space: what
/// `trim` leaves of `s` starts like `s` and reaches past any such character.
pub proof fn lemma_trim_keeps_prefix(s: Seq<char>, i: int)
    requires
        0 <= i < s.len(),
        !is_white_space(s[0]),
        !is_white_space(s[i]),
    ensures
        i < trim(s).len() <= s.len(),
        trim(s) == s.subrange(0, trim(s).len() as int),
{
    lemma_trim_end_keeps(s, i);
}

/// `trim_end` keeps a prefix of `s` that reaches past any character that is not white space.
proof fn lemma_trim_end_keeps(s: Seq<char>, i: int)
    requires
        0 <= i < s.len(),
        !is_white_space(s[i]),
    ensures
        i < trim_end(s).len() <= s.len(),
        trim_end(s) == s.subrange(0, trim_end(s).len() as int),
    decreases s.len(),
{
    if s.len() > 0 && is_white_space(s.last()) {
        let t = s.drop_last();
        lemma_trim_end_keeps(t, i);
        assert(t.subrange(0, trim_end(t).len() as int) =~= s.subrange(0, trim_end(t).len() as int));
    } else {
        assert(s.subrange(0, s.len() as int) =~= s);
    }
}

/// Trimming removes exactly the white space around a core that neither begins nor ends
/// with white space.
pub proof fn lemma_trim_strips_around(lead: Seq<char>, core: Seq<char>, trail: Seq<char>)
    requires
        forall|j: int| 0 <= j < lead.len() ==> is_white_space(#[trigger] lead[j]),
        forall|j: int| 0 <= j < trail.len() ==> is_white_space(#[trigger] trail[j]),
        core.len() > 0,
        !is_white_space(core[0]),
        !is_white_space(core.last()),
    ensures
        trim(lead + core + trail) == core,
{
    lemma_trim_start_strips(lead, core + trail);
    assert(lead + core + trail =~= lead + (core + trail));
    lemma_trim_end_strips(core, trail);
}

proof fn lemma_trim_start_strips(lead: Seq<char>, rest: Seq<char>)
    requires
        forall|j: int| 0 <= j < lead.len() ==> is_white_space(#[trigger] lead[j]),
        rest.len() > 0,
        !is_white_space(rest[0]),
    ensures
        trim_start(lead + rest) == rest,
    decreases lead.len(),
{
    if lead.len() > 0 {
        let t = lead.drop_first();
        assert forall|j: int| 0 <= j < t.len() implies is_white_space(#[trigger] t[j]) by {
            assert(t[j] == lead[j + 1]);
        }
        lemma_trim_start_strips(t, rest);
        assert((lead + rest).drop_first() =~= t + rest);
        assert((lead + rest)[0] == lead[0]);
    } else {
        assert(lead + rest =~= rest);
    }
}

proof fn lemma_trim_end_strips(core: Seq<char>, trail: Seq<char>)
    requires
        forall|j: int| 0 <= j < trail.len() ==> is_white_space(#[trigger] trail[j]),
        core.len() > 0,
        !is_white_space(core.last()),
    ensures
        trim_end(core + trail) == core,
    decreases trail.len(),
{
    if trail.len() > 0 {
        let t = trail.drop_last();
        assert forall|j: int| 0 <= j < t.len() implies is_white_space(#[trigger] t[j]) by {
            assert(t[j] == trail[j]);
        }
        lemma_trim_end_strips(core, t);
        assert((core + trail).drop_last() =~= core + t);
        assert((core + trail).last() == trail.last());
    } else {
        assert(core + trail =~= core);
    }
}

/// A sequence of white space trims to nothing.
pub proof fn lemma_trim_all_white(s: Seq<char>)
    requires
        forall|j: int| 0 <= j < s.len() ==> is_white_space(#[trigger] s[j]),
    ensures
        trim(s).len() == 0,
    decreases s.len(),
{
    if s.len() > 0 {
        let t = s.drop_first();
        assert forall|j: int| 0 <= j < t.len() implies is_white_space(#[trigger] t[j]) by {
            assert(t[j] == s[j + 1]);
        }
        lemma_trim_all_white(t);
        assert(is_white_space(s[0]));
    }
}

/// A sequence that neither begins nor ends with white space is its own trim.
pub proof fn lemma_trim_unchanged(s: Seq<char>)
    requires
        s.len() > 0,
        !is_white_space(s[0]),
        !is_white_space(s.last()),
    ensures
        trim(s) == s,
{
}

/// The character of a decimal digit.
pub open spec fn digit_char(d: int) -> char {
    seq!['0', '1', '2', '3', '4', '5', '6', '7', '8', '9'][d]
}

/// The decimal numeral of `n`, without leading zeros, as `u32::to_string` writes it.
pub open spec fn decimal(n: nat) -> Seq<char>
    decreases n,
{
    if n < 10 {
        seq![digit_char(n as int)]
    } else {
        decimal(n / 10).push(digit_char((n % 10) as int))
    }
}

/// The number that a numeral of decimal digits stands for.
pub open spec fn numeral_value(s: Seq<char>) -> int
    decreases s.len(),
{
    if s.len() == 0 {
        0
    } else {
        numeral_value(s.drop_last()) * 10 + (s.last() as u32 - '0' as u32)
    }
}

/// Whether every character of `s` is a decimal digit.
pub open spec fn all_digits(s: Seq<char>) -> bool {
    forall|i: int| 0 <= i < s.len() ==> '0' as u32 <= #[trigger] s[i] as u32 <= '9' as u32
}

/// `decimal(n)` is a numeral of decimal digits for `n`, without leading zeros: it reads
/// back as `n`, and only `0` itself starts with `0`.
pub proof fn lemma_decimal_reads_back(n: nat)
    ensures
        decimal(n).len() >= 1,
        all_digits(decimal(n)),
        numeral_value(decimal(n)) == n,
        decimal(n)[0] == '0' ==> n == 0,
    decreases n,
{
    let d = (n % 10) as int;
    assert(digit_char(d) as u32 == '0' as u32 + d) by {
        assert(0 <= d < 10);
        if d == 0 {} else if d == 1 {} else if d == 2 {} else if d == 3 {} else if d == 4 {}
        else if d == 5 {} else if d == 6 {} else if d == 7 {} else if d == 8 {} else {}
    }
    if n < 10 {
        let s = decimal(n);
        assert(s.drop_last() =~= Seq::<char>::empty());
        assert(n % 10 == n);
        assert(s.last() == digit_char(d));
        assert(numeral_value(s) == numeral_value(s.drop_last()) * 10 + (s.last() as u32 - '0' as u32));
    } else {
        lemma_decimal_reads_back(n / 10);
        let s = decimal(n);
        let h = decimal(n / 10);
        assert(s.drop_last() =~= h);
        assert(s[0] == h[0]);
        assert forall|i: int| 0 <= i < s.len() implies '0' as u32 <= #[trigger] s[i] as u32 <= '9' as u32 by {
            if i < h.len() {
                assert(s[i] == h[i]);
            }
        }
        assert(s.last() == digit_char(d));
        assert(numeral_value(s) == numeral_value(h) * 10 + (s.last() as u32 - '0' as u32));
        assert(n == (n / 10) * 10 + n % 10);
    }
}

/// Whether `c` is Unicode white space.
pub fn white_space(c: char) -> (r: bool)
    ensures
        r == is_white_space(c),
{
    let u = c as u32;
    (0x09 <= u && u <= 0x0d) || u == 0x20 || u == 0x85 || u == 0xa0 || u == 0x1680 || (0x2000 <= u
        && u <= 0x200a) || u == 0x2028 || u == 0x2029 || u == 0x202f || u == 0x205f || u == 0x3000
}

/// The bounds `(lo, hi)` of `s` with its surrounding white space left out.
pub fn trim_bounds(s: &[char]) -> (r: (usize, usize))
    ensures
        r.0 <= r.1 <= s@.len(),
        s@.subrange(r.0 as int, r.1 as int) == trim(s@),
{
    let n = s.len();
    let mut lo: usize = 0;
    assert(s@.subrange(0, n as int) =~= s@);
    while lo < n && white_space(s[lo])
        invariant
            n == s@.len(),
            lo <= n,
            trim_start(s@) == trim_start(s@.subrange(lo as int, n as int)),
        decreases n - lo,
    {
        assert(s@.subrange(lo as int, n as int).drop_first() =~= s@.subrange(lo + 1, n as int));
        lo = lo + 1;
    }
    let mut hi: usize = n;
    while hi > lo && white_space(s[hi - 1])
        invariant
            n == s@.len(),
            lo <= hi <= n,
            trim(s@) == trim_end(s@.subrange(lo as int, hi as int)),
        decreases hi - lo,
    {
        assert(s@.subrange(lo as int, hi as int).drop_last() =~= s@.subrange(lo as int, hi - 1));
        hi = hi - 1;
    }
    (lo, hi)
}

/// Whether `pat` stands in `s` from index `i` on.
pub fn matches_at(s: &[char], pat: &[char], i: usize) -> (r: bool)
    ensures
        r == occurs_at(s@, pat@, i as int),
{
    if i > s.len() || pat.len() > s.len() - i {
        return false;
    }
    let n = s.len();
    let m = pat.len();
    let mut k: usize = 0;
    while k < m
        invariant
            n == s@.len(),
            m == pat@.len(),
            i + pat@.len() <= s@.len(),
            k <= pat@.len(),
            forall|j: int| 0 <= j < k ==> s@[i + j] == pat@[j],
        decreases pat@.len() - k,
    {
        if s[i + k] != pat[k] {
            assert(s@.subrange(i as int, i + pat@.len())[k as int] != pat@[k as int]);
            return false;
        }
        k = k + 1;
    }
    assert(s@.subrange(i as int, i + pat@.len()) =~= pat@);
    true
}

/// The first index at or after `from` where `pat` stands in `s`.
pub fn find(s: &[char], pat: &[char], from: usize) -> (r: Option<usize>)
    ensures
        r matches Some(i) ==> find_from(s@, pat@, from as int) == Some(i as int),
        r is None ==> find_from(s@, pat@, from as int) is None,
{
    let n = s.len();
    let m = pat.len();
    let mut i = from;
    while i <= n && m <= n - i
        invariant
            n == s@.len(),
            m == pat@.len(),
            from <= i,
            find_from(s@, pat@, from as int) == find_from(s@, pat@, i as int),
        decreases n - i,
    {
        if matches_at(s, pat, i) {
            return Some(i);
        }
        assert(i < n) by {
            if i == n {
                assert(s@.subrange(i as int, i + m) =~= pat@);
            }
        }
        i = i + 1;
    }
    None
}

/// The decimal numeral of `n`, appended to `out`.
fn push_decimal(n: u32, out: &mut Vec<char>)
    ensures
        final(out)@ == old(out)@ + decimal(n as nat),
    decreases n,
{
    if n >= 10 {
        push_decimal(n / 10, out);
    }
    let d = n % 10;
    let c = match d {
        0 => '0',
        1 => '1',
        2 => '2',
        3 => '3',
        4 => '4',
        5 => '5',
        6 => '6',
        7 => '7',
        8 => '8',
        _ => '9',
    };
    assert(c == digit_char(d as int));
    out.push(c);
}

/// The decimal numeral of `n`, as `n.to_string()` writes it.
pub fn decimal_string(n: u32) -> (r: String)
    ensures
        r@ == decimal(n as nat),
{
    let mut digits: Vec<char> = Vec::new();
    push_decimal(n, &mut digits);
    assert(digits@ =~= decimal(n as nat));
    chars_to_string(digits.as_slice())
}

/// Whether two string slices hold the same characters.
pub fn same_text(a: &str, b: &str) -> (r: bool)
    ensures
        r == (a@ == b@),
{
    let a_owned = a.to_owned();
    let b_owned = b.to_owned();
    a_owned == b_owned
}

/// The characters that `String::from_utf8_lossy` decodes from `bytes`. The decoding of
/// invalid input (each maximal invalid subpart becomes U+FFFD) is left to this name.
pub uninterp spec fn utf8_lossy(bytes: Seq<u8>) -> Seq<char>;

/// Calls `String::from_utf8_lossy` and hands its characters out. Stated: the result is
/// `utf8_lossy` of the bytes, and on valid UTF-8 it is the plain decoding.
#[verifier::external_body]
pub(crate) fn decode_lossy(bytes: &[u8]) -> (r: Vec<char>)
    ensures
        r@ == utf8_lossy(bytes@),
        vstd::utf8::valid_utf8(bytes@) ==> r@ == vstd::utf8::decode_utf8(bytes@),
{
    String::from_utf8_lossy(bytes).chars().collect()
}

/// Collects characters into a `String` (`FromIterator<char>`): the string holds them in order.
#[verifier::external_body]
pub(crate) fn chars_to_string(chars: &[char]) -> (r: String)
    ensures
        r@ == chars@,
{
    chars.iter().collect()
}

} // verus!
