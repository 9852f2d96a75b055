//! Verified text helpers: equality, case-insensitive equality for ASCII
//! letters, whitespace trimming, concatenation and decimal formatting.

use vstd::prelude::*;

verus! {

/// Character-wise equality of two string views.
pub fn str_eq(a: &str, b: &str) -> (r: bool)
    ensures
        r == (a@ == b@),
{
    let an = a.unicode_len();
    let bn = b.unicode_len();
    if an != bn {
        proof {
            assert(a@ != b@);
        }
        return false;
    }
    let mut i: usize = 0;
    while i < an
        invariant
            an == a@.len(),
            an == b@.len(),
            i <= an,
            forall|k: int| 0 <= k < i ==> a@[k] == b@[k],
        decreases an - i,
    {
        if a.get_char(i) != b.get_char(i) {
            return false;
        }
        i = i + 1;
    }
    proof {
        assert(a@ =~= b@);
    }
    true
}

/// Lower-case image of an ASCII letter; every other character maps to
/// itself.
pub open spec fn lower_char_spec(c: char) -> char {
    if 'A' <= c && c <= 'Z' {
        ((c as u8) + 32) as char
    } else {
        c
    }
}

/// Equality after mapping ASCII upper-case letters down.
pub open spec fn ci_eq_spec(a: Seq<char>, b: Seq<char>) -> bool {
    a.len() == b.len() && forall|k: int|
        0 <= k < a.len() ==> lower_char_spec(a[k]) == lower_char_spec(b[k])
}

/// Lower an ASCII upper-case letter; leave everything else alone.
pub fn lower_char(c: char) -> (r: char)
    ensures
        r == lower_char_spec(c),
{
    if 'A' <= c && c <= 'Z' {
        ((c as u8) + 32) as char
    } else {
        c
    }
}

/// Equality of two string views up to ASCII letter case.
pub fn str_eq_ignore_ascii_case(a: &str, b: &str) -> (r: bool)
    ensures
        r == ci_eq_spec(a@, b@),
{
    let an = a.unicode_len();
    let bn = b.unicode_len();
    if an != bn {
        return false;
    }
    let mut i: usize = 0;
    while i < an
        invariant
            an == a@.len(),
            an == b@.len(),
            i <= an,
            forall|k: int| 0 <= k < i ==> lower_char_spec(a@[k]) == lower_char_spec(b@[k]),
        decreases an - i,
    {
        if lower_char(a.get_char(i)) != lower_char(b.get_char(i)) {
            return false;
        }
        i = i + 1;
    }
    true
}

/// The whitespace characters that trimming strips.
pub open spec fn is_space_spec(c: char) -> bool {
    c == ' ' || c == '\t' || c == '\n' || c == '\r'
}

/// Whether `c` is one of the whitespace characters trimming strips.
pub fn is_space(c: char) -> (r: bool)
    ensures
        r == is_space_spec(c),
{
    c == ' ' || c == '\t' || c == '\n' || c == '\r'
}

/// A string view with leading whitespace stripped.
pub open spec fn trim_start_spec(s: Seq<char>) -> Seq<char>
    decreases s.len(),
{
    if s.len() == 0 {
        s
    } else if is_space_spec(s[0]) {
        trim_start_spec(s.drop_first())
    } else {
        s
    }
}

/// A string view with trailing whitespace stripped.
pub open spec fn trim_end_spec(s: Seq<char>) -> Seq<char>
    decreases s.len(),
{
    if s.len() == 0 {
        s
    } else if is_space_spec(s.last()) {
        trim_end_spec(s.drop_last())
    } else {
        s
    }
}

/// A string view with surrounding whitespace stripped.
pub open spec fn trim_spec(s: Seq<char>) -> Seq<char> {
    trim_end_spec(trim_start_spec(s))
}

proof fn lemma_trim_start_at(s: Seq<char>, i: int)
    requires
        0 <= i <= s.len(),
        forall|k: int| 0 <= k < i ==> is_space_spec(s[k]),
        i < s.len() ==> !is_space_spec(s[i]),
    ensures
        trim_start_spec(s) =~= s.subrange(i, s.len() as int),
    decreases i,
{
    if i == 0 {
        if s.len() == 0 {
        } else {
            assert(trim_start_spec(s) == s);
            assert(s.subrange(0, s.len() as int) =~= s);
        }
    } else {
        assert(is_space_spec(s[0]));
        let t = s.drop_first();
        assert(forall|k: int| 0 <= k < i - 1 ==> is_space_spec(#[trigger] t[k]));
        lemma_trim_start_at(t, i - 1);
        assert(t.subrange(i - 1, t.len() as int) =~= s.subrange(i, s.len() as int));
    }
}

proof fn lemma_trim_end_at(s: Seq<char>, j: int)
    requires
        0 <= j <= s.len(),
        forall|k: int| j <= k < s.len() ==> is_space_spec(s[k]),
        j > 0 ==> !is_space_spec(s[j - 1]),
    ensures
        trim_end_spec(s) =~= s.subrange(0, j),
    decreases s.len() - j,
{
    if j == s.len() {
        if s.len() == 0 {
        } else {
            assert(!is_space_spec(s.last()));
            assert(s.subrange(0, s.len() as int) =~= s);
        }
    } else {
        assert(is_space_spec(s.last()));
        let t = s.drop_last();
        lemma_trim_end_at(t, j);
        assert(t.subrange(0, j) =~= s.subrange(0, j));
    }
}

/// Strip surrounding whitespace from a string.
pub fn trim_str(s: &str) -> (r: String)
    ensures
        r@ == trim_spec(s@),
{
    let n = s.unicode_len();
    let mut start: usize = 0;
    while start < n && is_space(s.get_char(start))
        invariant
            n == s@.len(),
            start <= n,
            forall|k: int| 0 <= k < start ==> is_space_spec(s@[k]),
        decreases n - start,
    {
        start = start + 1;
    }
    proof {
        lemma_trim_start_at(s@, start as int);
    }
    let ghost mid = s@.subrange(start as int, n as int);
    let mut end: usize = n;
    while end > start && is_space(s.get_char(end - 1))
        invariant
            n == s@.len(),
            start <= end <= n,
            mid == s@.subrange(start as int, n as int),
            forall|k: int| end <= k < n ==> is_space_spec(s@[k]),
        decreases end,
    {
        end = end - 1;
    }
    proof {
        assert(forall|k: int|
            end - start <= k < mid.len() ==> is_space_spec(#[trigger] mid[k]));
        assert(end > start ==> !is_space_spec(mid[end - start - 1]));
        lemma_trim_end_at(mid, end - start as int);
        assert(mid.subrange(0, end - start as int)
            =~= s@.subrange(start as int, end as int));
    }
    let piece = s.substring_char(start, end);
    piece.to_owned()
}

/// Whether `s` begins with `p`.
pub open spec fn starts_with_spec(s: Seq<char>, p: Seq<char>) -> bool {
    p.len() <= s.len() && s.subrange(0, p.len() as int) == p
}

/// Whether the string begins with the given prefix.
pub fn str_starts_with(s: &str, p: &str) -> (r: bool)
    ensures
        r == starts_with_spec(s@, p@),
{
    let sn = s.unicode_len();
    let pn = p.unicode_len();
    if pn > sn {
        return false;
    }
    let mut i: usize = 0;
    while i < pn
        invariant
            sn == s@.len(),
            pn == p@.len(),
            pn <= sn,
            i <= pn,
            forall|k: int| 0 <= k < i ==> s@[k] == p@[k],
        decreases pn - i,
    {
        if s.get_char(i) != p.get_char(i) {
            proof {
                assert(s@.subrange(0, pn as int)[i as int] != p@[i as int]);
            }
            return false;
        }
        i = i + 1;
    }
    proof {
        assert(s@.subrange(0, pn as int) =~= p@);
    }
    true
}

/// A string view with every trailing `c` stripped.
pub open spec fn trim_end_char_spec(s: Seq<char>, c: char) -> Seq<char>
    decreases s.len(),
{
    if s.len() > 0 && s.last() == c {
        trim_end_char_spec(s.drop_last(), c)
    } else {
        s
    }
}

proof fn lemma_trim_end_char_at(s: Seq<char>, c: char, j: int)
    requires
        0 <= j <= s.len(),
        forall|k: int| j <= k < s.len() ==> s[k] == c,
        j > 0 ==> s[j - 1] != c,
    ensures
        trim_end_char_spec(s, c) =~= s.subrange(0, j),
    decreases s.len() - j,
{
    if j == s.len() {
        if s.len() > 0 {
            assert(s.last() != c);
            assert(s.subrange(0, s.len() as int) =~= s);
        }
    } else {
        assert(s.last() == c);
        let t = s.drop_last();
        lemma_trim_end_char_at(t, c, j);
        assert(t.subrange(0, j) =~= s.subrange(0, j));
    }
}

/// Strip every trailing `c` from a string.
pub fn trim_end_char(s: &str, c: char) -> (r: String)
    ensures
        r@ == trim_end_char_spec(s@, c),
{
    let n = s.unicode_len();
    let mut end: usize = n;
    while end > 0 && s.get_char(end - 1) == c
        invariant
            n == s@.len(),
            end <= n,
            forall|k: int| end <= k < n ==> s@[k] == c,
        decreases end,
    {
        end = end - 1;
    }
    proof {
        lemma_trim_end_char_at(s@, c, end as int);
    }
    s.substring_char(0, end).to_owned()
}

/// Concatenation of a sequence of string views.
pub open spec fn concat_spec(parts: Seq<Seq<char>>) -> Seq<char>
    decreases parts.len(),
{
    if parts.len() == 0 {
        Seq::<char>::empty()
    } else {
        concat_spec(parts.drop_last()) + parts.last()
    }
}

/// Concatenate a list of strings in order.
pub fn concat_strings(parts: &Vec<String>) -> (r: String)
    ensures
        r@ == concat_spec(parts@.map_values(|p: String| p@)),
{
    let ghost views = parts@.map_values(|p: String| p@);
    let mut acc = String::new();
    let mut i: usize = 0;
    while i < parts.len()
        invariant
            views == parts@.map_values(|p: String| p@),
            i <= parts@.len(),
            acc@ == concat_spec(views.subrange(0, i as int)),
        decreases parts@.len() - i,
    {
        proof {
            assert(views.subrange(0, i + 1 as int).drop_last()
                =~= views.subrange(0, i as int));
            assert(views.subrange(0, i + 1 as int).last() == parts@[i as int]@);
        }
        acc.append(parts[i].as_str());
        i = i + 1;
    }
    proof {
        assert(views.subrange(0, parts@.len() as int) =~= views);
    }
    acc
}

/// The decimal digit character for a value below ten.
pub open spec fn digit_char_spec(d: int) -> char {
    if d == 0 {
        '0'
    } else if d == 1 {
        '1'
    } else if d == 2 {
        '2'
    } else if d == 3 {
        '3'
    } else if d == 4 {
        '4'
    } else if d == 5 {
        '5'
    } else if d == 6 {
        '6'
    } else if d == 7 {
        '7'
    } else if d == 8 {
        '8'
    } else {
        '9'
    }
}

/// The decimal representation of a nonnegative integer, most significant
/// digit first.
pub open spec fn dec_digits_spec(n: int) -> Seq<char>
    recommends
        n >= 0,
    decreases n,
{
    if n < 10 {
        seq![digit_char_spec(n)]
    } else {
        dec_digits_spec(n / 10) + seq![digit_char_spec(n % 10)]
    }
}

fn digit_str(d: u64) -> (r: &'static str)
    requires
        d < 10,
    ensures
        r@ =~= seq![digit_char_spec(d as int)],
{
    let r: &'static str = if d == 0 {
        "0"
    } else if d == 1 {
        "1"
    } else if d == 2 {
        "2"
    } else if d == 3 {
        "3"
    } else if d == 4 {
        "4"
    } else if d == 5 {
        "5"
    } else if d == 6 {
        "6"
    } else if d == 7 {
        "7"
    } else if d == 8 {
        "8"
    } else {
        "9"
    };
    proof {
        reveal_strlit("0");
        reveal_strlit("1");
        reveal_strlit("2");
        reveal_strlit("3");
        reveal_strlit("4");
        reveal_strlit("5");
        reveal_strlit("6");
        reveal_strlit("7");
        reveal_strlit("8");
        reveal_strlit("9");
    }
    r
}

/// Format a nonnegative integer in decimal.
pub fn format_u64(n: u64) -> (r: String)
    ensures
        r@ == dec_digits_spec(n as int),
    decreases n,
{
    if n < 10 {
        digit_str(n).to_owned()
    } else {
        let mut s = format_u64(n / 10);
        s.append(digit_str(n % 10));
        s
    }
}

/// Every character of a decimal representation is a digit.
pub proof fn lemma_dec_digits_are_digits(n: int)
    requires
        n >= 0,
    ensures
        forall|k: int|
            0 <= k < dec_digits_spec(n).len() ==> '0' <= #[trigger] dec_digits_spec(n)[k]
                <= '9',
    decreases n,
{
    if n < 10 {
        assert(dec_digits_spec(n)[0] == digit_char_spec(n));
        assert('0' <= digit_char_spec(n) <= '9');
    } else {
        lemma_dec_digits_are_digits(n / 10);
        let pre = dec_digits_spec(n / 10);
        assert forall|k: int| 0 <= k < dec_digits_spec(n).len() implies '0'
            <= #[trigger] dec_digits_spec(n)[k] <= '9' by {
            if k < pre.len() {
                assert(dec_digits_spec(n)[k] == pre[k]);
            } else {
                assert(dec_digits_spec(n)[k] == digit_char_spec(n % 10));
                assert('0' <= digit_char_spec(n % 10) <= '9');
            }
        };
    }
}

/// The number of digits the decimal representation uses.
pub open spec fn dec_len_spec(n: int) -> int
    decreases n,
{
    if n < 10 {
        1
    } else {
        dec_len_spec(n / 10) + 1
    }
}

/// The decimal representation has `dec_len_spec` digits, one at least.
pub proof fn lemma_dec_digits_len(n: int)
    requires
        n >= 0,
    ensures
        dec_digits_spec(n).len() == dec_len_spec(n),
        dec_len_spec(n) >= 1,
    decreases n,
{
    if n >= 10 {
        lemma_dec_digits_len(n / 10);
    }
}

/// Format a value below one billion in decimal, left-padded with zeros
/// to nine digits.
pub fn format_u32_pad9(n: u32) -> (r: String)
    requires
        n < 1000000000,
    ensures
        r@ == Seq::new((9 - dec_len_spec(n as int)) as nat, |k: int| '0') + dec_digits_spec(
            n as int,
        ),
        r@.len() == 9,
{
    proof {
        lemma_dec_digits_len(n as int);
        lemma_dec_len_at_most_9(n as int);
    }
    let digits = format_u64(n as u64);
    let width = digits.as_str().unicode_len();
    let mut acc = String::new();
    let mut pad: usize = 9 - width;
    let ghost total_pad = 9 - width as int;
    while pad > 0
        invariant
            acc@ =~= Seq::new((total_pad - pad) as nat, |k: int| '0'),
            0 <= pad <= total_pad,
        decreases pad,
    {
        proof {
            reveal_strlit("0");
        }
        acc.append("0");
        proof {
            assert(acc@ =~= Seq::new((total_pad - pad + 1) as nat, |k: int| '0'));
        }
        pad = pad - 1;
    }
    acc.append(digits.as_str());
    proof {
        assert(acc@ =~= Seq::new((9 - dec_len_spec(n as int)) as nat, |k: int| '0')
            + dec_digits_spec(n as int));
    }
    acc
}

proof fn lemma_dec_len_at_most_9(n: int)
    requires
        0 <= n < 1000000000,
    ensures
        dec_len_spec(n) <= 9,
{
    assert(vstd::arithmetic::power::pow(10, 9) == 1000000000) by {
        reveal_with_fuel(vstd::arithmetic::power::pow, 10);
    };
    lemma_dec_len_bound(n, 9);
}

proof fn lemma_dec_len_bound(n: int, w: int)
    requires
        w >= 1,
        0 <= n,
        n < vstd::arithmetic::power::pow(10, w as nat),
    ensures
        dec_len_spec(n) <= w,
    decreases w,
{
    vstd::arithmetic::power::lemma_pow_positive(10, w as nat);
    if n < 10 {
    } else {
        assert(w >= 2) by {
            vstd::arithmetic::power::lemma_pow1(10);
            if w == 1 {
                assert(vstd::arithmetic::power::pow(10, 1) == 10);
            }
        };
        assert(vstd::arithmetic::power::pow(10, w as nat)
            == 10 * vstd::arithmetic::power::pow(10, (w - 1) as nat)) by {
            reveal(vstd::arithmetic::power::pow);
        };
        assert(n / 10 < vstd::arithmetic::power::pow(10, (w - 1) as nat)) by (nonlinear_arith)
            requires
                n < 10 * vstd::arithmetic::power::pow(10, (w - 1) as nat),
                vstd::arithmetic::power::pow(10, (w - 1) as nat) > 0,
                n >= 0,
        ;
        lemma_dec_len_bound(n / 10, w - 1);
    }
}

} // verus!
