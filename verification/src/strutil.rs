//! Small verified string utilities: prefix and suffix tests, character and
//! substring search, counting, and decimal rendering of integers. Everything
//! is specified over the `Seq<char>` view of `&str` and `String`.

use vstd::prelude::*;
use vstd::string::StrSliceExecFns;
use vstd::string::StringExecFns;

verus! {

/// True when `pat` occurs in `s` starting at index `i`.
pub open spec fn matches_at(s: Seq<char>, pat: Seq<char>, i: int) -> bool {
    0 <= i && i + pat.len() <= s.len() && s.subrange(i, i + pat.len()) == pat
}

/// True when `pat` occurs somewhere in `s`.
pub open spec fn contains_seq(s: Seq<char>, pat: Seq<char>) -> bool {
    exists|i: int| matches_at(s, pat, i)
}

/// Index of the first occurrence of `pat` in `s` at or after `i`, if any.
pub open spec fn find_seq_from(s: Seq<char>, pat: Seq<char>, i: int) -> Option<int>
    decreases s.len() - i + 1,
{
    if i + pat.len() > s.len() {
        None
    } else if matches_at(s, pat, i) {
        Some(i)
    } else {
        find_seq_from(s, pat, i + 1)
    }
}

/// Index of the first occurrence of `pat` in `s`, if any.
pub open spec fn find_seq(s: Seq<char>, pat: Seq<char>) -> Option<int> {
    find_seq_from(s, pat, 0)
}

/// A found index is a match and nothing at or after `i` matches earlier;
/// `None` means nothing at or after `i` matches at all.
pub proof fn lemma_find_seq_from(s: Seq<char>, pat: Seq<char>, i: int)
    ensures
        match find_seq_from(s, pat, i) {
            Some(k) => i <= k && matches_at(s, pat, k) && forall|j: int|
                i <= j < k ==> !matches_at(s, pat, j),
            None => forall|j: int| i <= j ==> !matches_at(s, pat, j),
        },
    decreases s.len() - i + 1,
{
    if i + pat.len() > s.len() {
    } else if matches_at(s, pat, i) {
    } else {
        lemma_find_seq_from(s, pat, i + 1);
    }
}

/// Index of the first occurrence of the character `c` in `s` at or after `i`.
pub open spec fn find_char_from(s: Seq<char>, c: char, i: int) -> Option<int>
    decreases s.len() - i,
{
    if i >= s.len() {
        None
    } else if s[i] == c {
        Some(i)
    } else {
        find_char_from(s, c, i + 1)
    }
}

/// Index of the first occurrence of the character `c` in `s`.
pub open spec fn find_char(s: Seq<char>, c: char) -> Option<int> {
    find_char_from(s, c, 0)
}

/// A found index holds `c` and no index from `i` up to it does; `None` means
/// `c` does not occur at or after `i`.
pub proof fn lemma_find_char_from(s: Seq<char>, c: char, i: int)
    ensures
        match find_char_from(s, c, i) {
            Some(k) => i <= k < s.len() && s[k] == c && forall|j: int|
                i <= j < k ==> s[j] != c,
            None => forall|j: int| i <= j < s.len() ==> s[j] != c,
        },
    decreases s.len() - i,
{
    if i >= s.len() {
    } else if s[i] == c {
    } else {
        lemma_find_char_from(s, c, i + 1);
    }
}

/// Index of the last occurrence of the character `c` in `s`, if any.
pub open spec fn rfind_char(s: Seq<char>, c: char) -> Option<int>
    decreases s.len(),
{
    if s.len() == 0 {
        None
    } else if s.last() == c {
        Some(s.len() - 1)
    } else {
        rfind_char(s.drop_last(), c)
    }
}

/// A found index holds `c` and every later index does not; `None` means `c`
/// does not occur at all.
pub proof fn lemma_rfind_char(s: Seq<char>, c: char)
    ensures
        match rfind_char(s, c) {
            Some(k) => 0 <= k < s.len() && s[k] == c && forall|j: int|
                k < j < s.len() ==> s[j] != c,
            None => forall|j: int| 0 <= j < s.len() ==> s[j] != c,
        },
    decreases s.len(),
{
    if s.len() == 0 {
    } else if s.last() == c {
    } else {
        lemma_rfind_char(s.drop_last(), c);
        assert(forall|j: int| 0 <= j < s.len() - 1 ==> s.drop_last()[j] == s[j]);
    }
}

/// Last occurrence of the character `c` in `s`, as an index.
pub fn rfind_char_in(s: &str, c: char) -> (r: Option<usize>)
    ensures
        match r {
            Some(k) => rfind_char(s@, c) == Some(k as int),
            None => rfind_char(s@, c) is None,
        },
{
    let m = s.unicode_len();
    proof {
        assert(s@.take(m as int) =~= s@);
    }
    let mut i: usize = m;
    while i > 0
        invariant
            i <= m,
            m == s@.len(),
            rfind_char(s@, c) == rfind_char(s@.take(i as int), c),
        decreases i,
    {
        proof {
            assert(s@.take(i as int).last() == s@[i - 1]);
            assert(s@.take(i as int).drop_last() =~= s@.take(i - 1));
        }
        if s.get_char(i - 1) == c {
            return Some(i - 1);
        }
        i -= 1;
    }
    None
}

/// Number of occurrences of the character `c` in `s`.
pub open spec fn count_char(s: Seq<char>, c: char) -> nat
    decreases s.len(),
{
    if s.len() == 0 {
        0
    } else {
        count_char(s.drop_last(), c) + if s.last() == c { 1nat } else { 0nat }
    }
}

/// Whether `pre` is a prefix of `s`, decided by comparing characters.
pub fn starts_with(s: &str, pre: &str) -> (r: bool)
    ensures
        r == pre@.is_prefix_of(s@),
{
    let n = pre.unicode_len();
    let m = s.unicode_len();
    if n > m {
        return false;
    }
    let mut i: usize = 0;
    while i < n
        invariant
            i <= n,
            n <= m,
            n == pre@.len(),
            m == s@.len(),
            forall|j: int| 0 <= j < i ==> s@[j] == pre@[j],
        decreases n - i,
    {
        if s.get_char(i) != pre.get_char(i) {
            proof {
                assert(!pre@.is_prefix_of(s@)) by {
                    if pre@.is_prefix_of(s@) {
                        assert(s@.subrange(0, pre@.len() as int)[i as int] == s@[i as int]);
                    }
                }
            }
            return false;
        }
        i += 1;
    }
    proof {
        assert(s@.subrange(0, pre@.len() as int) =~= pre@);
    }
    true
}

/// Whether `suf` is a suffix of `s`, decided by comparing characters.
pub fn ends_with(s: &str, suf: &str) -> (r: bool)
    ensures
        r == suf@.is_suffix_of(s@),
{
    let n = suf.unicode_len();
    let m = s.unicode_len();
    if n > m {
        return false;
    }
    let off = m - n;
    let mut i: usize = 0;
    while i < n
        invariant
            i <= n,
            off == m - n,
            n <= m,
            n == suf@.len(),
            m == s@.len(),
            forall|j: int| 0 <= j < i ==> s@[off + j] == suf@[j],
        decreases n - i,
    {
        if s.get_char(off + i) != suf.get_char(i) {
            proof {
                assert(!suf@.is_suffix_of(s@)) by {
                    if suf@.is_suffix_of(s@) {
                        assert(s@.subrange(
                            s@.len() - suf@.len(),
                            s@.len() as int,
                        )[i as int] == s@[off + i]);
                    }
                }
            }
            return false;
        }
        i += 1;
    }
    proof {
        assert(s@.subrange(s@.len() - suf@.len(), s@.len() as int) =~= suf@);
    }
    true
}

/// Whether the characters of `s` and `t` are equal.
pub fn str_eq(s: &str, t: &str) -> (r: bool)
    ensures
        r == (s@ == t@),
{
    let n = s.unicode_len();
    let m = t.unicode_len();
    if n != m {
        return false;
    }
    let mut i: usize = 0;
    while i < n
        invariant
            i <= n,
            n == m,
            n == s@.len(),
            m == t@.len(),
            forall|j: int| 0 <= j < i ==> s@[j] == t@[j],
        decreases n - i,
    {
        if s.get_char(i) != t.get_char(i) {
            return false;
        }
        i += 1;
    }
    proof {
        assert(s@ =~= t@);
    }
    true
}

/// Whether `pat` occurs in `s` starting at index `i`.
fn seq_matches_at(s: &str, pat: &str, i: usize) -> (r: bool)
    requires
        i + pat@.len() <= s@.len(),
    ensures
        r == matches_at(s@, pat@, i as int),
{
    let n = pat.unicode_len();
    let m = s.unicode_len();
    let mut j: usize = 0;
    while j < n
        invariant
            j <= n,
            n == pat@.len(),
            m == s@.len(),
            i + n <= s@.len(),
            forall|k: int| 0 <= k < j ==> s@[i + k] == pat@[k],
        decreases n - j,
    {
        if s.get_char(i + j) != pat.get_char(j) {
            proof {
                assert(!matches_at(s@, pat@, i as int)) by {
                    if matches_at(s@, pat@, i as int) {
                        assert(s@.subrange(i as int, i + pat@.len())[j as int] == s@[i + j]);
                    }
                }
            }
            return false;
        }
        j += 1;
    }
    proof {
        assert(s@.subrange(i as int, i + pat@.len()) =~= pat@);
    }
    true
}

/// First occurrence of `pat` in `s`, as an index.
pub fn find_sub(s: &str, pat: &str) -> (r: Option<usize>)
    ensures
        match r {
            Some(k) => find_seq(s@, pat@) == Some(k as int),
            None => find_seq(s@, pat@) is None,
        },
{
    let n = pat.unicode_len();
    let m = s.unicode_len();
    if n > m {
        return None;
    }
    if n == 0 {
        proof {
            assert(s@.subrange(0, 0) =~= pat@);
        }
        return Some(0);
    }
    let mut i: usize = 0;
    while i <= m - n
        invariant
            1 <= n,
            n == pat@.len(),
            m == s@.len(),
            n <= m,
            i <= m,
            find_seq(s@, pat@) == find_seq_from(s@, pat@, i as int),
        decreases m - i,
    {
        if seq_matches_at(s, pat, i) {
            return Some(i);
        }
        proof {
            assert(find_seq_from(s@, pat@, i as int) == find_seq_from(s@, pat@, i + 1));
        }
        i += 1;
    }
    None
}

/// Whether `pat` occurs anywhere in `s`.
pub fn contains_sub(s: &str, pat: &str) -> (r: bool)
    ensures
        r == contains_seq(s@, pat@),
{
    proof {
        lemma_find_seq_from(s@, pat@, 0);
    }
    let r = find_sub(s, pat);
    if let Some(k) = r {
        proof {
            assert(matches_at(s@, pat@, k as int));
        }
        true
    } else {
        false
    }
}

/// First occurrence of the character `c` in `s` at or after `from`.
pub fn find_char_at(s: &str, c: char, from: usize) -> (r: Option<usize>)
    requires
        from <= s@.len(),
    ensures
        match r {
            Some(k) => find_char_from(s@, c, from as int) == Some(k as int),
            None => find_char_from(s@, c, from as int) is None,
        },
{
    let m = s.unicode_len();
    let mut i: usize = from;
    while i < m
        invariant
            from <= i <= m,
            m == s@.len(),
            find_char_from(s@, c, from as int) == find_char_from(s@, c, i as int),
        decreases m - i,
    {
        if s.get_char(i) == c {
            return Some(i);
        }
        proof {
            assert(find_char_from(s@, c, i as int) == find_char_from(s@, c, i + 1));
        }
        i += 1;
    }
    None
}

/// Number of occurrences of the character `c` in `s`.
pub fn count_char_occurrences(s: &str, c: char) -> (n: usize)
    ensures
        n == count_char(s@, c),
{
    let m = s.unicode_len();
    let mut n: usize = 0;
    let mut i: usize = 0;
    while i < m
        invariant
            i <= m,
            m == s@.len(),
            n <= i,
            n == count_char(s@.take(i as int), c),
        decreases m - i,
    {
        proof {
            assert(s@.take(i + 1).drop_last() =~= s@.take(i as int));
            assert(s@.take(i + 1).last() == s@[i as int]);
        }
        if s.get_char(i) == c {
            n += 1;
        }
        i += 1;
    }
    proof {
        assert(s@.take(m as int) =~= s@);
    }
    n
}

/// The non-empty `/`-separated segments of `s`, in order.
pub open spec fn spec_segments(s: Seq<char>) -> Seq<Seq<char>>
    decreases s.len(),
    via spec_segments_decreases
{
    match find_char(s, '/') {
        None => if s.len() == 0 {
            Seq::empty()
        } else {
            seq![s]
        },
        Some(i) => if i == 0 {
            spec_segments(s.skip(1))
        } else {
            seq![s.take(i)] + spec_segments(s.skip(i + 1))
        },
    }
}

#[via_fn]
proof fn spec_segments_decreases(s: Seq<char>) {
    lemma_find_char_from(s, '/', 0);
}

/// Splits `s` into its non-empty `/`-separated segments.
pub fn split_segments(s: &str) -> (r: Vec<String>)
    ensures
        r.deep_view() == spec_segments(s@),
    decreases s@.len(),
{
    let m = s.unicode_len();
    proof {
        lemma_find_char_from(s@, '/', 0);
    }
    match find_char_at(s, '/', 0) {
        None => {
            let mut r: Vec<String> = Vec::new();
            if m != 0 {
                r.push(String::from_str(s));
                proof {
                    assert(r.deep_view() =~= seq![s@]);
                }
            } else {
                proof {
                    assert(r.deep_view() =~= Seq::<Seq<char>>::empty());
                }
            }
            r
        },
        Some(i) => {
            if i == 0 {
                let rest = s.substring_char(1, m);
                proof {
                    assert(rest@ =~= s@.skip(1));
                }
                split_segments(rest)
            } else {
                let head = s.substring_char(0, i);
                let rest = s.substring_char(i + 1, m);
                proof {
                    assert(rest@ =~= s@.skip(i + 1));
                }
                let mut r: Vec<String> = Vec::new();
                r.push(String::from_str(head));
                let mut tail = split_segments(rest);
                let ghost r0 = r.deep_view();
                let ghost t0 = tail.deep_view();
                append_strings(&mut r, &mut tail);
                proof {
                    assert(r0 =~= seq![s@.take(i as int)]);
                    assert(r.deep_view() == r0 + t0);
                }
                r
            }
        },
    }
}

/// Moves the elements of `tail` onto the end of `r`.
fn append_strings(r: &mut Vec<String>, tail: &mut Vec<String>)
    ensures
        final(r).deep_view() == old(r).deep_view() + old(tail).deep_view(),
{
    let ghost r0 = r.deep_view();
    let ghost t0 = tail.deep_view();
    r.append(tail);
    proof {
        assert(r.deep_view() =~= r0 + t0);
    }
}

/// True when every character of `s` is a decimal digit.
pub open spec fn all_digits(s: Seq<char>) -> bool {
    forall|i: int| 0 <= i < s.len() ==> is_digit_char(s[i])
}

/// True for the ten decimal digit characters.
pub open spec fn is_digit_char(c: char) -> bool {
    c == '0' || c == '1' || c == '2' || c == '3' || c == '4' || c == '5' || c == '6' || c == '7'
        || c == '8' || c == '9'
}

/// The value of a decimal digit character; zero for any other character.
pub open spec fn spec_digit_val(c: char) -> int {
    if c == '1' {
        1
    } else if c == '2' {
        2
    } else if c == '3' {
        3
    } else if c == '4' {
        4
    } else if c == '5' {
        5
    } else if c == '6' {
        6
    } else if c == '7' {
        7
    } else if c == '8' {
        8
    } else if c == '9' {
        9
    } else {
        0
    }
}

/// The value of the digit string `s`.
pub open spec fn spec_parse_dec(s: Seq<char>) -> int
    decreases s.len(),
{
    if s.len() == 0 {
        0
    } else {
        spec_parse_dec(s.drop_last()) * 10 + spec_digit_val(s.last())
    }
}

/// Ten to the `n`.
pub open spec fn spec_pow10(n: nat) -> nat
    decreases n,
{
    if n == 0 {
        1
    } else {
        10 * spec_pow10((n - 1) as nat)
    }
}

/// A digit string's value stays under ten to its length.
pub proof fn lemma_parse_dec_bound(s: Seq<char>)
    ensures
        0 <= spec_parse_dec(s) < spec_pow10(s.len()),
    decreases s.len(),
{
    if s.len() == 0 {
    } else {
        lemma_parse_dec_bound(s.drop_last());
    }
}

/// The value of a decimal digit character.
pub fn char_digit(c: char) -> (r: Option<u32>)
    ensures
        match r {
            Some(d) => is_digit_char(c) && d == spec_digit_val(c) && d <= 9,
            None => !is_digit_char(c),
        },
{
    match c {
        '0' => Some(0),
        '1' => Some(1),
        '2' => Some(2),
        '3' => Some(3),
        '4' => Some(4),
        '5' => Some(5),
        '6' => Some(6),
        '7' => Some(7),
        '8' => Some(8),
        '9' => Some(9),
        _ => None,
    }
}

/// Occurrences in a concatenation add up.
pub proof fn lemma_count_char_concat(a: Seq<char>, b: Seq<char>, c: char)
    ensures
        count_char(a + b, c) == count_char(a, c) + count_char(b, c),
    decreases b.len(),
{
    if b.len() == 0 {
        assert(a + b =~= a);
    } else {
        lemma_count_char_concat(a, b.drop_last(), c);
        assert((a + b).drop_last() =~= a + b.drop_last());
        assert((a + b).last() == b.last());
    }
}

/// A string without the character has count zero.
pub proof fn lemma_count_char_zero(s: Seq<char>, c: char)
    requires
        forall|i: int| 0 <= i < s.len() ==> s[i] != c,
    ensures
        count_char(s, c) == 0,
    decreases s.len(),
{
    if s.len() > 0 {
        assert(forall|i: int| 0 <= i < s.len() - 1 ==> s.drop_last()[i] == s[i]);
        lemma_count_char_zero(s.drop_last(), c);
    }
}

/// A non-empty string without a slash is its own single segment.
pub proof fn lemma_segments_no_slash(s: Seq<char>)
    requires
        s.len() > 0,
        forall|i: int| 0 <= i < s.len() ==> s[i] != '/',
    ensures
        spec_segments(s) == seq![s],
{
    lemma_find_char_from(s, '/', 0);
    assert(find_char(s, '/') is None);
}

/// A leading slash changes no segments.
pub proof fn lemma_segments_leading_slash(s: Seq<char>)
    ensures
        spec_segments("/"@ + s) == spec_segments(s),
{
    reveal_strlit("/");
    let t = "/"@ + s;
    assert(t[0] == '/');
    assert(find_char(t, '/') == Some(0int));
    assert(t.skip(1) =~= s);
}

/// A slash after a non-empty slashless head splits one segment off.
pub proof fn lemma_segments_cons(a: Seq<char>, b: Seq<char>)
    requires
        a.len() > 0,
        forall|i: int| 0 <= i < a.len() ==> a[i] != '/',
    ensures
        spec_segments(a + "/"@ + b) == seq![a] + spec_segments(b),
{
    reveal_strlit("/");
    let t = a + "/"@ + b;
    let n = a.len() as int;
    assert(t[n] == '/');
    assert(forall|j: int| 0 <= j < n ==> t[j] == a[j]);
    lemma_find_char_from(t, '/', 0);
    assert(find_char(t, '/') == Some(n));
    assert(t.take(n) =~= a);
    assert(t.skip(n + 1) =~= b);
}

/// Every segment the split yields is non-empty.
pub proof fn lemma_segments_all_non_empty(s: Seq<char>)
    ensures
        forall|i: int| 0 <= i < spec_segments(s).len() ==> spec_segments(s)[i].len() > 0,
    decreases s.len(),
{
    lemma_find_char_from(s, '/', 0);
    match find_char(s, '/') {
        None => {},
        Some(i) => {
            if i == 0 {
                lemma_segments_all_non_empty(s.skip(1));
            } else {
                lemma_segments_all_non_empty(s.skip(i + 1));
                assert(spec_segments(s) == seq![s.take(i)] + spec_segments(s.skip(i + 1)));
                assert forall|k: int|
                    0 <= k < spec_segments(s).len() implies spec_segments(s)[k].len() > 0 by {
                    if k == 0 {
                        assert(spec_segments(s)[0] == s.take(i));
                    } else {
                        assert(spec_segments(s)[k] == spec_segments(s.skip(i + 1))[k - 1]);
                    }
                }
            }
        },
    }
}

/// Whether every character of `s` is a decimal digit.
pub fn is_all_digits(s: &str) -> (r: bool)
    ensures
        r == all_digits(s@),
{
    let m = s.unicode_len();
    let mut i: usize = 0;
    while i < m
        invariant
            i <= m,
            m == s@.len(),
            forall|j: int| 0 <= j < i ==> is_digit_char(s@[j]),
        decreases m - i,
    {
        if char_digit(s.get_char(i)).is_none() {
            return false;
        }
        i += 1;
    }
    true
}

/// Relies on `String::push`: appends exactly one character.
#[verifier::external_body]
pub fn push_char(s: &mut String, c: char)
    ensures
        final(s)@ == old(s)@.push(c),
{
    s.push(c);
}

/// The decimal digit `d` as a character; meaningful for `0 <= d <= 9`.
pub open spec fn spec_digit(d: int) -> char {
    if d == 0 {
        '0'
    } else if d == 1 {
        '1'
    } else if d == 2 {
        '2'
    } else if d == 3 {
        '3'
    } else if d == 4 {
        '4'
    } else if d == 5 {
        '5'
    } else if d == 6 {
        '6'
    } else if d == 7 {
        '7'
    } else if d == 8 {
        '8'
    } else {
        '9'
    }
}

/// The decimal rendering of `n`, without leading zeros (except for `0`).
pub open spec fn spec_decimal(n: int) -> Seq<char>
    decreases n,
{
    if n < 10 {
        seq![spec_digit(n)]
    } else {
        spec_decimal(n / 10).push(spec_digit(n % 10))
    }
}

/// The decimal digit `d` as a one-character string slice.
fn digit_str(d: u64) -> (r: &'static str)
    requires
        d < 10,
    ensures
        r@ =~= seq![spec_digit(d as int)],
{
    proof {
        reveal_strlit("0");
        reveal_strlit("1");
        reveal_strlit("2");
        reveal_strlit("3");
        reveal_strlit("4");
        reveal_strlit("5");
        reveal_strlit("6");
        reveal_strlit("7");
        reveal_strlit("8");
        reveal_strlit("9");
    }
    match d {
        0 => "0",
        1 => "1",
        2 => "2",
        3 => "3",
        4 => "4",
        5 => "5",
        6 => "6",
        7 => "7",
        8 => "8",
        _ => "9",
    }
}

/// Renders `n` in decimal.
pub fn u64_to_dec_string(n: u64) -> (s: String)
    ensures
        s@ == spec_decimal(n as int),
    decreases n,
{
    if n < 10 {
        String::from_str(digit_str(n))
    } else {
        let mut s = u64_to_dec_string(n / 10);
        let ghost s0 = s@;
        s.append(digit_str(n % 10));
        proof {
            assert(s@ =~= s0.push(spec_digit(n as int % 10)));
        }
        s
    }
}

} // verus!
