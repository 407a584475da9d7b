//! Verified string helpers shared by the two protocol codecs: decimal
//! formatting and parsing, character classification, equality, prefix and
//! substring tests, trimming, ASCII case mapping and splitting.

use vstd::prelude::*;

verus! {

// ---------------------------------------------------------------------------
// Character classification
// ---------------------------------------------------------------------------

/// Decimal digit characters.
pub open spec fn is_digit(c: char) -> bool {
    '0' <= c <= '9'
}

/// Numeric value of a decimal digit character.
pub open spec fn digit_val(c: char) -> int {
    c as int - '0' as int
}

/// Digit character of a value below ten.
pub open spec fn digit_char(d: int) -> char
    recommends
        0 <= d < 10,
{
    if d == 0 {
        '0'
    } else if d == 1 {
        '1'
    } else if d == 2 {
        '2'
    } else if d == 3 {
        '3'
    } else if d == 4 {
        '4'
    } else if d == 5 {
        '5'
    } else if d == 6 {
        '6'
    } else if d == 7 {
        '7'
    } else if d == 8 {
        '8'
    } else {
        '9'
    }
}

/// The ASCII whitespace characters stripped from the ends of protocol lines.
pub open spec fn is_space(c: char) -> bool {
    c == ' ' || c == '\t' || c == '\r' || c == '\n'
}

/// Every character of the sequence is a decimal digit.
pub open spec fn all_digits(s: Seq<char>) -> bool {
    forall|i: int| 0 <= i < s.len() ==> is_digit(#[trigger] s[i])
}

/// Value of a sequence of decimal digits, most significant first.
pub open spec fn dec_val(s: Seq<char>) -> int
    decreases s.len(),
{
    if s.len() == 0 {
        0
    } else {
        dec_val(s.drop_last()) * 10 + digit_val(s.last())
    }
}

/// Shortest decimal representation of a natural number.
pub open spec fn dec_rep(n: nat) -> Seq<char>
    decreases n,
{
    if n < 10 {
        seq![digit_char(n as int)]
    } else {
        dec_rep(n / 10).push(digit_char((n % 10) as int))
    }
}

/// Decimal representation of an integer, with a leading minus sign when
/// negative.
pub open spec fn int_rep(v: int) -> Seq<char> {
    if v < 0 {
        seq!['-'] + dec_rep((-v) as nat)
    } else {
        dec_rep(v as nat)
    }
}

/// Two-digit zero-padded decimal representation of a value below a hundred.
pub open spec fn two_digit_rep(n: nat) -> Seq<char>
    recommends
        n < 100,
{
    seq![digit_char(n as int / 10), digit_char(n as int % 10)]
}

// ---------------------------------------------------------------------------
// Decimal formatting
// ---------------------------------------------------------------------------

fn digit_str(d: u64) -> (s: &'static str)
    requires
        d < 10,
    ensures
        s@ == seq![digit_char(d as int)],
{
    proof {
        reveal_strlit("0");
        reveal_strlit("1");
        reveal_strlit("2");
        reveal_strlit("3");
        reveal_strlit("4");
        reveal_strlit("5");
        reveal_strlit("6");
        reveal_strlit("7");
        reveal_strlit("8");
        reveal_strlit("9");
    }
    let s: &'static str = match d {
        0 => "0",
        1 => "1",
        2 => "2",
        3 => "3",
        4 => "4",
        5 => "5",
        6 => "6",
        7 => "7",
        8 => "8",
        _ => "9",
    };
    proof {
        assert(s@ =~= seq![digit_char(d as int)]);
    }
    s
}

/// Shortest decimal representation of an unsigned number.
pub fn u64_to_string(n: u64) -> (s: String)
    ensures
        s@ == dec_rep(n as nat),
    decreases n,
{
    if n < 10 {
        String::from_str(digit_str(n))
    } else {
        let mut s = u64_to_string(n / 10);
        s.append(digit_str(n % 10));
        proof {
            assert(s@ =~= dec_rep((n / 10) as nat).push(digit_char((n % 10) as int)));
        }
        s
    }
}

/// Decimal representation of a signed number, with a minus sign when negative.
pub fn i64_to_string(n: i64) -> (s: String)
    ensures
        s@ == int_rep(n as int),
{
    if n >= 0 {
        u64_to_string(n as u64)
    } else {
        let mag: u64 = if n == i64::MIN {
            9223372036854775808u64
        } else {
            (-n) as u64
        };
        proof {
            reveal_strlit("-");
            assert(mag as int == -(n as int));
        }
        let mut s = String::from_str("-");
        s.append(u64_to_string(mag).as_str());
        proof {
            assert(s@ =~= seq!['-'] + dec_rep((-(n as int)) as nat));
        }
        s
    }
}

/// Two-digit zero-padded representation of a value below a hundred.
pub fn u8_two_digits(n: u8) -> (s: String)
    requires
        n < 100,
    ensures
        s@ == two_digit_rep(n as nat),
{
    let mut s = String::from_str(digit_str((n / 10) as u64));
    s.append(digit_str((n % 10) as u64));
    proof {
        assert(s@ =~= two_digit_rep(n as nat));
    }
    s
}

// ---------------------------------------------------------------------------
// Decimal parsing
// ---------------------------------------------------------------------------

proof fn lemma_dec_val_nonneg(s: Seq<char>)
    requires
        all_digits(s),
    ensures
        dec_val(s) >= 0,
    decreases s.len(),
{
    if s.len() > 0 {
        assert(all_digits(s.drop_last())) by {
            assert(forall|i: int|
                0 <= i < s.len() - 1 ==> s.drop_last()[i] == #[trigger] s[i]);
        }
        lemma_dec_val_nonneg(s.drop_last());
    }
}

proof fn lemma_dec_val_take_step(s: Seq<char>, i: int)
    requires
        0 <= i < s.len(),
    ensures
        dec_val(s.take(i + 1)) == dec_val(s.take(i)) * 10 + digit_val(s[i]),
{
    assert(s.take(i + 1).drop_last() =~= s.take(i));
    assert(s.take(i + 1).last() == s[i]);
}

proof fn lemma_dec_val_take_mono(s: Seq<char>, i: int)
    requires
        all_digits(s),
        0 <= i <= s.len(),
    ensures
        dec_val(s) >= dec_val(s.take(i)),
        dec_val(s.take(i)) >= 0,
    decreases s.len() - i,
{
    assert(all_digits(s.take(i))) by {
        assert(forall|j: int| 0 <= j < i ==> s.take(i)[j] == #[trigger] s[j]);
    }
    lemma_dec_val_nonneg(s.take(i));
    if i < s.len() {
        lemma_dec_val_take_step(s, i);
        lemma_dec_val_take_mono(s, i + 1);
        assert(dec_val(s.take(i + 1)) >= dec_val(s.take(i)));
    } else {
        assert(s.take(i) =~= s);
    }
}

/// Parse a run of decimal digits as an unsigned value no greater than the
/// given bound; anything else (empty, a non-digit, too large) is rejected.
pub fn parse_digits_bounded(s: &str, bound: u64) -> (r: Option<u64>)
    ensures
        r matches Some(v) ==> s@.len() > 0 && all_digits(s@) && dec_val(s@) == v as int && v
            <= bound,
        r is None ==> s@.len() == 0 || !all_digits(s@) || dec_val(s@) > bound,
{
    let n = s.unicode_len();
    if n == 0 {
        return None;
    }
    let mut i: usize = 0;
    let mut acc: u64 = 0;
    while i < n
        invariant
            0 < n == s@.len(),
            0 <= i <= n,
            all_digits(s@.take(i as int)),
            acc as int == dec_val(s@.take(i as int)),
            acc <= bound,
        decreases n - i,
    {
        let c = s.get_char(i);
        if !('0' <= c && c <= '9') {
            return None;
        }
        let d: u64 = (c as u32 as u64) - 48;
        proof {
            assert(d as int == digit_val(s@[i as int]));
            lemma_dec_val_take_step(s@, i as int);
            assert(all_digits(s@.take(i as int + 1))) by {
                assert(forall|j: int|
                    0 <= j < i as int + 1 ==> s@.take(i as int + 1)[j] == #[trigger] s@[j]);
            }
        }
        if acc > bound / 10 || d > bound - acc * 10 {
            // The digits already seen exceed the bound, and further digits
            // can only increase the value.
            proof {
                if all_digits(s@) {
                    lemma_dec_val_take_mono(s@, i as int + 1);
                }
            }
            return None;
        }
        acc = acc * 10 + d;
        i = i + 1;
    }
    proof {
        assert(s@.take(n as int) =~= s@);
    }
    Some(acc)
}

/// Value of a decimal string with an optional leading sign: an optional `+`
/// or `-`, then one or more digits.
pub open spec fn parse_int_spec(s: Seq<char>) -> Option<int> {
    if s.len() >= 1 && (s[0] == '-' || s[0] == '+') {
        let rest = s.skip(1);
        if rest.len() > 0 && all_digits(rest) {
            if s[0] == '-' {
                Some(-dec_val(rest))
            } else {
                Some(dec_val(rest))
            }
        } else {
            None
        }
    } else if s.len() > 0 && all_digits(s) {
        Some(dec_val(s))
    } else {
        None
    }
}

/// Parse a signed decimal string into a 64-bit integer; out-of-range values
/// are rejected.
pub fn parse_i64(s: &str) -> (r: Option<i64>)
    ensures
        r matches Some(v) ==> parse_int_spec(s@) == Some(v as int),
        r is None ==> (match parse_int_spec(s@) {
            Some(v) => !(i64::MIN <= v <= i64::MAX),
            None => true,
        }),
{
    let n = s.unicode_len();
    if n == 0 {
        return None;
    }
    let first = s.get_char(0);
    let neg = first == '-';
    let signed = neg || first == '+';
    let digits = if signed {
        s.substring_char(1, n)
    } else {
        s.substring_char(0, n)
    };
    proof {
        if !signed {
            assert(digits@ =~= s@);
        } else {
            assert(digits@ =~= s@.skip(1));
        }
    }
    let limit: u64 = if neg {
        9223372036854775808u64
    } else {
        9223372036854775807u64
    };
    match parse_digits_bounded(digits, limit) {
        Some(mag) => {
            if neg {
                if mag == 9223372036854775808u64 {
                    Some(i64::MIN)
                } else {
                    Some(-(mag as i64))
                }
            } else {
                Some(mag as i64)
            }
        },
        None => {
            proof {
                if parse_int_spec(s@) is Some {
                    lemma_dec_val_nonneg(digits@);
                }
            }
            None
        },
    }
}

/// Parse a decimal string of digits only (no sign) into a byte.
pub fn parse_u8_digits(s: &str) -> (r: Option<u8>)
    ensures
        r matches Some(v) ==> s@.len() > 0 && all_digits(s@) && dec_val(s@) == v as int,
        r is None ==> s@.len() == 0 || !all_digits(s@) || dec_val(s@) > 255,
{
    match parse_digits_bounded(s, 255) {
        Some(v) => Some(v as u8),
        None => None,
    }
}

// ---------------------------------------------------------------------------
// Equality, prefix, containment
// ---------------------------------------------------------------------------

/// Character-wise string equality.
pub fn str_eq(a: &str, b: &str) -> (r: bool)
    ensures
        r == (a@ == b@),
{
    let n = a.unicode_len();
    if n != b.unicode_len() {
        return false;
    }
    let mut i: usize = 0;
    while i < n
        invariant
            n == a@.len(),
            n == b@.len(),
            0 <= i <= n,
            forall|j: int| 0 <= j < i ==> a@[j] == b@[j],
        decreases n - i,
    {
        if a.get_char(i) != b.get_char(i) {
            return false;
        }
        i = i + 1;
    }
    proof {
        assert(a@ =~= b@);
    }
    true
}

/// The first sequence begins with the second.
pub open spec fn starts_with(s: Seq<char>, p: Seq<char>) -> bool {
    s.len() >= p.len() && s.take(p.len() as int) == p
}

/// Character-wise prefix test.
pub fn str_starts_with(s: &str, p: &str) -> (r: bool)
    ensures
        r == starts_with(s@, p@),
{
    let n = s.unicode_len();
    let m = p.unicode_len();
    if n < m {
        return false;
    }
    let mut i: usize = 0;
    while i < m
        invariant
            n == s@.len(),
            m == p@.len(),
            m <= n,
            0 <= i <= m,
            forall|j: int| 0 <= j < i ==> s@[j] == p@[j],
        decreases m - i,
    {
        if s.get_char(i) != p.get_char(i) {
            proof {
                if starts_with(s@, p@) {
                    assert(s@.take(m as int)[i as int] == p@[i as int]);
                }
            }
            return false;
        }
        i = i + 1;
    }
    proof {
        assert(s@.take(m as int) =~= p@);
    }
    true
}

/// The first sequence holds the second somewhere as a contiguous run.
pub open spec fn contains_seq(s: Seq<char>, sub: Seq<char>) -> bool {
    exists|i: int|
        0 <= i <= s.len() - sub.len() && #[trigger] s.subrange(i, i + sub.len() as int) == sub
}

fn match_at(s: &str, sub: &str, at: usize) -> (r: bool)
    requires
        at + sub@.len() <= s@.len(),
        s@.len() <= usize::MAX,
    ensures
        r == (s@.subrange(at as int, at as int + sub@.len() as int) == sub@),
{
    let m = sub.unicode_len();
    let mut i: usize = 0;
    while i < m
        invariant
            m == sub@.len(),
            at + m <= s@.len(),
            s@.len() <= usize::MAX,
            0 <= i <= m,
            forall|j: int| 0 <= j < i ==> s@[at as int + j] == sub@[j],
        decreases m - i,
    {
        if s.get_char(at + i) != sub.get_char(i) {
            proof {
                let range = s@.subrange(at as int, at as int + m as int);
                if range == sub@ {
                    assert(range[i as int] == sub@[i as int]);
                }
            }
            return false;
        }
        i = i + 1;
    }
    proof {
        assert(s@.subrange(at as int, at as int + m as int) =~= sub@);
    }
    true
}

/// Substring search.
pub fn str_contains(s: &str, sub: &str) -> (r: bool)
    ensures
        r == contains_seq(s@, sub@),
{
    let n = s.unicode_len();
    let m = sub.unicode_len();
    if m > n {
        return false;
    }
    if m == 0 {
        proof {
            assert(s@.subrange(0, 0 + sub@.len() as int) =~= sub@);
        }
        return true;
    }
    let mut i: usize = 0;
    while i < n - m + 1
        invariant
            n == s@.len(),
            m == sub@.len(),
            0 < m <= n,
            0 <= i <= n - m + 1,
            forall|j: int|
                0 <= j < i ==> #[trigger] s@.subrange(j, j + m as int) != sub@,
        decreases n - m + 1 - i,
    {
        if match_at(s, sub, i) {
            return true;
        }
        i = i + 1;
    }
    false
}

// ---------------------------------------------------------------------------
// Trimming
// ---------------------------------------------------------------------------

/// The sequence with leading ASCII whitespace removed.
pub open spec fn trim_start(s: Seq<char>) -> Seq<char>
    decreases s.len(),
{
    if s.len() > 0 && is_space(s[0]) {
        trim_start(s.skip(1))
    } else {
        s
    }
}

/// The sequence with trailing ASCII whitespace removed.
pub open spec fn trim_end(s: Seq<char>) -> Seq<char>
    decreases s.len(),
{
    if s.len() > 0 && is_space(s.last()) {
        trim_end(s.drop_last())
    } else {
        s
    }
}

/// The sequence with ASCII whitespace removed from both ends.
pub open spec fn trim_seq(s: Seq<char>) -> Seq<char> {
    trim_end(trim_start(s))
}

proof fn lemma_trim_start_step(s: Seq<char>, i: int)
    requires
        0 <= i <= s.len(),
        forall|j: int| 0 <= j < i ==> is_space(#[trigger] s[j]),
    ensures
        trim_start(s) == trim_start(s.skip(i)),
    decreases i,
{
    if i == 0 {
        assert(s.skip(0) =~= s);
    } else {
        assert(is_space(s[0]));
        assert(s.skip(1).len() == s.len() - 1);
        assert(forall|j: int| 0 <= j < i - 1 ==> is_space(#[trigger] s.skip(1)[j]));
        lemma_trim_start_step(s.skip(1), i - 1);
        assert(s.skip(1).skip(i - 1) =~= s.skip(i));
    }
}

proof fn lemma_trim_end_step(s: Seq<char>, i: int)
    requires
        0 <= i <= s.len(),
        forall|j: int| i <= j < s.len() ==> is_space(#[trigger] s[j]),
    ensures
        trim_end(s) == trim_end(s.take(i)),
    decreases s.len() - i,
{
    if i < s.len() {
        assert(is_space(s.last()));
        assert(forall|j: int|
            i <= j < s.drop_last().len() ==> is_space(#[trigger] s.drop_last()[j]));
        lemma_trim_end_step(s.drop_last(), i);
        assert(s.drop_last().take(i) =~= s.take(i));
    } else {
        assert(s.take(i) =~= s);
    }
}

fn is_space_char(c: char) -> (r: bool)
    ensures
        r == is_space(c),
{
    c == ' ' || c == '\t' || c == '\r' || c == '\n'
}

/// Remove ASCII whitespace from both ends of a line.
pub fn trim_str(s: &str) -> (r: &str)
    ensures
        r@ == trim_seq(s@),
{
    let n = s.unicode_len();
    let mut lo: usize = 0;
    while lo < n && is_space_char(s.get_char(lo))
        invariant
            n == s@.len(),
            0 <= lo <= n,
            forall|j: int| 0 <= j < lo ==> is_space(#[trigger] s@[j]),
        decreases n - lo,
    {
        lo = lo + 1;
    }
    proof {
        lemma_trim_start_step(s@, lo as int);
        assert(trim_start(s@) == s@.skip(lo as int)) by {
            if lo < n {
                assert(!is_space(s@.skip(lo as int)[0]));
            } else {
                assert(s@.skip(lo as int).len() == 0);
            }
        }
    }
    let mut hi: usize = n;
    while hi > lo && is_space_char(s.get_char(hi - 1))
        invariant
            n == s@.len(),
            0 <= lo <= hi <= n,
            trim_start(s@) == s@.skip(lo as int),
            forall|j: int| hi <= j < n ==> is_space(#[trigger] s@[j]),
        decreases hi,
    {
        hi = hi - 1;
    }
    let r = s.substring_char(lo, hi);
    proof {
        let t = s@.skip(lo as int);
        assert(forall|j: int|
            hi - lo <= j < t.len() ==> is_space(#[trigger] t[j]));
        lemma_trim_end_step(t, hi - lo);
        assert(trim_end(t.take(hi - lo)) == t.take(hi - lo)) by {
            if hi > lo {
                assert(t.take(hi - lo).last() == s@[hi - 1]);
                assert(!is_space(s@[hi - 1]));
            }
        }
        assert(r@ =~= t.take(hi - lo));
    }
    r
}

// ---------------------------------------------------------------------------
// ASCII case mapping
// ---------------------------------------------------------------------------

/// ASCII uppercase mapping of one character.
pub open spec fn up_char(c: char) -> char {
    if 'a' <= c <= 'z' {
        ((c as u32) - 32) as char
    } else {
        c
    }
}

/// ASCII lowercase mapping of one character.
pub open spec fn low_char(c: char) -> char {
    if 'A' <= c <= 'Z' {
        ((c as u32) + 32) as char
    } else {
        c
    }
}

/// ASCII uppercase mapping of a sequence.
pub open spec fn upper_seq(s: Seq<char>) -> Seq<char> {
    s.map_values(|c: char| up_char(c))
}

/// ASCII lowercase mapping of a sequence.
pub open spec fn lower_seq(s: Seq<char>) -> Seq<char> {
    s.map_values(|c: char| low_char(c))
}

fn up_char_exec(c: char) -> (r: char)
    ensures
        r == up_char(c),
{
    if 'a' <= c && c <= 'z' {
        (((c as u32) - 32) as u8) as char
    } else {
        c
    }
}

fn low_char_exec(c: char) -> (r: char)
    ensures
        r == low_char(c),
{
    if 'A' <= c && c <= 'Z' {
        (((c as u32) + 32) as u8) as char
    } else {
        c
    }
}

/// Relies on String::push: appends the given character to the end of the
/// string.
#[verifier::external_body]
fn push_char(s: &mut String, c: char)
    ensures
        final(s)@ == old(s)@ + seq![c],
{
    s.push(c)
}

/// ASCII uppercase copy of a string.
pub fn to_upper(s: &str) -> (r: String)
    ensures
        r@ == upper_seq(s@),
{
    let n = s.unicode_len();
    let mut r = String::new();
    let mut i: usize = 0;
    while i < n
        invariant
            n == s@.len(),
            0 <= i <= n,
            r@ == upper_seq(s@.take(i as int)),
        decreases n - i,
    {
        let c = up_char_exec(s.get_char(i));
        push_char(&mut r, c);
        proof {
            assert(r@ =~= upper_seq(s@.take(i as int + 1)));
        }
        i = i + 1;
    }
    proof {
        assert(s@.take(n as int) =~= s@);
    }
    r
}

/// ASCII lowercase copy of a string.
pub fn to_lower(s: &str) -> (r: String)
    ensures
        r@ == lower_seq(s@),
{
    let n = s.unicode_len();
    let mut r = String::new();
    let mut i: usize = 0;
    while i < n
        invariant
            n == s@.len(),
            0 <= i <= n,
            r@ == lower_seq(s@.take(i as int)),
        decreases n - i,
    {
        let c = low_char_exec(s.get_char(i));
        push_char(&mut r, c);
        proof {
            assert(r@ =~= lower_seq(s@.take(i as int + 1)));
        }
        i = i + 1;
    }
    proof {
        assert(s@.take(n as int) =~= s@);
    }
    r
}

// ---------------------------------------------------------------------------
// Finding and splitting
// ---------------------------------------------------------------------------

/// Index of the first occurrence of a character, or -1 when absent.
pub open spec fn find_char(s: Seq<char>, c: char) -> int
    decreases s.len(),
{
    if s.len() == 0 {
        -1
    } else if s[0] == c {
        0
    } else if find_char(s.skip(1), c) == -1 {
        -1
    } else {
        find_char(s.skip(1), c) + 1
    }
}

/// `find_char` returns the first index holding the character, or -1 when no
/// index does.
pub proof fn lemma_find_char(s: Seq<char>, c: char)
    ensures
        find_char(s, c) == -1 ==> forall|i: int| 0 <= i < s.len() ==> s[i] != c,
        find_char(s, c) != -1 ==> {
            &&& 0 <= find_char(s, c) < s.len()
            &&& s[find_char(s, c)] == c
            &&& forall|i: int| 0 <= i < find_char(s, c) ==> s[i] != c
        },
    decreases s.len(),
{
    if s.len() > 0 {
        lemma_find_char(s.skip(1), c);
        assert(forall|i: int| 1 <= i < s.len() ==> s[i] == s.skip(1)[i - 1]);
    }
}

/// `find_char` over a concatenation whose first part lacks the character.
pub proof fn lemma_find_char_concat(a: Seq<char>, b: Seq<char>, c: char)
    requires
        !a.contains(c),
    ensures
        find_char(a + b, c) == if find_char(b, c) == -1 {
            -1int
        } else {
            a.len() + find_char(b, c)
        },
    decreases a.len(),
{
    if a.len() == 0 {
        assert(a + b =~= b);
    } else {
        assert((a + b).len() > 0);
        assert((a + b)[0] == a[0]);
        assert(a[0] != c) by {
            if a[0] == c {
                assert(0 <= 0 < a.len() && a[0] == c);
                assert(a.contains(c));
            }
        }
        assert((a + b).skip(1) =~= a.skip(1) + b);
        assert(!a.skip(1).contains(c)) by {
            if a.skip(1).contains(c) {
                let i = choose|i: int| 0 <= i < a.skip(1).len() && a.skip(1)[i] == c;
                assert(a[i + 1] == c);
            }
        }
        lemma_find_char_concat(a.skip(1), b, c);
        lemma_find_char(b, c);
        assert(find_char((a + b).skip(1), c) == find_char(a.skip(1) + b, c));
        if find_char(b, c) == -1 {
            assert(find_char(a + b, c) == -1);
        } else {
            assert(find_char((a + b).skip(1), c) == a.len() - 1 + find_char(b, c));
            assert(find_char(a + b, c) == a.len() + find_char(b, c));
        }
    }
}

/// Split at every occurrence of a separator; a sequence with no separator
/// yields itself as the only part.
pub open spec fn split_seq(s: Seq<char>, sep: char) -> Seq<Seq<char>>
    decreases s.len(),
{
    let i = find_char(s, sep);
    if i == -1 {
        seq![s]
    } else if 0 <= i < s.len() {
        seq![s.subrange(0, i)] + split_seq(s.subrange(i + 1, s.len() as int), sep)
    } else {
        // find_char never points past the end; this branch is unreachable and
        // only satisfies the termination check.
        seq![s]
    }
}

/// Unfolding rule for `split_seq` around one separator.
pub proof fn lemma_split_seq_concat(a: Seq<char>, b: Seq<char>, sep: char)
    requires
        !a.contains(sep),
    ensures
        split_seq(a + seq![sep] + b, sep) == seq![a] + split_seq(b, sep),
{
    let s = a + seq![sep] + b;
    assert(a + seq![sep] + b =~= a + (seq![sep] + b));
    lemma_find_char_concat(a, seq![sep] + b, sep);
    assert((seq![sep] + b)[0] == sep);
    assert(find_char(seq![sep] + b, sep) == 0);
    let i = find_char(s, sep);
    assert(i == a.len());
    lemma_find_char(s, sep);
    assert(s.subrange(0, i) =~= a);
    assert(s.subrange(i + 1, s.len() as int) =~= b);
}

/// When the separator is absent, the whole sequence is the only part.
pub proof fn lemma_split_seq_whole(s: Seq<char>, sep: char)
    requires
        !s.contains(sep),
    ensures
        split_seq(s, sep) == seq![s],
{
    lemma_find_char(s, sep);
    if find_char(s, sep) != -1 {
        assert(s.contains(sep));
    }
}

/// Views of a vector of owned strings.
pub open spec fn str_views(v: Seq<String>) -> Seq<Seq<char>> {
    v.map_values(|p: String| p@)
}

/// Split a string at every occurrence of a separator character.
pub fn split_str(s: &str, sep: char) -> (parts: Vec<String>)
    ensures
        str_views(parts@) == split_seq(s@, sep),
{
    let n = s.unicode_len();
    let mut parts: Vec<String> = Vec::new();
    let mut start: usize = 0;
    let mut i: usize = 0;
    proof {
        assert(s@.subrange(0, n as int) =~= s@);
        assert(str_views(parts@) + split_seq(s@, sep) =~= split_seq(s@, sep));
    }
    while i < n
        invariant
            n == s@.len(),
            0 <= start <= i <= n,
            forall|j: int| start <= j < i ==> s@[j] != sep,
            split_seq(s@, sep) == str_views(parts@) + split_seq(
                s@.subrange(start as int, n as int),
                sep,
            ),
        decreases n - i,
    {
        if s.get_char(i) == sep {
            let part = String::from_str(s.substring_char(start, i));
            proof {
                let tail = s@.subrange(start as int, n as int);
                let head = s@.subrange(start as int, i as int);
                let rest = s@.subrange(i as int + 1, n as int);
                assert(!head.contains(sep)) by {
                    if head.contains(sep) {
                        let k = choose|k: int| 0 <= k < head.len() && head[k] == sep;
                        assert(s@[start + k] == sep);
                    }
                }
                assert(tail =~= head + seq![sep] + rest);
                lemma_split_seq_concat(head, rest, sep);
                assert(part@ == head);
                assert(str_views(parts@.push(part)) =~= str_views(parts@) + seq![part@]);
                assert(str_views(parts@) + (seq![head] + split_seq(rest, sep)) =~= (str_views(
                    parts@,
                ) + seq![head]) + split_seq(rest, sep));
            }
            parts.push(part);
            start = i + 1;
        }
        i = i + 1;
    }
    let last = String::from_str(s.substring_char(start, n));
    proof {
        let tail = s@.subrange(start as int, n as int);
        assert(!tail.contains(sep)) by {
            if tail.contains(sep) {
                let k = choose|k: int| 0 <= k < tail.len() && tail[k] == sep;
                assert(s@[start + k] == sep);
            }
        }
        lemma_split_seq_whole(tail, sep);
        assert(last@ == tail);
        assert(str_views(parts@.push(last)) =~= str_views(parts@) + seq![tail]);
    }
    parts.push(last);
    parts
}

/// Split at the first occurrence of a separator, as key and value.
pub fn split_once_str(s: &str, sep: char) -> (r: Option<(String, String)>)
    ensures
        find_char(s@, sep) == -1 ==> r is None,
        find_char(s@, sep) != -1 ==> (r matches Some(kv) && kv.0@ == s@.subrange(
            0,
            find_char(s@, sep),
        ) && kv.1@ == s@.subrange(find_char(s@, sep) + 1, s@.len() as int)),
{
    let n = s.unicode_len();
    let mut i: usize = 0;
    proof {
        lemma_find_char(s@, sep);
    }
    while i < n
        invariant
            n == s@.len(),
            0 <= i <= n,
            forall|j: int| 0 <= j < i ==> s@[j] != sep,
            find_char(s@, sep) == -1 ==> forall|j: int| 0 <= j < n ==> s@[j] != sep,
            find_char(s@, sep) != -1 ==> 0 <= find_char(s@, sep) < n && s@[find_char(s@, sep)]
                == sep && forall|j: int| 0 <= j < find_char(s@, sep) ==> s@[j] != sep,
        decreases n - i,
    {
        if s.get_char(i) == sep {
            let k = String::from_str(s.substring_char(0, i));
            let v = String::from_str(s.substring_char(i + 1, n));
            return Some((k, v));
        }
        i = i + 1;
    }
    None
}

} // verus!
