//! Character-level helpers shared by the parsers of this crate: decimal
//! numbers, booleans, splitting and joining.
use vstd::prelude::*;
use vstd::string::*;

verus! {

/// Appends one character to a `String` (std's `String::push`).
#[verifier::external_body]
pub(crate) fn push_char(s: &mut String, c: char)
    ensures
        final(s)@ == old(s)@.push(c),
{
    s.push(c);
}

/// Appends a string slice to a `String`.
pub(crate) fn push_str(s: &mut String, t: &str)
    ensures
        final(s)@ == old(s)@ + t@,
{
    s.append(t);
}

/// What std's `char::to_uppercase` yields for a character, collected into a
/// string (one character, or several for a few letters).
pub uninterp spec fn spec_char_to_uppercase(c: char) -> Seq<char>;

/// The upper-case form of a character (std's `char::to_uppercase`, collected).
/// Its contract names the result and states the ASCII case that std
/// documents: `a` to `z` become `A` to `Z`, and any other ASCII character,
/// having no upper-case mapping, stays as it is. The Unicode case tables
/// are not written out here.
#[verifier::external_body]
pub(crate) fn char_to_uppercase(c: char) -> (s: String)
    ensures
        s@ == spec_char_to_uppercase(c),
        'a' <= c && c <= 'z' ==> s@.len() == 1 && s@[0] as u32 == c as u32 - 32,
        (c as u32) < 128 && !('a' <= c && c <= 'z') ==> s@ == seq![c],
{
    c.to_uppercase().collect()
}

/// The characters of `v` from index `from` to index `to`.
pub fn chars_range(v: &[char], from: usize, to: usize) -> (r: Vec<char>)
    requires
        from <= to <= v.len(),
    ensures
        r@ == v@.subrange(from as int, to as int),
{
    let mut r: Vec<char> = Vec::new();
    let mut i: usize = from;
    while i < to
        invariant
            from <= i <= to <= v.len(),
            r@ == v@.subrange(from as int, i as int),
        decreases to - i,
    {
        r.push(v[i]);
        assert(v@.subrange(from as int, i as int + 1) =~= v@.subrange(from as int, i as int).push(v@[i as int]));
        i = i + 1;
    }
    r
}

/// The characters of a string slice, in order.
pub fn str_chars(s: &str) -> (v: Vec<char>)
    ensures
        v@ == s@,
{
    let n = s.unicode_len();
    let mut v: Vec<char> = Vec::new();
    let mut i: usize = 0;
    while i < n
        invariant
            n == s@.len(),
            i <= n,
            v@ == s@.take(i as int),
        decreases n - i,
    {
        let c = s.get_char(i);
        v.push(c);
        assert(s@.take(i as int + 1) =~= s@.take(i as int).push(c));
        i = i + 1;
    }
    assert(s@.take(n as int) =~= s@);
    v
}

/// A `String` holding exactly the given characters.
pub fn string_from_chars(v: &[char]) -> (s: String)
    ensures
        s@ == v@,
{
    let mut s = String::new();
    let mut i: usize = 0;
    while i < v.len()
        invariant
            i <= v.len(),
            s@ == v@.take(i as int),
        decreases v.len() - i,
    {
        push_char(&mut s, v[i]);
        assert(v@.take(i as int + 1) =~= v@.take(i as int).push(v@[i as int]));
        i = i + 1;
    }
    assert(v@.take(v.len() as int) =~= v@);
    s
}

/// Whether two character sequences are equal.
pub fn chars_eq(a: &[char], b: &[char]) -> (res: bool)
    ensures
        res == (a@ == b@),
{
    if a.len() != b.len() {
        return false;
    }
    let mut i: usize = 0;
    while i < a.len()
        invariant
            a.len() == b.len(),
            i <= a.len(),
            forall|j: int| 0 <= j < i ==> a@[j] == b@[j],
        decreases a.len() - i,
    {
        if a[i] != b[i] {
            return false;
        }
        i = i + 1;
    }
    assert(a@ =~= b@);
    true
}

/// Whether a character sequence equals the characters of a string slice.
pub fn chars_eq_str(a: &[char], b: &str) -> (res: bool)
    ensures
        res == (a@ == b@),
{
    let bv = str_chars(b);
    chars_eq(a, bv.as_slice())
}

/// Whether two string slices hold the same characters.
pub fn str_eq(a: &str, b: &str) -> (res: bool)
    ensures
        res == (a@ == b@),
{
    let av = str_chars(a);
    chars_eq_str(av.as_slice(), b)
}

/// A copy of a list of strings.
pub fn clone_strings(v: &Vec<String>) -> (r: Vec<String>)
    ensures
        r@ == v@,
        r.deep_view() == v.deep_view(),
{
    let mut r: Vec<String> = Vec::new();
    let mut i: usize = 0;
    while i < v.len()
        invariant
            i <= v.len(),
            r@ == v@.subrange(0, i as int),
        decreases v.len() - i,
    {
        r.push(v[i].clone());
        i = i + 1;
    }
    assert(r@ =~= v@);
    assert(r.deep_view() =~= v.deep_view());
    r
}

// ---------------------------------------------------------------------------
// Decimal numbers
// ---------------------------------------------------------------------------

pub open spec fn is_digit(c: char) -> bool {
    '0' <= c && c <= '9'
}

pub open spec fn all_digits(s: Seq<char>) -> bool {
    forall|i: int| 0 <= i < s.len() ==> is_digit(#[trigger] s[i])
}

pub open spec fn digit_value(c: char) -> nat {
    (c as int - '0' as int) as nat
}

/// The number written by a sequence of decimal digits.
pub open spec fn digits_value(s: Seq<char>) -> nat
    decreases s.len(),
{
    if s.len() == 0 {
        0
    } else {
        digits_value(s.drop_last()) * 10 + digit_value(s.last())
    }
}

/// What `str::parse` gives for an unsigned integer type whose largest value is
/// `max`: an optional leading `+`, then at least one decimal digit and nothing
/// else, and the value must not exceed `max`.
pub open spec fn spec_parse_unsigned(s: Seq<char>, max: nat) -> Option<nat> {
    let d = if s.len() > 0 && s[0] == '+' { s.drop_first() } else { s };
    if d.len() > 0 && all_digits(d) && digits_value(d) <= max {
        Some(digits_value(d))
    } else {
        None
    }
}

pub open spec fn digit_char(n: nat) -> char {
    if n == 0 { '0' }
    else if n == 1 { '1' }
    else if n == 2 { '2' }
    else if n == 3 { '3' }
    else if n == 4 { '4' }
    else if n == 5 { '5' }
    else if n == 6 { '6' }
    else if n == 7 { '7' }
    else if n == 8 { '8' }
    else { '9' }
}

/// The decimal representation of a natural number, without leading zeros.
pub open spec fn spec_decimal(n: nat) -> Seq<char>
    decreases n,
{
    if n < 10 {
        seq![digit_char(n)]
    } else {
        spec_decimal(n / 10).push(digit_char(n % 10))
    }
}

/// The decimal representation of an integer, with a leading `-` when negative.
pub open spec fn spec_signed_decimal(n: int) -> Seq<char> {
    if n < 0 {
        seq!['-'] + spec_decimal((-n) as nat)
    } else {
        spec_decimal(n as nat)
    }
}

proof fn lemma_digit_char(n: nat)
    requires
        n < 10,
    ensures
        is_digit(digit_char(n)),
        digit_value(digit_char(n)) == n,
        digit_char(n) != '+',
        digit_char(n) != '-',
        digit_char(n) != '=',
{
}

/// The decimal representation of `n` consists of digits, is not empty, and
/// its value is `n`.
pub proof fn lemma_decimal_digits(n: nat)
    ensures
        spec_decimal(n).len() > 0,
        all_digits(spec_decimal(n)),
        digits_value(spec_decimal(n)) == n,
        spec_decimal(n)[0] != '+',
        spec_decimal(n)[0] != '-',
        !spec_decimal(n).contains('='),
    decreases n,
{
    if n < 10 {
        lemma_digit_char(n);
        assert(spec_decimal(n) =~= seq![digit_char(n)]);
        assert(seq![digit_char(n)].drop_last() =~= Seq::<char>::empty());
        assert(digits_value(Seq::<char>::empty()) == 0);
        assert(digits_value(spec_decimal(n)) == digits_value(spec_decimal(n).drop_last()) * 10
            + digit_value(spec_decimal(n).last()));
    } else {
        lemma_decimal_digits(n / 10);
        lemma_digit_char(n % 10);
        let s = spec_decimal(n);
        assert(s =~= spec_decimal(n / 10).push(digit_char(n % 10)));
        assert(s.drop_last() =~= spec_decimal(n / 10));
        assert(s.last() == digit_char(n % 10));
        assert((n / 10) * 10 + n % 10 == n);
        assert(digits_value(s) == digits_value(s.drop_last()) * 10 + digit_value(s.last()));
        assert(digits_value(s.drop_last()) == n / 10);
        assert(digit_value(s.last()) == n % 10);
        assert(s[0] == spec_decimal(n / 10)[0]);
        assert forall|i: int| 0 <= i < s.len() implies is_digit(#[trigger] s[i]) by {
            if i < s.len() - 1 {
                assert(s[i] == spec_decimal(n / 10)[i]);
            }
        }
        let p = spec_decimal(n / 10);
        assert forall|i: int| 0 <= i < s.len() implies s[i] != '=' by {
            if i < s.len() - 1 {
                assert(s[i] == p[i]);
                if p[i] == '=' {
                    assert(p.contains('='));
                }
            }
        }
    }
}

/// Parsing the decimal representation of a number gives the number back.
pub proof fn lemma_parse_decimal(n: nat, max: nat)
    requires
        n <= max,
    ensures
        spec_parse_unsigned(spec_decimal(n), max) == Some(n),
{
    lemma_decimal_digits(n);
}

proof fn lemma_digits_value_take(s: Seq<char>, i: int)
    requires
        0 <= i < s.len(),
    ensures
        digits_value(s.take(i + 1)) == digits_value(s.take(i)) * 10 + digit_value(s[i]),
{
    assert(s.take(i + 1).drop_last() =~= s.take(i));
}

/// Parses an unsigned decimal number the way `str::parse` does for an unsigned
/// integer type whose largest value is `max`.
pub fn parse_unsigned(s: &[char], max: u64) -> (res: Option<u64>)
    ensures
        match spec_parse_unsigned(s@, max as nat) {
            Some(v) => res == Some(v as u64),
            None => res is None,
        },
{
    let start: usize = if s.len() > 0 && s[0] == '+' { 1 } else { 0 };
    let ghost d = if s@.len() > 0 && s@[0] == '+' { s@.drop_first() } else { s@ };
    assert(d =~= s@.skip(start as int));
    if start >= s.len() {
        return None;
    }
    let mut acc: u128 = 0;
    let mut i: usize = start;
    while i < s.len()
        invariant
            start <= i <= s.len(),
            d =~= s@.skip(start as int),
            d == (if s@.len() > 0 && s@[0] == '+' { s@.drop_first() } else { s@ }),
            acc <= max,
            acc == digits_value(d.take(i - start)),
            all_digits(d.take(i - start)),
        decreases s.len() - i,
    {
        let c = s[i];
        if c < '0' || c > '9' {
            assert(d[i - start] == c);
            assert(!is_digit(d[i - start]));
            assert(!all_digits(d));
            return None;
        }
        let ghost k = i - start;
        proof {
            lemma_digits_value_take(d, k);
            assert(d.take(k + 1) =~= d.take(k).push(c));
            assert(all_digits(d.take(k + 1))) by {
                assert forall|j: int| 0 <= j < k + 1 implies is_digit(#[trigger] d.take(k + 1)[j]) by {
                    if j < k {
                        assert(d.take(k + 1)[j] == d.take(k)[j]);
                    }
                }
            }
        }
        let dv: u128 = ((c as u32) - ('0' as u32)) as u128;
        assert(dv == digit_value(c));
        acc = acc * 10 + dv;
        i = i + 1;
        assert(acc == digits_value(d.take(k + 1)));
        if acc > max as u128 {
            proof {
                lemma_digits_value_prefix_bound(d, k + 1);
            }
            return None;
        }
    }
    assert(d.take(i - start) =~= d);
    Some(acc as u64)
}

proof fn lemma_digits_value_prefix_bound(s: Seq<char>, k: int)
    requires
        0 <= k <= s.len(),
        all_digits(s.take(k)),
    ensures
        digits_value(s.take(k)) <= digits_value(s) || !all_digits(s),
    decreases s.len() - k,
{
    if k < s.len() && all_digits(s) {
        lemma_digits_value_take(s, k);
        assert(all_digits(s.take(k + 1)));
        lemma_digits_value_prefix_bound(s, k + 1);
    } else if k == s.len() {
        assert(s.take(k) =~= s);
    }
}

/// Parses a `u32` the way `str::parse::<u32>` does.
pub fn parse_u32(s: &[char]) -> (res: Option<u32>)
    ensures
        match spec_parse_unsigned(s@, u32::MAX as nat) {
            Some(v) => res == Some(v as u32),
            None => res is None,
        },
{
    match parse_unsigned(s, u32::MAX as u64) {
        Some(v) => Some(v as u32),
        None => None,
    }
}

/// Parses a `usize` the way `str::parse::<usize>` does.
pub fn parse_usize(s: &[char]) -> (res: Option<usize>)
    ensures
        match spec_parse_unsigned(s@, usize::MAX as nat) {
            Some(v) => res == Some(v as usize),
            None => res is None,
        },
{
    match parse_unsigned(s, usize::MAX as u64) {
        Some(v) => Some(v as usize),
        None => None,
    }
}

/// What `str::parse::<i32>` gives: an optional sign, then decimal digits,
/// within the range of `i32`.
pub open spec fn spec_parse_i32(s: Seq<char>) -> Option<int> {
    if s.len() > 0 && s[0] == '-' {
        let d = s.drop_first();
        if d.len() > 0 && all_digits(d) && digits_value(d) <= 0x8000_0000 {
            Some(-(digits_value(d) as int))
        } else {
            None
        }
    } else {
        match spec_parse_unsigned(s, i32::MAX as nat) {
            Some(v) => Some(v as int),
            None => None,
        }
    }
}

/// Parses an `i32` the way `str::parse::<i32>` does.
pub fn parse_i32(s: &[char]) -> (res: Option<i32>)
    ensures
        match spec_parse_i32(s@) {
            Some(v) => res == Some(v as i32),
            None => res is None,
        },
{
    if s.len() > 0 && s[0] == '-' {
        let rest = chars_range(s, 1, s.len());
        assert(rest@ =~= s@.drop_first());
        if rest.len() == 0 || rest[0] == '+' {
            proof {
                if rest@.len() > 0 {
                    assert(!is_digit(rest@[0]));
                }
            }
            return None;
        }
        match parse_unsigned(rest.as_slice(), 0x8000_0000) {
            Some(v) => {
                let n: i64 = 0 - (v as i64);
                Some(n as i32)
            },
            None => None,
        }
    } else {
        match parse_unsigned(s, i32::MAX as u64) {
            Some(v) => Some(v as i32),
            None => None,
        }
    }
}

/// Parses a `u16` the way `str::parse::<u16>` does.
pub fn parse_u16(s: &[char]) -> (res: Option<u16>)
    ensures
        match spec_parse_unsigned(s@, u16::MAX as nat) {
            Some(v) => res == Some(v as u16),
            None => res is None,
        },
{
    match parse_unsigned(s, u16::MAX as u64) {
        Some(v) => Some(v as u16),
        None => None,
    }
}

/// The decimal representation of a number.
pub fn to_decimal(n: u64) -> (s: String)
    ensures
        s@ == spec_decimal(n as nat),
    decreases n,
{
    if n < 10 {
        let mut s = String::new();
        push_char(&mut s, decimal_digit(n));
        assert(s@ =~= seq![digit_char(n as nat)]);
        s
    } else {
        let mut s = to_decimal(n / 10);
        push_char(&mut s, decimal_digit(n % 10));
        s
    }
}

/// The decimal representation of a signed number.
pub fn to_signed_decimal(n: i64) -> (s: String)
    ensures
        s@ == spec_signed_decimal(n as int),
{
    if n < 0 {
        let mut s = String::new();
        push_char(&mut s, '-');
        let m: u64 = if n == i64::MIN { 9223372036854775808u64 } else { (-n) as u64 };
        let t = to_decimal(m);
        push_str(&mut s, t.as_str());
        assert(s@ =~= seq!['-'] + spec_decimal((-n) as nat));
        s
    } else {
        to_decimal(n as u64)
    }
}

fn decimal_digit(n: u64) -> (c: char)
    requires
        n < 10,
    ensures
        c == digit_char(n as nat),
{
    if n == 0 { '0' }
    else if n == 1 { '1' }
    else if n == 2 { '2' }
    else if n == 3 { '3' }
    else if n == 4 { '4' }
    else if n == 5 { '5' }
    else if n == 6 { '6' }
    else if n == 7 { '7' }
    else if n == 8 { '8' }
    else { '9' }
}

// ---------------------------------------------------------------------------
// Booleans
// ---------------------------------------------------------------------------

pub open spec fn true_chars() -> Seq<char> {
    seq!['t', 'r', 'u', 'e']
}

pub open spec fn false_chars() -> Seq<char> {
    seq!['f', 'a', 'l', 's', 'e']
}

/// What `str::parse::<bool>` gives: exactly `true` or `false`.
pub open spec fn spec_parse_bool(s: Seq<char>) -> Option<bool> {
    if s == true_chars() {
        Some(true)
    } else if s == false_chars() {
        Some(false)
    } else {
        None
    }
}

pub open spec fn spec_bool_text(b: bool) -> Seq<char> {
    if b { true_chars() } else { false_chars() }
}

/// Parses a boolean the way `str::parse::<bool>` does.
pub fn parse_bool(s: &[char]) -> (res: Option<bool>)
    ensures
        res == spec_parse_bool(s@),
{
    if s.len() == 4 && s[0] == 't' && s[1] == 'r' && s[2] == 'u' && s[3] == 'e' {
        assert(s@ =~= true_chars());
        Some(true)
    } else if s.len() == 5 && s[0] == 'f' && s[1] == 'a' && s[2] == 'l' && s[3] == 's'
        && s[4] == 'e' {
        assert(s@ =~= false_chars());
        Some(false)
    } else {
        assert(s@ != true_chars() && s@ != false_chars()) by {
            if s@ == true_chars() {
                assert(s@.len() == 4 && s@[0] == 't' && s@[1] == 'r');
            }
            if s@ == false_chars() {
                assert(s@.len() == 5 && s@[0] == 'f');
            }
        }
        None
    }
}

/// The text of a boolean, `true` or `false`.
pub fn bool_text(b: bool) -> (s: String)
    ensures
        s@ == spec_bool_text(b),
{
    let mut s = String::new();
    if b {
        push_char(&mut s, 't');
        push_char(&mut s, 'r');
        push_char(&mut s, 'u');
        push_char(&mut s, 'e');
    } else {
        push_char(&mut s, 'f');
        push_char(&mut s, 'a');
        push_char(&mut s, 'l');
        push_char(&mut s, 's');
        push_char(&mut s, 'e');
    }
    assert(s@ =~= spec_bool_text(b));
    s
}

/// A boolean's text parses back to the boolean.
pub proof fn lemma_parse_bool_text(b: bool)
    ensures
        spec_parse_bool(spec_bool_text(b)) == Some(b),
        !spec_bool_text(b).contains('='),
{
    assert(true_chars() != false_chars()) by {
        assert(true_chars().len() != false_chars().len());
    }
    if b {
        assert(!true_chars().contains('=')) by {
            assert forall|i: int| 0 <= i < 4 implies true_chars()[i] != '=' by {}
        }
    } else {
        assert(!false_chars().contains('=')) by {
            assert forall|i: int| 0 <= i < 5 implies false_chars()[i] != '=' by {}
        }
    }
}

// ---------------------------------------------------------------------------
// Searching and splitting
// ---------------------------------------------------------------------------

/// Index of the first occurrence of `c` in `s`, if any.
pub open spec fn spec_find(s: Seq<char>, c: char) -> Option<int>
    decreases s.len(),
{
    if s.len() == 0 {
        None
    } else if s[0] == c {
        Some(0)
    } else {
        match spec_find(s.drop_first(), c) {
            Some(i) => Some(i + 1),
            None => None,
        }
    }
}

pub proof fn lemma_find(s: Seq<char>, c: char)
    ensures
        match spec_find(s, c) {
            Some(i) => 0 <= i < s.len() && s[i] == c && forall|j: int|
                0 <= j < i ==> s[j] != c,
            None => !s.contains(c),
        },
    decreases s.len(),
{
    if s.len() > 0 && s[0] != c {
        lemma_find(s.drop_first(), c);
        match spec_find(s.drop_first(), c) {
            Some(i) => {
                assert forall|j: int| 0 <= j < i + 1 implies s[j] != c by {
                    if j > 0 {
                        assert(s[j] == s.drop_first()[j - 1]);
                    }
                }
            },
            None => {
                assert forall|j: int| 0 <= j < s.len() implies s[j] != c by {
                    if j > 0 {
                        assert(s[j] == s.drop_first()[j - 1]);
                        assert(s.drop_first().contains(s[j]));
                    }
                }
            },
        }
    }
}

/// A sequence holding `c` at `i` and nowhere before is found at `i`.
pub proof fn lemma_find_at(s: Seq<char>, c: char, i: int)
    requires
        0 <= i < s.len(),
        s[i] == c,
        forall|j: int| 0 <= j < i ==> s[j] != c,
    ensures
        spec_find(s, c) == Some(i),
    decreases i,
{
    if i > 0 {
        assert forall|j: int| 0 <= j < i - 1 implies s.drop_first()[j] != c by {
            assert(s.drop_first()[j] == s[j + 1]);
        }
        lemma_find_at(s.drop_first(), c, i - 1);
    }
}

/// A sequence without `c` has no occurrence of it.
pub proof fn lemma_find_none(s: Seq<char>, c: char)
    requires
        !s.contains(c),
    ensures
        spec_find(s, c) is None,
{
    lemma_find(s, c);
    if spec_find(s, c) is Some {
        let i = spec_find(s, c)->0;
        assert(s.contains(s[i]));
    }
}

/// Index of the first occurrence of `c` in `s`, if any.
pub fn find_char(s: &[char], c: char) -> (res: Option<usize>)
    ensures
        match res {
            Some(k) => spec_find(s@, c) == Some(k as int),
            None => spec_find(s@, c) is None,
        },
{
    let mut i: usize = 0;
    while i < s.len()
        invariant
            i <= s.len(),
            forall|j: int| 0 <= j < i ==> s@[j] != c,
        decreases s.len() - i,
    {
        if s[i] == c {
            proof {
                lemma_find_at(s@, c, i as int);
            }
            return Some(i);
        }
        i = i + 1;
    }
    proof {
        assert(!s@.contains(c)) by {
            if s@.contains(c) {
                let k = choose|k: int| 0 <= k < s@.len() && s@[k] == c;
                assert(s@[k] != c);
            }
        }
        lemma_find_none(s@, c);
    }
    None
}

// ---------------------------------------------------------------------------
// Substrings and words
// ---------------------------------------------------------------------------

/// Whether `t` occurs in `s` starting at index `i`.
pub open spec fn spec_occurs_at(s: Seq<char>, t: Seq<char>, i: int) -> bool {
    0 <= i && i + t.len() <= s.len() && s.subrange(i, i + t.len()) == t
}

/// Whether `t` occurs somewhere in `s` (std's `str::contains` with a string
/// pattern).
pub open spec fn spec_contains(s: Seq<char>, t: Seq<char>) -> bool {
    exists|i: int| spec_occurs_at(s, t, i)
}

/// Whether `t` occurs in `s` at index `i`.
fn occurs_at(s: &[char], t: &[char], i: usize) -> (res: bool)
    requires
        i <= s.len(),
    ensures
        res == spec_occurs_at(s@, t@, i as int),
{
    if t.len() > s.len() - i {
        return false;
    }
    let mut j: usize = 0;
    while j < t.len()
        invariant
            i + t.len() <= s.len(),
            j <= t.len(),
            forall|k: int| 0 <= k < j ==> s@[i + k] == t@[k],
        decreases t.len() - j,
    {
        if s[i + j] != t[j] {
            assert(s@.subrange(i as int, i + t.len())[j as int] != t@[j as int]);
            return false;
        }
        j = j + 1;
    }
    assert(s@.subrange(i as int, i + t.len()) =~= t@);
    true
}

/// Whether the characters of `t` occur in `s`.
pub fn contains_str(s: &[char], t: &str) -> (res: bool)
    ensures
        res == spec_contains(s@, t@),
{
    let tv = str_chars(t);
    let mut i: usize = 0;
    while i < s.len()
        invariant
            tv@ == t@,
            i <= s.len(),
            forall|k: int| 0 <= k < i ==> !spec_occurs_at(s@, t@, k),
        decreases s.len() - i,
    {
        if occurs_at(s, tv.as_slice(), i) {
            return true;
        }
        i = i + 1;
    }
    if occurs_at(s, tv.as_slice(), s.len()) {
        return true;
    }
    assert forall|k: int| !spec_occurs_at(s@, t@, k) by {
        if 0 <= k < i {
        }
    }
    false
}

/// The text before the first space (all of it when there is none): the
/// first item of std's `str::split(" ")`.
pub open spec fn spec_first_word(s: Seq<char>) -> Seq<char> {
    match spec_find(s, ' ') {
        Some(i) => s.take(i),
        None => s,
    }
}

/// The text before the first space.
pub fn first_word(s: &[char]) -> (w: String)
    ensures
        w@ == spec_first_word(s@),
{
    match find_char(s, ' ') {
        Some(i) => {
            proof {
                lemma_find(s@, ' ');
            }
            let v = chars_range(s, 0, i);
            assert(v@ =~= s@.take(i as int));
            string_from_chars(v.as_slice())
        },
        None => {
            assert(spec_find(s@, ' ') is None);
            string_from_chars(s)
        },
    }
}

// ---------------------------------------------------------------------------
// Letter case
// ---------------------------------------------------------------------------

/// The lower-case form of an ASCII letter; any other character is unchanged.
pub open spec fn spec_ascii_lower(c: char) -> char {
    if 'A' <= c && c <= 'Z' {
        ((c as u32) + 32) as char
    } else {
        c
    }
}

/// Whether `s` equals `t` once ASCII upper-case letters of `s` are lowered.
pub open spec fn spec_eq_ignore_case(s: Seq<char>, t: Seq<char>) -> bool {
    s.len() == t.len() && forall|i: int| 0 <= i < s.len() ==> spec_ascii_lower(#[trigger] s[i]) == t[i]
}

fn ascii_lower(c: char) -> (r: char)
    ensures
        r == spec_ascii_lower(c),
{
    if 'A' <= c && c <= 'Z' {
        let b: u8 = (c as u8) + 32;
        b as char
    } else {
        c
    }
}

/// Whether `s`, with its ASCII upper-case letters lowered, equals `t`.
pub fn eq_ignore_case(s: &[char], t: &str) -> (res: bool)
    ensures
        res == spec_eq_ignore_case(s@, t@),
{
    let tv = str_chars(t);
    if s.len() != tv.len() {
        return false;
    }
    let mut i: usize = 0;
    while i < s.len()
        invariant
            tv@ == t@,
            s.len() == tv.len(),
            i <= s.len(),
            forall|k: int| 0 <= k < i ==> spec_ascii_lower(#[trigger] s@[k]) == t@[k],
        decreases s.len() - i,
    {
        if ascii_lower(s[i]) != tv[i] {
            return false;
        }
        i = i + 1;
    }
    true
}

// ---------------------------------------------------------------------------
// Whitespace-separated words
// ---------------------------------------------------------------------------

/// Whether a character is white space (Unicode `White_Space`, as std's
/// `char::is_whitespace`).
pub open spec fn spec_is_whitespace(c: char) -> bool {
    ||| ('\u{9}' <= c && c <= '\u{d}')
    ||| c == ' '
    ||| c == '\u{85}'
    ||| c == '\u{a0}'
    ||| c == '\u{1680}'
    ||| ('\u{2000}' <= c && c <= '\u{200a}')
    ||| c == '\u{2028}'
    ||| c == '\u{2029}'
    ||| c == '\u{202f}'
    ||| c == '\u{205f}'
    ||| c == '\u{3000}'
}

/// Whether a character is white space.
pub fn is_whitespace(c: char) -> (b: bool)
    ensures
        b == spec_is_whitespace(c),
{
    ('\u{9}' <= c && c <= '\u{d}') || c == ' ' || c == '\u{85}' || c == '\u{a0}' || c == '\u{1680}'
        || ('\u{2000}' <= c && c <= '\u{200a}') || c == '\u{2028}' || c == '\u{2029}' || c
        == '\u{202f}' || c == '\u{205f}' || c == '\u{3000}'
}

/// Whether a character separates words: ASCII white space (space, tab, line
/// feed, form feed, carriage return) when `ascii`, else any white space.
pub open spec fn spec_is_separator(c: char, ascii: bool) -> bool {
    if ascii {
        c == ' ' || c == '\t' || c == '\n' || c == '\u{c}' || c == '\r'
    } else {
        spec_is_whitespace(c)
    }
}

fn is_separator(c: char, ascii: bool) -> (b: bool)
    ensures
        b == spec_is_separator(c, ascii),
{
    if ascii {
        c == ' ' || c == '\t' || c == '\n' || c == '\u{c}' || c == '\r'
    } else {
        is_whitespace(c)
    }
}

/// The words of `s` from index `i` on, the current word so far being
/// `cur`: the maximal runs of characters that do not separate words.
pub open spec fn spec_words_from(s: Seq<char>, i: int, cur: Seq<char>, ascii: bool) -> Seq<
    Seq<char>,
>
    decreases s.len() - i,
{
    if i >= s.len() {
        if cur.len() > 0 {
            seq![cur]
        } else {
            Seq::empty()
        }
    } else if spec_is_separator(s[i], ascii) {
        (if cur.len() > 0 {
            seq![cur]
        } else {
            Seq::empty()
        }) + spec_words_from(s, i + 1, Seq::empty(), ascii)
    } else {
        spec_words_from(s, i + 1, cur.push(s[i]), ascii)
    }
}

/// The words of `s` (std's `str::split_whitespace`).
pub open spec fn spec_words(s: Seq<char>) -> Seq<Seq<char>> {
    spec_words_from(s, 0, Seq::empty(), false)
}

/// Reading words from a suffix of a text is reading them from the suffix
/// alone.
proof fn lemma_words_from_shift(p: Seq<char>, r: Seq<char>, j: int, cur: Seq<char>, ascii: bool)
    requires
        0 <= j <= r.len(),
    ensures
        spec_words_from(p + r, p.len() + j, cur, ascii) == spec_words_from(r, j, cur, ascii),
    decreases r.len() - j,
{
    if j < r.len() {
        assert((p + r)[p.len() + j] == r[j]);
        lemma_words_from_shift(p, r, j + 1, Seq::empty(), ascii);
        lemma_words_from_shift(p, r, j + 1, cur.push(r[j]), ascii);
    }
}

/// A run of characters that do not separate words joins the current word.
proof fn lemma_words_from_run(s: Seq<char>, i: int, n: int, cur: Seq<char>, ascii: bool)
    requires
        0 <= i <= n <= s.len(),
        forall|j: int| i <= j < n ==> !spec_is_separator(#[trigger] s[j], ascii),
    ensures
        spec_words_from(s, i, cur, ascii) == spec_words_from(s, n, cur + s.subrange(i, n), ascii),
    decreases n - i,
{
    if i < n {
        lemma_words_from_run(s, i + 1, n, cur.push(s[i]), ascii);
        assert(cur.push(s[i]) + s.subrange(i + 1, n) =~= cur + s.subrange(i, n));
    } else {
        assert(cur + s.subrange(i, n) =~= cur);
    }
}

/// A non-empty text without white space is one word; followed by a space
/// and more text, it is the first word, and the words of the rest follow.
pub proof fn lemma_first_word(w: Seq<char>, rest: Seq<char>)
    requires
        w.len() > 0,
        forall|j: int| 0 <= j < w.len() ==> !spec_is_whitespace(#[trigger] w[j]),
    ensures
        spec_words(w) == seq![w],
        spec_words(w + seq![' '] + rest) == seq![w] + spec_words(rest),
{
    lemma_words_from_run(w, 0, w.len() as int, Seq::empty(), false);
    assert(Seq::<char>::empty() + w.subrange(0, w.len() as int) =~= w);
    let s = w + seq![' '] + rest;
    assert forall|j: int| 0 <= j < w.len() implies !spec_is_separator(#[trigger] s[j], false) by {
        assert(s[j] == w[j]);
    }
    lemma_words_from_run(s, 0, w.len() as int, Seq::empty(), false);
    assert(Seq::<char>::empty() + s.subrange(0, w.len() as int) =~= w);
    assert(s[w.len() as int] == ' ');
    assert(spec_is_separator(' ', false));
    let p = w + seq![' '];
    assert(s =~= p + rest);
    lemma_words_from_shift(p, rest, 0, Seq::empty(), false);
    assert(seq![w] + Seq::<Seq<char>>::empty() =~= seq![w]);
}

/// The words of `s` between ASCII white space (std's
/// `str::split_ascii_whitespace`).
pub open spec fn spec_ascii_words(s: Seq<char>) -> Seq<Seq<char>> {
    spec_words_from(s, 0, Seq::empty(), true)
}

fn split_words(s: &[char], ascii: bool) -> (r: Vec<String>)
    ensures
        r.deep_view() == spec_words_from(s@, 0, Seq::empty(), ascii),
{
    let mut acc: Vec<String> = Vec::new();
    let mut cur: Vec<char> = Vec::new();
    let mut i: usize = 0;
    while i < s.len()
        invariant
            i <= s.len(),
            acc.deep_view() + spec_words_from(s@, i as int, cur@, ascii) == spec_words_from(s@, 0, Seq::empty(), ascii),
        decreases s.len() - i,
    {
        let ghost before = acc.deep_view();
        if is_separator(s[i], ascii) {
            if cur.len() > 0 {
                let w = string_from_chars(cur.as_slice());
                acc.push(w);
                assert(acc.deep_view() =~= before + seq![cur@]);
                assert(before + (seq![cur@] + spec_words_from(s@, i + 1, Seq::empty(), ascii)) =~= (before
                    + seq![cur@]) + spec_words_from(s@, i + 1, Seq::empty(), ascii));
            } else {
                assert(Seq::<Seq<char>>::empty() + spec_words_from(s@, i + 1, Seq::empty(), ascii)
                    =~= spec_words_from(s@, i + 1, Seq::empty(), ascii));
            }
            cur = Vec::new();
            assert(cur@ =~= Seq::<char>::empty());
        } else {
            cur.push(s[i]);
        }
        i = i + 1;
    }
    if cur.len() > 0 {
        let ghost before = acc.deep_view();
        let w = string_from_chars(cur.as_slice());
        acc.push(w);
        assert(acc.deep_view() =~= before + seq![cur@]);
    } else {
        assert(acc.deep_view() + Seq::<Seq<char>>::empty() =~= acc.deep_view());
    }
    acc
}

/// The words of `s`: its maximal runs of characters that are not white
/// space.
pub fn split_whitespace(s: &[char]) -> (r: Vec<String>)
    ensures
        r.deep_view() == spec_words(s@),
{
    split_words(s, false)
}

/// The words of `s` between ASCII white space.
pub fn split_ascii_whitespace(s: &[char]) -> (r: Vec<String>)
    ensures
        r.deep_view() == spec_ascii_words(s@),
{
    split_words(s, true)
}

/// How many bytes a character takes in UTF-8.
pub open spec fn spec_char_utf8_len(c: char) -> nat {
    if (c as u32) < 0x80 {
        1
    } else if (c as u32) < 0x800 {
        2
    } else if (c as u32) < 0x10000 {
        3
    } else {
        4
    }
}

/// How many bytes a text takes in UTF-8 (std's `str::len`).
pub open spec fn spec_utf8_len(s: Seq<char>) -> nat
    decreases s.len(),
{
    if s.len() == 0 {
        0
    } else {
        spec_utf8_len(s.drop_last()) + spec_char_utf8_len(s.last())
    }
}

proof fn lemma_utf8_len_grows(s: Seq<char>, i: int, j: int)
    requires
        0 <= i <= j <= s.len(),
    ensures
        spec_utf8_len(s.take(i)) <= spec_utf8_len(s.take(j)),
    decreases j - i,
{
    if i < j {
        lemma_utf8_len_grows(s, i, j - 1);
        assert(s.take(j).drop_last() =~= s.take(j - 1));
    }
}

/// Whether a text takes more than `limit` bytes in UTF-8.
pub fn utf8_len_over(s: &str, limit: usize) -> (b: bool)
    ensures
        b == (spec_utf8_len(s@) > limit),
{
    let c = str_chars(s);
    let mut n: usize = 0;
    let mut i: usize = 0;
    while i < c.len()
        invariant
            i <= c.len(),
            c@ == s@,
            n == spec_utf8_len(s@.take(i as int)),
            n <= limit,
        decreases c.len() - i,
    {
        assert(s@.take(i as int + 1).drop_last() =~= s@.take(i as int));
        let code = c[i] as u32;
        let w: usize = if code < 0x80 {
            1
        } else if code < 0x800 {
            2
        } else if code < 0x10000 {
            3
        } else {
            4
        };
        if w > limit - n {
            proof {
                lemma_utf8_len_grows(s@, i as int + 1, s@.len() as int);
                assert(s@.take(s@.len() as int) =~= s@);
            }
            return true;
        }
        n = n + w;
        i = i + 1;
    }
    assert(s@.take(s@.len() as int) =~= s@);
    false
}

} // verus!
