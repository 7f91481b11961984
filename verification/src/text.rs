//! Small verified text helpers: decimal digits, byte-wise string order and
//! appending single characters.
use vstd::prelude::*;
use vstd::string::StringSliceAdditionalSpecFns;

verus! {

/// The ASCII character of a decimal digit.
pub open spec fn digit_char(d: int) -> char {
    if d == 0 {
        '0'
    } else if d == 1 {
        '1'
    } else if d == 2 {
        '2'
    } else if d == 3 {
        '3'
    } else if d == 4 {
        '4'
    } else if d == 5 {
        '5'
    } else if d == 6 {
        '6'
    } else if d == 7 {
        '7'
    } else if d == 8 {
        '8'
    } else {
        '9'
    }
}

/// Whether a character is an ASCII decimal digit.
pub open spec fn is_ascii_digit(c: char) -> bool {
    '0' <= c && c <= '9'
}

/// The decimal spelling of `n`, without leading zeros (`0` is spelled "0").
pub open spec fn decimal_chars(n: nat) -> Seq<char>
    decreases n,
{
    if n < 10 {
        seq![digit_char(n as int)]
    } else {
        decimal_chars(n / 10).push(digit_char((n % 10) as int))
    }
}

/// The last six decimal digits of `n`, padded on the left with zeros.
pub open spec fn six_digit_chars(n: nat) -> Seq<char> {
    seq![
        digit_char(((n / 100000) % 10) as int),
        digit_char(((n / 10000) % 10) as int),
        digit_char(((n / 1000) % 10) as int),
        digit_char(((n / 100) % 10) as int),
        digit_char(((n / 10) % 10) as int),
        digit_char((n % 10) as int),
    ]
}

/// Byte-wise lexicographic order, the order in which Rust compares `str`s.
pub open spec fn bytes_le(a: Seq<u8>, b: Seq<u8>) -> bool
    decreases a.len(),
{
    if a.len() == 0 {
        true
    } else if b.len() == 0 {
        false
    } else if a[0] != b[0] {
        a[0] < b[0]
    } else {
        bytes_le(a.drop_first(), b.drop_first())
    }
}

/// The string of one decimal digit.
pub fn digit_str(d: u64) -> (s: &'static str)
    requires
        d < 10,
    ensures
        s@ == seq![digit_char(d as int)],
{
    proof {
        reveal_strlit("0");
        reveal_strlit("1");
        reveal_strlit("2");
        reveal_strlit("3");
        reveal_strlit("4");
        reveal_strlit("5");
        reveal_strlit("6");
        reveal_strlit("7");
        reveal_strlit("8");
        reveal_strlit("9");
    }
    match d {
        0 => "0",
        1 => "1",
        2 => "2",
        3 => "3",
        4 => "4",
        5 => "5",
        6 => "6",
        7 => "7",
        8 => "8",
        _ => "9",
    }
}

/// Appends the decimal spelling of `n`.
pub fn append_decimal(s: &mut String, n: u64)
    ensures
        final(s)@ == old(s)@ + decimal_chars(n as nat),
    decreases n,
{
    if n >= 10 {
        append_decimal(s, n / 10);
    }
    s.append(digit_str(n % 10));
    proof {
        assert(n < 10 ==> decimal_chars(n as nat) == seq![digit_char(n as int)]);
    }
    assert(final(s)@ =~= old(s)@ + decimal_chars(n as nat));
}

/// The decimal spelling of `n` as a new string.
pub fn decimal_string(n: u64) -> (s: String)
    ensures
        s@ == decimal_chars(n as nat),
{
    let mut s = String::new();
    append_decimal(&mut s, n);
    assert(s@ =~= decimal_chars(n as nat));
    s
}

/// The last six decimal digits of `n`, zero padded.
pub fn six_digit_string(n: u32) -> (s: String)
    ensures
        s@ == six_digit_chars(n as nat),
{
    let mut s = String::new();
    s.append(digit_str(((n / 100000) % 10) as u64));
    s.append(digit_str(((n / 10000) % 10) as u64));
    s.append(digit_str(((n / 1000) % 10) as u64));
    s.append(digit_str(((n / 100) % 10) as u64));
    s.append(digit_str(((n / 10) % 10) as u64));
    s.append(digit_str((n % 10) as u64));
    assert(s@ =~= six_digit_chars(n as nat));
    s
}

/// `String::push`: appends one character.
#[verifier::external_body]
pub(crate) fn push_char(s: &mut String, c: char)
    ensures
        final(s)@ == old(s)@.push(c),
{
    s.push(c)
}

proof fn lemma_bytes_le_skip(a: Seq<u8>, b: Seq<u8>, i: int)
    requires
        0 <= i <= a.len(),
        i <= b.len(),
        a.take(i) == b.take(i),
    ensures
        bytes_le(a, b) == bytes_le(a.skip(i), b.skip(i)),
    decreases i,
{
    if i > 0 {
        assert(a[0] == a.take(i)[0]);
        assert(b[0] == b.take(i)[0]);
        assert(a.drop_first().take(i - 1) =~= a.take(i).drop_first());
        assert(b.drop_first().take(i - 1) =~= b.take(i).drop_first());
        lemma_bytes_le_skip(a.drop_first(), b.drop_first(), i - 1);
        assert(a.drop_first().skip(i - 1) =~= a.skip(i));
        assert(b.drop_first().skip(i - 1) =~= b.skip(i));
    } else {
        assert(a.skip(0) =~= a);
        assert(b.skip(0) =~= b);
    }
}

/// Any two byte strings are ordered one way or the other.
pub proof fn lemma_bytes_le_total(a: Seq<u8>, b: Seq<u8>)
    ensures
        bytes_le(a, b) || bytes_le(b, a),
    decreases a.len(),
{
    if a.len() > 0 && b.len() > 0 && a[0] == b[0] {
        lemma_bytes_le_total(a.drop_first(), b.drop_first());
    }
}

/// Two byte strings ordered both ways are equal.
pub proof fn lemma_bytes_le_antisymmetric(a: Seq<u8>, b: Seq<u8>)
    requires
        bytes_le(a, b),
        bytes_le(b, a),
    ensures
        a == b,
    decreases a.len(),
{
    if a.len() > 0 {
        lemma_bytes_le_antisymmetric(a.drop_first(), b.drop_first());
        assert(a =~= seq![a[0]] + a.drop_first());
        assert(b =~= seq![b[0]] + b.drop_first());
    } else {
        assert(b.len() == 0);
        assert(a =~= b);
    }
}

/// Whether `a` comes no later than `b` when both are compared byte by byte.
pub fn bytes_le_exec(a: &[u8], b: &[u8]) -> (r: bool)
    ensures
        r == bytes_le(a@, b@),
{
    let mut i: usize = 0;
    while i < a.len() && i < b.len() && a[i] == b[i]
        invariant
            i <= a@.len(),
            i <= b@.len(),
            a@.take(i as int) == b@.take(i as int),
        decreases a@.len() - i,
    {
        assert(a@.take(i + 1) =~= a@.take(i as int).push(a@[i as int]));
        assert(b@.take(i + 1) =~= b@.take(i as int).push(b@[i as int]));
        i = i + 1;
    }
    proof {
        lemma_bytes_le_skip(a@, b@, i as int);
    }
    if i == a.len() {
        true
    } else if i == b.len() {
        false
    } else {
        a[i] < b[i]
    }
}

/// Whether two byte strings are equal.
pub fn bytes_eq_exec(a: &[u8], b: &[u8]) -> (r: bool)
    ensures
        r == (a@ == b@),
{
    if a.len() != b.len() {
        return false;
    }
    let mut i: usize = 0;
    while i < a.len()
        invariant
            i <= a@.len(),
            a@.len() == b@.len(),
            forall|k: int| 0 <= k < i ==> a@[k] == b@[k],
        decreases a@.len() - i,
    {
        if a[i] != b[i] {
            return false;
        }
        i = i + 1;
    }
    assert(a@ =~= b@);
    true
}

/// Whether two strings are equal (compared through their UTF-8 bytes).
pub fn str_eq(a: &str, b: &str) -> (r: bool)
    ensures
        r == (a@ == b@),
{
    let same = bytes_eq_exec(a.as_bytes(), b.as_bytes());
    proof {
        vstd::utf8::encode_utf8_decode_utf8(a@);
        vstd::utf8::encode_utf8_decode_utf8(b@);
    }
    same
}

/// Byte-wise order is transitive.
pub proof fn lemma_bytes_le_transitive(a: Seq<u8>, b: Seq<u8>, c: Seq<u8>)
    requires
        bytes_le(a, b),
        bytes_le(b, c),
    ensures
        bytes_le(a, c),
    decreases a.len(),
{
    if a.len() > 0 && b.len() > 0 && c.len() > 0 && a[0] == b[0] && b[0] == c[0] {
        lemma_bytes_le_transitive(a.drop_first(), b.drop_first(), c.drop_first());
    }
}

/// The order of texts compared through their UTF-8 bytes, as Rust compares `String`s.
pub open spec fn text_le(a: Seq<char>, b: Seq<char>) -> bool {
    bytes_le(vstd::utf8::encode_utf8(a), vstd::utf8::encode_utf8(b))
}

/// Whether `c` is an ASCII letter or digit.
pub open spec fn is_ascii_alphanumeric(c: char) -> bool {
    ('0' <= c && c <= '9') || ('a' <= c && c <= 'z') || ('A' <= c && c <= 'Z')
}

/// `c` with ASCII capitals made small.
pub open spec fn ascii_lowercase(c: char) -> char {
    if 'A' <= c && c <= 'Z' {
        ((c as int) + 32) as char
    } else {
        c
    }
}

/// The value of a string of decimal digits (the empty string counts as 0).
pub open spec fn digits_value(s: Seq<char>) -> nat
    decreases s.len(),
{
    if s.len() == 0 {
        0
    } else {
        digits_value(s.drop_last()) * 10 + ((s.last() as int) - 48) as nat
    }
}

/// The text after an optional leading `+`.
pub open spec fn unsigned_digits(s: Seq<char>) -> Seq<char> {
    if s.len() > 0 && s[0] == '+' {
        s.drop_first()
    } else {
        s
    }
}

/// What Rust's `u16::from_str` gives: an optional `+`, then one or more
/// decimal digits whose value fits in 16 bits.
pub open spec fn parse_u16_text(s: Seq<char>) -> Option<u16> {
    let digits = unsigned_digits(s);
    if digits.len() == 0 || exists|i: int| 0 <= i < digits.len() && !is_ascii_digit(#[trigger] digits[i]) {
        None
    } else if digits_value(digits) > 65535 {
        None
    } else {
        Some(digits_value(digits) as u16)
    }
}

proof fn lemma_digits_value_grows(s: Seq<char>, k: int)
    requires
        0 <= k <= s.len(),
        forall|i: int| 0 <= i < s.len() ==> is_ascii_digit(#[trigger] s[i]),
    ensures
        digits_value(s.take(k)) <= digits_value(s),
    decreases s.len() - k,
{
    if k < s.len() {
        lemma_digits_value_grows(s, k + 1);
        assert(s.take(k + 1).drop_last() =~= s.take(k));
        assert(is_ascii_digit(s[k]));
    } else {
        assert(s.take(k) =~= s);
    }
}

/// Parses a decimal `u16` the way `str::parse::<u16>` does.
pub fn parse_u16(text: &str) -> (value: Option<u16>)
    ensures
        value == parse_u16_text(text@),
{
    let n = text.unicode_len();
    let mut i: usize = 0;
    if n > 0 && text.get_char(0) == '+' {
        i = 1;
    }
    let ghost digits = unsigned_digits(text@);
    let start = i;
    assert(text@.skip(start as int) =~= digits);
    if start == n {
        return None;
    }
    let mut value: u32 = 0;
    while i < n
        invariant
            start <= i <= n,
            n == text@.len(),
            digits == unsigned_digits(text@),
            start as int + digits.len() == n,
            forall|k: int| 0 <= k < digits.len() ==> #[trigger] digits[k] == text@[start + k],
            forall|k: int| 0 <= k < i - start ==> is_ascii_digit(#[trigger] digits[k]),
            value == digits_value(digits.take(i - start)),
            value <= 65535,
        decreases n - i,
    {
        let c = text.get_char(i);
        assert(c == digits[i - start]);
        if c < '0' || c > '9' {
            assert(!is_ascii_digit(digits[i - start]));
            assert(exists|k: int| 0 <= k < digits.len() && !is_ascii_digit(#[trigger] digits[k]));
            return None;
        }
        let d = (c as u32) - 48;
        assert(digits.take(i - start + 1).drop_last() =~= digits.take(i - start));
        assert(digits.take(i - start + 1).last() == c);
        let next = value * 10 + d;
        assert(digits_value(digits.take(i - start + 1)) == next);
        if next > 65535 {
            proof {
                assert forall|k: int| 0 <= k < i - start + 1 implies is_ascii_digit(#[trigger] digits[k]) by {}
                if forall|k: int| 0 <= k < digits.len() ==> is_ascii_digit(#[trigger] digits[k]) {
                    lemma_digits_value_grows(digits, i - start + 1);
                }
            }
            return None;
        }
        value = next;
        i = i + 1;
    }
    assert(digits.take(n - start) =~= digits);
    Some(value as u16)
}

/// In byte order, each text no later than the next.
pub open spec fn texts_sorted(s: Seq<Seq<char>>) -> bool {
    forall|i: int, j: int| 0 <= i < j < s.len() ==> text_le(#[trigger] s[i], #[trigger] s[j])
}

#[verifier::rlimit(60)]
proof fn lemma_insert_keeps_sorted(before: Seq<Seq<char>>, j: int, x: Seq<char>)
    requires
        0 <= j <= before.len(),
        texts_sorted(before),
        forall|k: int| 0 <= k < j ==> text_le(#[trigger] before[k], x),
        j < before.len() ==> !text_le(before[j], x),
    ensures
        texts_sorted(before.insert(j, x)),
        before.insert(j, x).to_multiset() == before.to_multiset().insert(x),
{
    broadcast use vstd::seq_lib::group_to_multiset_ensures, vstd::multiset::group_multiset_axioms;
    let after = before.insert(j, x);
    before.insert_ensures(j, x);
    assert(after.remove(j) =~= before);
    assert(after[j] == x);
    assert(after.contains(x));
    assert(after.to_multiset() =~= before.to_multiset().insert(x));
    if j < before.len() {
        lemma_bytes_le_total(vstd::utf8::encode_utf8(x), vstd::utf8::encode_utf8(before[j]));
    }
    assert forall|a: int, b: int| 0 <= a < b < after.len() implies text_le(#[trigger] after[a], #[trigger] after[b]) by {
        if b < j {
            assert(after[a] == before[a] && after[b] == before[b]);
        } else if b == j {
            assert(after[a] == before[a]);
        } else if a < j {
            assert(after[a] == before[a] && after[b] == before[b - 1]);
        } else if a == j {
            assert(after[b] == before[b - 1]);
            if b - 1 > j {
                assert(text_le(before[j], before[b - 1]));
                lemma_bytes_le_transitive(
                    vstd::utf8::encode_utf8(x),
                    vstd::utf8::encode_utf8(before[j]),
                    vstd::utf8::encode_utf8(before[b - 1]),
                );
            }
        } else {
            assert(after[a] == before[a - 1] && after[b] == before[b - 1]);
        }
    }
}

/// The texts of `texts`, in byte order.
pub fn sort_texts(texts: &Vec<String>) -> (sorted: Vec<String>)
    ensures
        sorted.deep_view().to_multiset() == texts.deep_view().to_multiset(),
        texts_sorted(sorted.deep_view()),
{
    broadcast use vstd::seq_lib::group_to_multiset_ensures, vstd::multiset::group_multiset_axioms;
    let mut sorted: Vec<String> = Vec::new();
    let mut i: usize = 0;
    assert(sorted.deep_view() =~= Seq::<Seq<char>>::empty());
    assert(texts.deep_view().take(0) =~= Seq::<Seq<char>>::empty());
    while i < texts.len()
        invariant
            i <= texts@.len(),
            sorted.deep_view().to_multiset() == texts.deep_view().take(i as int).to_multiset(),
            texts_sorted(sorted.deep_view()),
        decreases texts@.len() - i,
    {
        let x = texts[i].clone();
        let ghost before = sorted.deep_view();
        let mut j: usize = 0;
        while j < sorted.len() && bytes_le_exec(sorted[j].as_str().as_bytes(), x.as_str().as_bytes())
            invariant
                j <= sorted@.len(),
                before == sorted.deep_view(),
                forall|k: int| 0 <= k < j ==> text_le(#[trigger] before[k], x@),
            decreases sorted@.len() - j,
        {
            assert(before[j as int] == sorted@[j as int]@);
            j = j + 1;
        }
        proof {
            if j < sorted@.len() {
                assert(before[j as int] == sorted@[j as int]@);
            }
            lemma_insert_keeps_sorted(before, j as int, x@);
        }
        let ghost xv = x@;
        assert(xv == texts.deep_view()[i as int]);
        sorted.insert(j, x);
        assert(sorted.deep_view() =~= before.insert(j as int, xv));
        assert(sorted.deep_view().to_multiset() == before.to_multiset().insert(xv));
        assert(texts.deep_view().take(i + 1) =~= texts.deep_view().take(i as int).push(xv));
        proof {
            vstd::seq_lib::to_multiset_build(texts.deep_view().take(i as int), xv);
        }
        i = i + 1;
    }
    assert(texts.deep_view().take(texts@.len() as int) =~= texts.deep_view());
    sorted
}

pub(crate) proof fn lemma_decimal_digits(n: nat)
    ensures
        decimal_chars(n).len() > 0,
        forall|i: int| 0 <= i < decimal_chars(n).len() ==> is_ascii_digit(#[trigger] decimal_chars(n)[i]),
        digits_value(decimal_chars(n)) == n,
    decreases n,
{
    assert forall|d: int| 0 <= d < 10 implies is_ascii_digit(#[trigger] digit_char(d)) by {}
    assert forall|d: int| 0 <= d < 10 implies (#[trigger] digit_char(d) as int) - 48 == d by {}
    if n >= 10 {
        lemma_decimal_digits(n / 10);
        let s = decimal_chars(n / 10);
        let t = s.push(digit_char((n % 10) as int));
        assert(t.drop_last() =~= s);
        assert(t.last() == digit_char((n % 10) as int));
        assert(digits_value(t) == digits_value(s) * 10 + ((t.last() as int) - 48) as nat);
        assert((digit_char((n % 10) as int) as int) - 48 == n % 10);
        assert(decimal_chars(n) == t);
        assert forall|i: int| 0 <= i < t.len() implies is_ascii_digit(#[trigger] t[i]) by {
            if i < s.len() {
                assert(t[i] == s[i]);
            }
        }
    } else {
        let t = seq![digit_char(n as int)];
        assert(t.drop_last() =~= Seq::<char>::empty());
        assert(digits_value(t.drop_last()) == 0);
        assert(t.last() == digit_char(n as int));
        assert((digit_char(n as int) as int) - 48 == n);
        assert(decimal_chars(n) == t);
    }
}

/// Parsing the decimal spelling of a 16-bit number gives the number back.
pub proof fn lemma_parse_decimal(n: u16)
    ensures
        parse_u16_text(decimal_chars(n as nat)) == Some(n),
{
    lemma_decimal_digits(n as nat);
    let s = decimal_chars(n as nat);
    assert(is_ascii_digit(s[0]));
    assert(unsigned_digits(s) == s);
}

/// Different numbers are spelled differently.
pub proof fn lemma_decimal_injective(a: nat, b: nat)
    ensures
        a != b ==> decimal_chars(a) != decimal_chars(b),
{
    lemma_decimal_digits(a);
    lemma_decimal_digits(b);
}

} // verus!
