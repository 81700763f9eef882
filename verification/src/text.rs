//! Small verified helpers on text: comparing strings, writing and reading
//! decimal numbers.
use vstd::prelude::*;
use vstd::string::*;
use vstd::utf8::*;

verus! {

/// Whether `c` is an ASCII character.
pub open spec fn is_ascii_char(c: char) -> bool {
    (c as u32) < 128
}

/// Whether every character of `s` is ASCII.
pub open spec fn all_ascii(s: Seq<char>) -> bool {
    forall|i: int| 0 <= i < s.len() ==> is_ascii_char(#[trigger] s[i])
}

/// Whether `c` is one of the ASCII digits `0` to `9`.
pub open spec fn is_digit(c: char) -> bool {
    '0' <= c && c <= '9'
}

/// The value of the ASCII digit `c`.
pub open spec fn digit_value(c: char) -> nat {
    ((c as int) - ('0' as int)) as nat
}

/// The ASCII digit for `d`, which is below 10.
pub open spec fn digit_char(d: nat) -> char {
    if d == 0 {
        '0'
    } else if d == 1 {
        '1'
    } else if d == 2 {
        '2'
    } else if d == 3 {
        '3'
    } else if d == 4 {
        '4'
    } else if d == 5 {
        '5'
    } else if d == 6 {
        '6'
    } else if d == 7 {
        '7'
    } else if d == 8 {
        '8'
    } else {
        '9'
    }
}

/// The decimal representation of `n`, without leading zeros.
pub open spec fn decimal(n: nat) -> Seq<char>
    decreases n,
{
    if n < 10 {
        seq![digit_char(n)]
    } else {
        decimal(n / 10).push(digit_char(n % 10))
    }
}

/// The decimal representation of `n`, padded with leading zeros to at least
/// `width` digits.
pub open spec fn zero_padded(n: nat, width: nat) -> Seq<char> {
    let digits = decimal(n);
    if digits.len() >= width {
        digits
    } else {
        Seq::new((width - digits.len()) as nat, |i: int| '0') + digits
    }
}

/// Whether every character of `s` is an ASCII digit.
pub open spec fn all_digits(s: Seq<char>) -> bool {
    forall|i: int| 0 <= i < s.len() ==> is_digit(#[trigger] s[i])
}

/// The number written by the digits `s`, most significant first.
pub open spec fn digits_value(s: Seq<char>) -> nat
    decreases s.len(),
{
    if s.len() == 0 {
        0
    } else {
        digits_value(s.drop_last()) * 10 + digit_value(s.last())
    }
}

/// The digits of an unsigned number as Rust's integer parsing reads them: a
/// single leading `+` is allowed and dropped.
pub open spec fn unsigned_digits(s: Seq<char>) -> Seq<char> {
    if s.len() > 0 && s[0] == '+' {
        s.drop_first()
    } else {
        s
    }
}

/// What Rust's `FromStr` for an unsigned integer type whose largest value is
/// `max` gives for `s`: the value when `s` is an optional `+` followed by at
/// least one digit and the value fits, otherwise nothing.
pub open spec fn parse_unsigned_spec(s: Seq<char>, max: nat) -> Option<nat> {
    let d = unsigned_digits(s);
    if d.len() > 0 && all_digits(d) && digits_value(d) <= max {
        Some(digits_value(d))
    } else {
        None
    }
}

/// What Rust's `FromStr` for `i32` gives for `s`: an optional `+` or `-`
/// followed by at least one digit, whose value fits in an `i32`.
pub open spec fn parse_i32_spec(s: Seq<char>) -> Option<int> {
    if s.len() > 0 && s[0] == '-' {
        let d = s.drop_first();
        if d.len() > 0 && all_digits(d) && digits_value(d) <= 0x8000_0000 {
            Some(-(digits_value(d) as int))
        } else {
            None
        }
    } else {
        match parse_unsigned_spec(s, 0x7fff_ffff) {
            Some(v) => Some(v as int),
            None => None,
        }
    }
}

/// The value of a prefix of a run of digits is at most the value of a longer
/// prefix.
pub proof fn lemma_digits_value_monotonic(s: Seq<char>, i: int, j: int)
    requires
        0 <= i <= j <= s.len(),
    ensures
        digits_value(s.take(i)) <= digits_value(s.take(j)),
    decreases j - i,
{
    if i < j {
        lemma_digits_value_monotonic(s, i, j - 1);
        assert(s.take(j).drop_last() =~= s.take(j - 1));
    }
}

/// Whether `a` and `b` hold the same characters.
pub fn str_eq(a: &str, b: &str) -> (r: bool)
    ensures
        r == (a@ == b@),
{
    let x = a.as_bytes();
    let y = b.as_bytes();
    proof {
        encode_utf8_decode_utf8(a@);
        encode_utf8_decode_utf8(b@);
    }
    if x.len() != y.len() {
        return false;
    }
    let mut i: usize = 0;
    while i < x.len()
        invariant
            0 <= i <= x.len(),
            x.len() == y.len(),
            x@ == a.spec_bytes(),
            y@ == b.spec_bytes(),
            forall|j: int| 0 <= j < i ==> x@[j] == y@[j],
        decreases x.len() - i,
    {
        if x[i] != y[i] {
            return false;
        }
        i += 1;
    }
    assert(x@ =~= y@);
    true
}

/// The one-character string holding the digit `d`.
fn digit_str(d: u64) -> (s: &'static str)
    requires
        d < 10,
    ensures
        s@ == seq![digit_char(d as nat)],
{
    proof {
        reveal_strlit("0");
        reveal_strlit("1");
        reveal_strlit("2");
        reveal_strlit("3");
        reveal_strlit("4");
        reveal_strlit("5");
        reveal_strlit("6");
        reveal_strlit("7");
        reveal_strlit("8");
        reveal_strlit("9");
    }
    let s = if d == 0 {
        "0"
    } else if d == 1 {
        "1"
    } else if d == 2 {
        "2"
    } else if d == 3 {
        "3"
    } else if d == 4 {
        "4"
    } else if d == 5 {
        "5"
    } else if d == 6 {
        "6"
    } else if d == 7 {
        "7"
    } else if d == 8 {
        "8"
    } else {
        "9"
    };
    assert(s@ =~= seq![digit_char(d as nat)]);
    s
}

/// Appends the decimal representation of `n` to `s`.
pub fn push_decimal(s: &mut String, n: u64)
    ensures
        final(s)@ == old(s)@ + decimal(n as nat),
    decreases n,
{
    if n >= 10 {
        push_decimal(s, n / 10);
    }
    s.append(digit_str(n % 10));
    assert(decimal(n as nat) == if n < 10 {
        seq![digit_char(n as nat)]
    } else {
        decimal((n / 10) as nat).push(digit_char((n % 10) as nat))
    });
}

/// Appends `n` in decimal, padded with leading zeros to at least `width`
/// digits.
pub fn push_zero_padded(s: &mut String, n: u64, width: usize)
    ensures
        final(s)@ == old(s)@ + zero_padded(n as nat, width as nat),
{
    let mut digits = String::new();
    push_decimal(&mut digits, n);
    assert(digits@ =~= decimal(n as nat));
    let count = digits.as_str().unicode_len();
    let ghost start = s@;
    if count < width {
        let mut k: usize = 0;
        while k < width - count
            invariant
                k <= width - count,
                count < width,
                s@ == start + Seq::new(k as nat, |i: int| '0'),
            decreases width - count - k,
        {
            proof {
                reveal_strlit("0");
            }
            s.append("0");
            k += 1;
            assert(s@ =~= start + Seq::new(k as nat, |i: int| '0'));
        }
    }
    s.append(digits.as_str());
    assert(s@ =~= start + zero_padded(n as nat, width as nat));
}

/// Parses `s` as Rust's `FromStr` parses an unsigned integer whose largest
/// value is `max`.
pub fn parse_unsigned(s: &str, max: u64) -> (r: Option<u64>)
    ensures
        r matches Some(v) ==> parse_unsigned_spec(s@, max as nat) == Some(v as nat),
        r is None ==> parse_unsigned_spec(s@, max as nat) is None,
{
    let len = s.unicode_len();
    let mut i: usize = 0;
    if len > 0 && s.get_char(0) == '+' {
        i = 1;
    }
    let ghost d = unsigned_digits(s@);
    let ghost start = i as int;
    assert(d =~= s@.subrange(start, len as int));
    if i == len {
        return None;
    }
    let mut value: u64 = 0;
    while i < len
        invariant
            0 <= start <= i <= len,
            len == s@.len(),
            d.len() == len - start,
            start < len,
            d == s@.subrange(start, len as int),
            d == unsigned_digits(s@),
            all_digits(d.take(i - start)),
            value == digits_value(d.take(i - start)),
            value <= max,
        decreases len - i,
    {
        let c = s.get_char(i);
        if !('0' <= c && c <= '9') {
            assert(d[i - start] == c);
            assert(!is_digit(d[i - start]));
            assert(!all_digits(d));
            return None;
        }
        let dv = (c as u32 - '0' as u32) as u64;
        assert(d.take(i + 1 - start).drop_last() =~= d.take(i - start));
        assert(d.take(i + 1 - start).last() == c);
        assert(digits_value(d.take(i + 1 - start)) == value * 10 + dv);
        if value > max / 10 {
            proof {
                assert(value * 10 + dv > max) by (nonlinear_arith)
                    requires
                        value > max / 10,
                ;
                lemma_digits_value_monotonic(d, i + 1 - start, d.len() as int);
                assert(d.take(d.len() as int) =~= d);
            }
            return None;
        }
        assert(value * 10 <= max) by (nonlinear_arith)
            requires
                value <= max / 10,
        ;
        let v10 = value * 10;
        if dv > max - v10 {
            proof {
                lemma_digits_value_monotonic(d, i + 1 - start, d.len() as int);
                assert(d.take(d.len() as int) =~= d);
            }
            return None;
        }
        value = v10 + dv;
        i += 1;
        assert(all_digits(d.take(i - start)));
    }
    assert(d.take(i - start) =~= d);
    Some(value)
}

/// Parses `s` as Rust's `FromStr` parses an `i32`.
pub fn parse_i32(s: &str) -> (r: Option<i32>)
    ensures
        r matches Some(v) ==> parse_i32_spec(s@) == Some(v as int),
        r is None ==> parse_i32_spec(s@) is None,
{
    let len = s.unicode_len();
    if len > 0 && s.get_char(0) == '-' {
        let rest = s.substring_char(1, len);
        assert(rest@ =~= s@.drop_first());
        assert(unsigned_digits(rest@) =~= rest@ || rest@.len() > 0 && rest@[0] == '+');
        match parse_digits(rest, 0x8000_0000) {
            Some(v) => {
                if v == 0x8000_0000 {
                    Some(i32::MIN)
                } else {
                    Some(-(v as i32))
                }
            },
            None => None,
        }
    } else {
        match parse_unsigned(s, 0x7fff_ffff) {
            Some(v) => Some(v as i32),
            None => None,
        }
    }
}

/// Parses a non-empty run of digits whose value is at most `max`.
fn parse_digits(s: &str, max: u64) -> (r: Option<u64>)
    ensures
        r matches Some(v) ==> s@.len() > 0 && all_digits(s@) && digits_value(s@) <= max && v
            == digits_value(s@),
        r is None ==> !(s@.len() > 0 && all_digits(s@) && digits_value(s@) <= max),
{
    let len = s.unicode_len();
    if len == 0 {
        return None;
    }
    if s.get_char(0) == '+' {
        return None;
    }
    assert(unsigned_digits(s@) == s@);
    parse_unsigned(s, max)
}

} // verus!

verus! {

/// Whether `s` begins with the characters of `prefix`.
pub open spec fn starts_with_spec(s: Seq<char>, prefix: Seq<char>) -> bool {
    s.len() >= prefix.len() && s.take(prefix.len() as int) == prefix
}

/// Whether `s` begins with `prefix`.
pub fn starts_with(s: &str, prefix: &str) -> (r: bool)
    ensures
        r == starts_with_spec(s@, prefix@),
{
    let n = prefix.unicode_len();
    let len = s.unicode_len();
    if len < n {
        return false;
    }
    let head = s.substring_char(0, n);
    str_eq(head, prefix)
}

} // verus!

verus! {

/// `bytes` as a `String`, if they are valid UTF-8 (`String::from_utf8`).
#[verifier::external_body]
pub(crate) fn string_from_utf8(bytes: Vec<u8>) -> (r: Option<String>)
    ensures
        r matches Some(s) ==> valid_utf8(bytes@) && s@ == decode_utf8(bytes@),
        r is None ==> !valid_utf8(bytes@),
{
    String::from_utf8(bytes).ok()
}

/// A copy of `s`.
pub fn to_string(s: &str) -> (r: String)
    ensures
        r@ == s@,
{
    String::from_str(s)
}

} // verus!

verus! {

/// Padding to `width` digits makes a number's decimal representation at
/// least `width` long, and no longer than its digits or `width`.
pub proof fn lemma_zero_padded_len_bound(n: nat, width: nat)
    ensures
        zero_padded(n, width).len() >= width,
        zero_padded(n, width).len() == if decimal(n).len() >= width {
            decimal(n).len()
        } else {
            width
        },
{
}

} // verus!

verus! {

/// Ten to the power `k`.
pub open spec fn pow10(k: nat) -> nat
    decreases k,
{
    if k == 0 {
        1
    } else {
        10 * pow10((k - 1) as nat)
    }
}

/// A number below `10^k` has at most `k` decimal digits.
pub proof fn lemma_decimal_len_pow10(n: nat, k: nat)
    requires
        k >= 1,
        n < pow10(k),
    ensures
        decimal(n).len() <= k,
    decreases k,
{
    if n >= 10 {
        assert(k >= 2) by {
            if k == 1 {
                assert(pow10(1) == 10) by {
                    reveal_with_fuel(pow10, 2);
                }
            }
        }
        let p = pow10((k - 1) as nat);
        assert(n / 10 < p) by (nonlinear_arith)
            requires
                n < 10 * p,
        ;
        lemma_decimal_len_pow10(n / 10, (k - 1) as nat);
    }
}

} // verus!

verus! {

/// The digit for `d` is an ASCII digit whose value is `d`.
pub proof fn lemma_digit_char(d: nat)
    requires
        d < 10,
    ensures
        is_digit(digit_char(d)),
        digit_value(digit_char(d)) == d,
        (digit_char(d) as u32) < 128,
{
}

/// The decimal representation of `n` is a non-empty run of digits whose
/// value is `n`.
pub proof fn lemma_decimal(n: nat)
    ensures
        decimal(n).len() >= 1,
        all_digits(decimal(n)),
        digits_value(decimal(n)) == n,
    decreases n,
{
    if n < 10 {
        lemma_digit_char(n);
        assert(decimal(n).drop_last() =~= Seq::<char>::empty());
        assert(digits_value(Seq::<char>::empty()) == 0);
    } else {
        lemma_decimal(n / 10);
        lemma_digit_char(n % 10);
        let d = decimal(n);
        assert(d.drop_last() =~= decimal(n / 10));
        assert(d.last() == digit_char(n % 10));
        assert((n / 10) * 10 + n % 10 == n);
        assert forall|i: int| 0 <= i < d.len() implies is_digit(#[trigger] d[i]) by {
            if i < d.len() - 1 {
                assert(d[i] == decimal(n / 10)[i]);
            }
        }
    }
}

/// Leading zeros don't change the value of a run of digits.
pub proof fn lemma_leading_zeros(k: nat, s: Seq<char>)
    requires
        all_digits(s),
    ensures
        all_digits(Seq::new(k, |i: int| '0') + s),
        digits_value(Seq::new(k, |i: int| '0') + s) == digits_value(s),
    decreases s.len(),
{
    let z = Seq::new(k, |i: int| '0');
    let t = z + s;
    assert forall|i: int| 0 <= i < t.len() implies is_digit(#[trigger] t[i]) by {
        if i >= k {
            assert(t[i] == s[i - k]);
        }
    }
    if s.len() == 0 {
        lemma_zeros_value(k);
        assert(t =~= z);
    } else {
        lemma_leading_zeros(k, s.drop_last());
        assert(t.drop_last() =~= z + s.drop_last());
        assert(t.last() == s.last());
    }
}

/// A run of zeros is worth nothing.
pub proof fn lemma_zeros_value(k: nat)
    ensures
        digits_value(Seq::new(k, |i: int| '0')) == 0,
    decreases k,
{
    if k > 0 {
        lemma_zeros_value((k - 1) as nat);
        assert(Seq::new(k, |i: int| '0').drop_last() =~= Seq::new((k - 1) as nat, |i: int| '0'));
    }
}

/// A zero-padded decimal representation is a non-empty run of digits whose
/// value is the number.
pub proof fn lemma_zero_padded(n: nat, width: nat)
    ensures
        zero_padded(n, width).len() >= 1,
        all_digits(zero_padded(n, width)),
        digits_value(zero_padded(n, width)) == n,
{
    lemma_decimal(n);
    let d = decimal(n);
    if d.len() < width {
        lemma_leading_zeros((width - d.len()) as nat, d);
    }
}

/// Reading back a zero-padded decimal representation as Rust parses an
/// unsigned number or an `i32` gives the number.
pub proof fn lemma_parse_zero_padded(n: nat, width: nat, max: nat)
    requires
        n <= max,
        n <= 0x7fff_ffff,
    ensures
        parse_unsigned_spec(zero_padded(n, width), max) == Some(n),
        parse_i32_spec(zero_padded(n, width)) == Some(n as int),
{
    lemma_zero_padded(n, width);
    let z = zero_padded(n, width);
    assert(is_digit(z[0]));
    assert(unsigned_digits(z) == z);
}

} // verus!

verus! {

/// Whether `c` is white space: has Unicode's `White_Space` property, as
/// Rust's `char::is_whitespace` decides it.
pub open spec fn is_whitespace_spec(c: char) -> bool {
    let n = c as u32;
    ||| 0x09 <= n <= 0x0d
    ||| n == 0x20
    ||| n == 0x85
    ||| n == 0xa0
    ||| n == 0x1680
    ||| 0x2000 <= n <= 0x200a
    ||| n == 0x2028
    ||| n == 0x2029
    ||| n == 0x202f
    ||| n == 0x205f
    ||| n == 0x3000
}

/// Whether `c` is white space.
pub fn is_whitespace(c: char) -> (r: bool)
    ensures
        r == is_whitespace_spec(c),
{
    let n = c as u32;
    (0x09 <= n && n <= 0x0d) || n == 0x20 || n == 0x85 || n == 0xa0 || n == 0x1680 || (0x2000
        <= n && n <= 0x200a) || n == 0x2028 || n == 0x2029 || n == 0x202f || n == 0x205f || n
        == 0x3000
}

/// `s` without its leading white space.
pub open spec fn trim_start_spec(s: Seq<char>) -> Seq<char>
    decreases s.len(),
{
    if s.len() > 0 && is_whitespace_spec(s[0]) {
        trim_start_spec(s.drop_first())
    } else {
        s
    }
}

/// `s` without its trailing white space.
pub open spec fn trim_end_spec(s: Seq<char>) -> Seq<char>
    decreases s.len(),
{
    if s.len() > 0 && is_whitespace_spec(s.last()) {
        trim_end_spec(s.drop_last())
    } else {
        s
    }
}

/// `s` without its leading and trailing white space (`str::trim`).
pub open spec fn trim_spec(s: Seq<char>) -> Seq<char> {
    trim_end_spec(trim_start_spec(s))
}

/// `s` without its leading and trailing white space.
pub fn trim(s: &str) -> (r: &str)
    ensures
        r@ == trim_spec(s@),
{
    let len = s.unicode_len();
    let mut i: usize = 0;
    assert(s@.subrange(0, len as int) =~= s@);
    while i < len && is_whitespace(s.get_char(i))
        invariant
            i <= len,
            len == s@.len(),
            trim_start_spec(s@) == trim_start_spec(s@.subrange(i as int, len as int)),
        decreases len - i,
    {
        assert(s@.subrange(i as int, len as int).drop_first() =~= s@.subrange(i + 1, len as int));
        i += 1;
    }
    assert(trim_start_spec(s@) == s@.subrange(i as int, len as int));
    let mut j: usize = len;
    while j > i && is_whitespace(s.get_char(j - 1))
        invariant
            i <= j <= len,
            len == s@.len(),
            trim_spec(s@) == trim_end_spec(s@.subrange(i as int, j as int)),
        decreases j - i,
    {
        assert(s@.subrange(i as int, j as int).drop_last() =~= s@.subrange(i as int, j - 1));
        j -= 1;
    }
    s.substring_char(i, j)
}

} // verus!

verus! {

/// The UTF-8 encoding of two strings one after the other is the encoding of
/// the first followed by the encoding of the second.
pub proof fn lemma_encode_utf8_concat(a: Seq<char>, b: Seq<char>)
    ensures
        encode_utf8(a + b) == encode_utf8(a) + encode_utf8(b),
    decreases a.len(),
{
    if a.len() == 0 {
        assert(a + b =~= b);
    } else {
        lemma_encode_utf8_concat(a.drop_first(), b);
        assert((a + b).drop_first() =~= a.drop_first() + b);
        assert(encode_utf8(a + b) =~= encode_utf8(a) + encode_utf8(b));
    }
}

} // verus!

verus! {

/// Appends `c` to `s` (`String::push`).
#[verifier::external_body]
pub(crate) fn push_char(s: &mut String, c: char)
    ensures
        final(s)@ == old(s)@.push(c),
{
    s.push(c)
}

/// Removes the last character of `s`, if it has one, and returns it.
pub fn pop_char(s: &mut String) -> (r: Option<char>)
    ensures
        old(s)@.len() == 0 ==> r is None && final(s)@ == old(s)@,
        old(s)@.len() > 0 ==> r == Some(old(s)@.last()) && final(s)@ == old(s)@.drop_last(),
{
    let len = s.as_str().unicode_len();
    if len == 0 {
        return None;
    }
    let c = s.as_str().get_char(len - 1);
    let rest = to_string(s.as_str().substring_char(0, len - 1));
    assert(rest@ =~= s@.drop_last());
    *s = rest;
    Some(c)
}

} // verus!

verus! {

/// The text between bytes `start` and `end` of the UTF-8 encoding of `s`,
/// which is what `&s[start..end]` gives.
pub open spec fn byte_piece(s: Seq<char>, start: int, end: int) -> Seq<char> {
    decode_utf8(encode_utf8(s).subrange(start, end))
}

/// A text is never longer in characters than in bytes.
pub proof fn lemma_encode_len(s: Seq<char>)
    ensures
        s.len() <= encode_utf8(s).len(),
    decreases s.len(),
{
    if s.len() > 0 {
        lemma_encode_len(s.drop_first());
    }
}

/// The text of `s` between bytes `start` and `end` (`&s[start..end]`), both of
/// which must be character boundaries.
pub fn byte_slice<'a>(s: &'a str, start: usize, end: usize) -> (r: &'a str)
    requires
        start <= end <= encode_utf8(s@).len(),
        is_char_boundary(encode_utf8(s@), start as int),
        is_char_boundary(encode_utf8(s@), end as int),
    ensures
        r@ == byte_piece(s@, start as int, end as int),
        encode_utf8(r@) == encode_utf8(s@).subrange(start as int, end as int),
{
    let (_head, tail) = s.split_at(start);
    proof {
        let b = encode_utf8(s@);
        let t = encode_utf8(tail@);
        encode_utf8_valid_utf8(s@);
        encode_utf8_valid_utf8(tail@);
        let k = end - start;
        assert(t =~= b.subrange(start as int, b.len() as int));
        if k == 0 || k == t.len() {
            is_char_boundary_start_end_of_seq(t);
        } else {
            is_char_boundary_iff_not_is_continuation_byte(t, k as int);
            is_char_boundary_iff_not_is_continuation_byte(b, end as int);
            assert(t[k as int] == b[end as int]);
        }
    }
    let (mid, _rest) = tail.split_at(end - start);
    proof {
        encode_utf8_decode_utf8(mid@);
        assert(encode_utf8(mid@) =~= encode_utf8(s@).subrange(start as int, end as int));
    }
    mid
}

/// In an ASCII text every byte starts a character, and the text between two
/// byte positions is the text between the same character positions.
pub proof fn lemma_ascii_piece(s: Seq<char>, start: int, end: int)
    requires
        all_ascii(s),
        0 <= start <= end <= s.len(),
    ensures
        encode_utf8(s).len() == s.len(),
        byte_piece(s, start, end) == s.subrange(start, end),
        is_char_boundary(encode_utf8(s), start),
        is_char_boundary(encode_utf8(s), end),
{
    assert(is_ascii_chars(s)) by {
        assert forall|i: int| 0 <= i < s.len() implies '\0' <= #[trigger] s[i] <= '\u{7f}' by {
            assert(is_ascii_char(s[i]));
            let c = s[i];
            let u = c as u32;
            char_u32_cast(c, u);
            assert((u as char) == c);
            assert(u < 128);
            assert((u as char) as int == u as int);
            assert(c <= '\u{7f}');
            assert('\0' <= c);
        }
    }
    is_ascii_chars_encode_utf8(s);
    let sub = s.subrange(start, end);
    assert(is_ascii_chars(sub));
    is_ascii_chars_encode_utf8(sub);
    let b = encode_utf8(s);
    assert(encode_utf8(sub) =~= b.subrange(start, end));
    encode_utf8_decode_utf8(sub);
    encode_utf8_valid_utf8(s);
    is_char_boundary_start_end_of_seq(b);
    if start < s.len() {
        is_char_boundary_iff_not_is_continuation_byte(b, start);
        assert(s[start] as u8 == b[start]);
    }
    if end < s.len() {
        is_char_boundary_iff_not_is_continuation_byte(b, end);
        assert(s[end] as u8 == b[end]);
    }
}

} // verus!
