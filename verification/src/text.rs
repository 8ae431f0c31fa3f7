//! Decimal rendering and parsing, and ASCII case folding, over strings.

use vstd::prelude::*;

verus! {

broadcast use vstd::string::group_string_axioms;

/// The character of decimal digit `d`.
pub open spec fn digit_char(d: int) -> char {
    (d + 48) as char
}

/// Whether `c` is an ASCII decimal digit.
pub open spec fn is_digit(c: char) -> bool {
    '0' <= c && c <= '9'
}

/// The value of an ASCII decimal digit.
pub open spec fn digit_value(c: char) -> nat {
    (c as int - 48) as nat
}

/// The decimal representation of `n`, most significant digit first, with no
/// leading zeros (`"0"` for zero).
pub open spec fn decimal(n: nat) -> Seq<char>
    decreases n,
{
    if n < 10 {
        seq![digit_char(n as int)]
    } else {
        decimal(n / 10).push(digit_char((n % 10) as int))
    }
}

/// The value of a sequence of decimal digits, most significant first.
pub open spec fn digits_value(s: Seq<char>) -> nat
    decreases s.len(),
{
    if s.len() == 0 {
        0
    } else {
        digits_value(s.drop_last()) * 10 + digit_value(s.last())
    }
}

/// Whether every character of `s` is a decimal digit.
pub open spec fn all_digits(s: Seq<char>) -> bool {
    forall|i: int| 0 <= i < s.len() ==> is_digit(#[trigger] s[i])
}

/// The value of `s` read as an unsigned decimal integer the way the standard
/// library reads one: an optional leading `+`, then at least one digit and
/// nothing else. `None` for anything else.
pub open spec fn parse_decimal(s: Seq<char>) -> Option<nat> {
    let body = if s.len() > 0 && s[0] == '+' { s.drop_first() } else { s };
    if body.len() > 0 && all_digits(body) {
        Some(digits_value(body))
    } else {
        None
    }
}

/// `s` read as a `u128`: `None` when it is not a decimal integer or does not fit.
pub open spec fn spec_parse_u128(s: Seq<char>) -> Option<u128> {
    match parse_decimal(s) {
        Some(v) => if v <= u128::MAX { Some(v as u128) } else { None },
        None => None,
    }
}

/// `s` read as a `u64`: `None` when it is not a decimal integer or does not fit.
pub open spec fn spec_parse_u64(s: Seq<char>) -> Option<u64> {
    match parse_decimal(s) {
        Some(v) => if v <= u64::MAX { Some(v as u64) } else { None },
        None => None,
    }
}

/// ASCII lower-casing of one character; other characters are unchanged.
pub open spec fn ascii_lower(c: char) -> char {
    if 'A' <= c && c <= 'Z' { ((c as int) + 32) as char } else { c }
}

/// Whether `a` and `b` are equal up to ASCII case.
pub open spec fn eq_ignore_case(a: Seq<char>, b: Seq<char>) -> bool {
    &&& a.len() == b.len()
    &&& forall|i: int| 0 <= i < a.len() ==> ascii_lower(#[trigger] a[i]) == ascii_lower(b[i])
}

/// The characters of `s`, in order.
pub fn chars_of(s: &str) -> (r: Vec<char>)
    ensures
        r@ == s@,
{
    let mut r: Vec<char> = Vec::new();
    for c in it: s.chars()
        invariant
            it.seq() == s@,
            r@ == it.seq().take(it.index() as int),
    {
        r.push(c);
        proof {
            assert(it.seq().take(it.index() as int + 1) =~= it.seq().take(it.index() as int).push(c));
        }
    }
    r
}

/// Whether two strings hold the same characters.
pub fn str_eq(a: &str, b: &str) -> (r: bool)
    ensures
        r == (a@ == b@),
{
    let ca = chars_of(a);
    let cb = chars_of(b);
    if ca.len() != cb.len() {
        return false;
    }
    let mut i: usize = 0;
    while i < ca.len()
        invariant
            ca@ == a@,
            cb@ == b@,
            ca.len() == cb.len(),
            i <= ca.len(),
            forall|j: int| 0 <= j < i ==> ca@[j] == cb@[j],
        decreases ca.len() - i,
    {
        if ca[i] != cb[i] {
            return false;
        }
        i = i + 1;
    }
    proof { assert(a@ =~= b@); }
    true
}

fn lower_char(c: char) -> (r: char)
    ensures
        r == ascii_lower(c),
{
    if 'A' <= c && c <= 'Z' {
        let v: u32 = (c as u32) + 32;
        proof { assert(v == (c as int) + 32); }
        char_from_ascii_upper_shift(c)
    } else {
        c
    }
}

fn char_from_ascii_upper_shift(c: char) -> (r: char)
    requires
        'A' <= c && c <= 'Z',
    ensures
        r == ((c as int) + 32) as char,
{
    match c {
        'A' => 'a', 'B' => 'b', 'C' => 'c', 'D' => 'd', 'E' => 'e', 'F' => 'f',
        'G' => 'g', 'H' => 'h', 'I' => 'i', 'J' => 'j', 'K' => 'k', 'L' => 'l',
        'M' => 'm', 'N' => 'n', 'O' => 'o', 'P' => 'p', 'Q' => 'q', 'R' => 'r',
        'S' => 's', 'T' => 't', 'U' => 'u', 'V' => 'v', 'W' => 'w', 'X' => 'x',
        'Y' => 'y', _ => 'z',
    }
}

/// Whether `a` and `b` are equal up to ASCII case, as
/// `str::eq_ignore_ascii_case` decides it.
pub fn eq_ignore_ascii_case(a: &str, b: &str) -> (r: bool)
    ensures
        r == eq_ignore_case(a@, b@),
{
    let ca = chars_of(a);
    let cb = chars_of(b);
    if ca.len() != cb.len() {
        return false;
    }
    let mut i: usize = 0;
    while i < ca.len()
        invariant
            ca@ == a@,
            cb@ == b@,
            ca.len() == cb.len(),
            i <= ca.len(),
            forall|j: int| 0 <= j < i ==> ascii_lower(#[trigger] ca@[j]) == ascii_lower(cb@[j]),
        decreases ca.len() - i,
    {
        if lower_char(ca[i]) != lower_char(cb[i]) {
            return false;
        }
        i = i + 1;
    }
    true
}

/// The characters of the low digits in `d` (least significant first), in
/// reading order: the last entry of `d` comes first.
pub open spec fn reading_order(d: Seq<u8>) -> Seq<char>
    decreases d.len(),
{
    if d.len() == 0 {
        Seq::empty()
    } else {
        seq![digit_char(d.last() as int)] + reading_order(d.drop_last())
    }
}

fn digit_str(d: u8) -> (r: &'static str)
    requires
        d < 10,
    ensures
        r@ == seq![digit_char(d as int)],
{
    proof {
        reveal_strlit("0"); reveal_strlit("1"); reveal_strlit("2"); reveal_strlit("3");
        reveal_strlit("4"); reveal_strlit("5"); reveal_strlit("6"); reveal_strlit("7");
        reveal_strlit("8"); reveal_strlit("9");
    }
    let r = match d {
        0 => "0", 1 => "1", 2 => "2", 3 => "3", 4 => "4",
        5 => "5", 6 => "6", 7 => "7", 8 => "8", _ => "9",
    };
    proof { assert(r@ =~= seq![digit_char(d as int)]); }
    r
}

/// The decimal representation of `n`.
pub fn decimal_string(n: u128) -> (r: String)
    ensures
        r@ == decimal(n as nat),
{
    let mut m: u128 = n;
    let mut digits: Vec<u8> = Vec::new();
    while m >= 10
        invariant
            decimal(n as nat) =~= decimal(m as nat) + reading_order(digits@),
            forall|i: int| 0 <= i < digits@.len() ==> digits@[i] < 10,
        decreases m,
    {
        let ghost old_digits = digits@;
        digits.push((m % 10) as u8);
        proof {
            assert(digits@.drop_last() =~= old_digits);
            assert(reading_order(digits@) =~= seq![digit_char((m % 10) as int)] + reading_order(old_digits));
            assert(decimal(m as nat) =~= decimal((m / 10) as nat) + seq![digit_char((m % 10) as int)]);
        }
        m = m / 10;
    }
    let ghost before = digits@;
    digits.push(m as u8);
    proof {
        assert(digits@.drop_last() =~= before);
        assert(decimal(n as nat) =~= reading_order(digits@));
    }
    let mut r = String::new();
    let mut k: usize = digits.len();
    proof { assert(digits@.take(k as int) =~= digits@); }
    while k > 0
        invariant
            k <= digits@.len(),
            forall|i: int| 0 <= i < digits@.len() ==> digits@[i] < 10,
            r@ + reading_order(digits@.take(k as int)) =~= decimal(n as nat),
        decreases k,
    {
        proof {
            assert(digits@.take(k as int).drop_last() =~= digits@.take(k - 1));
        }
        let d = digits[k - 1];
        r.append(digit_str(d));
        k = k - 1;
    }
    proof { assert(digits@.take(0) =~= Seq::<u8>::empty()); }
    r
}

proof fn lemma_digits_value_grows(p: Seq<char>, q: Seq<char>)
    requires
        all_digits(q),
    ensures
        digits_value(p + q) >= digits_value(p),
    decreases q.len(),
{
    if q.len() > 0 {
        lemma_digits_value_grows(p, q.drop_last());
        assert((p + q).drop_last() =~= p + q.drop_last());
        assert(is_digit(q[q.len() - 1]));
    }
}

/// Once a prefix of the digits overflows `u128`, so does the whole number.
proof fn lemma_overflow_rejects(body: Seq<char>, cs: Seq<char>, start: int, i: int)
    requires
        0 <= start <= i < cs.len(),
        body =~= cs.subrange(start, cs.len() as int),
        digits_value(cs.subrange(start, i + 1)) > u128::MAX,
    ensures
        all_digits(body) ==> digits_value(body) > u128::MAX,
{
    if all_digits(body) {
        let q = cs.subrange(i + 1, cs.len() as int);
        assert forall|j: int| 0 <= j < q.len() implies is_digit(#[trigger] q[j]) by {
            assert(q[j] == body[j + i + 1 - start]);
        }
        lemma_digits_value_grows(cs.subrange(start, i + 1), q);
        assert(cs.subrange(start, i + 1) + q =~= body);
    }
}

/// A run of decimal digits read as a `u128`: `None` when it is empty, holds
/// anything but digits, or does not fit.
pub open spec fn digits_u128(body: Seq<char>) -> Option<u128> {
    if body.len() > 0 && all_digits(body) && digits_value(body) <= u128::MAX {
        Some(digits_value(body) as u128)
    } else {
        None
    }
}

/// The characters of `cs` from `start` on, read as a run of decimal digits.
fn digits_from(cs: &Vec<char>, start: usize) -> (r: Option<u128>)
    requires
        start <= cs@.len(),
    ensures
        r == digits_u128(cs@.subrange(start as int, cs@.len() as int)),
{
    let ghost body = cs@.subrange(start as int, cs@.len() as int);
    if start >= cs.len() {
        return None;
    }
    let mut acc: u128 = 0;
    let mut i: usize = start;
    while i < cs.len()
        invariant
            start <= i <= cs.len(),
            body == cs@.subrange(start as int, cs@.len() as int),
            all_digits(cs@.subrange(start as int, i as int)),
            acc == digits_value(cs@.subrange(start as int, i as int)),
        decreases cs.len() - i,
    {
        let c = cs[i];
        proof {
            assert(cs@.subrange(start as int, i + 1).drop_last() =~= cs@.subrange(start as int, i as int));
        }
        if !('0' <= c && c <= '9') {
            proof {
                assert(body[i - start] == c);
                assert(!is_digit(body[i - start]));
            }
            return None;
        }
        let d: u128 = (c as u32 - 48) as u128;
        proof {
            assert(d == digit_value(c));
            assert(cs@.subrange(start as int, i + 1).last() == c);
            assert(digits_value(cs@.subrange(start as int, i + 1)) == acc * 10 + d);
        }
        match acc.checked_mul(10) {
            Some(t) => match t.checked_add(d) {
                Some(v) => {
                    acc = v;
                },
                None => {
                    proof { lemma_overflow_rejects(body, cs@, start as int, i as int); }
                    return None;
                },
            },
            None => {
                proof { lemma_overflow_rejects(body, cs@, start as int, i as int); }
                return None;
            },
        }
        i = i + 1;
    }
    proof { assert(body =~= cs@.subrange(start as int, i as int)); }
    Some(acc)
}

/// `s` read as a decimal `u128`, as `str::parse::<u128>` reads it.
pub fn parse_u128(s: &str) -> (r: Option<u128>)
    ensures
        r == spec_parse_u128(s@),
{
    let cs = chars_of(s);
    let start: usize = if cs.len() > 0 && cs[0] == '+' { 1 } else { 0 };
    let ghost body = if s@.len() > 0 && s@[0] == '+' { s@.drop_first() } else { s@ };
    proof { assert(body =~= cs@.subrange(start as int, cs@.len() as int)); }
    digits_from(&cs, start)
}

/// `s` read as a decimal `u64`, as `str::parse::<u64>` reads it.
pub fn parse_u64(s: &str) -> (r: Option<u64>)
    ensures
        r == spec_parse_u64(s@),
{
    match parse_u128(s) {
        Some(v) => if v <= u64::MAX as u128 { Some(v as u64) } else { None },
        None => {
            proof {
                if let Some(v) = parse_decimal(s@) {
                    assert(v > u128::MAX);
                }
            }
            None
        }
    }
}

pub proof fn lemma_decimal_is_digits(n: nat)
    ensures
        all_digits(decimal(n)),
        decimal(n).len() > 0,
        digits_value(decimal(n)) == n,
    decreases n,
{
    assert(digit_char((n % 10) as int) as int == (n % 10) + 48);
    if n >= 10 {
        lemma_decimal_is_digits(n / 10);
        let d = decimal(n);
        assert(d.drop_last() =~= decimal(n / 10));
    } else {
        let d = decimal(n);
        assert(d.drop_last() =~= Seq::<char>::empty());
        assert(digits_value(d.drop_last()) == 0);
        assert(d.last() == digit_char(n as int));
    }
}

/// Reading back the decimal representation of a number gives the number.
pub proof fn lemma_parse_decimal_roundtrip(n: nat)
    ensures
        parse_decimal(decimal(n)) == Some(n),
{
    lemma_decimal_is_digits(n);
    let d = decimal(n);
    assert(is_digit(d[0]));
}

/// The decimal representation of a signed integer, with a leading `-` for a
/// negative one.
pub open spec fn signed_decimal(n: int) -> Seq<char> {
    if n < 0 {
        seq!['-'] + decimal((-n) as nat)
    } else {
        decimal(n as nat)
    }
}

/// `s` read as an `i64` the way the standard library reads one: an optional
/// `+` or `-`, then at least one digit and nothing else, within range.
pub open spec fn spec_parse_i64(s: Seq<char>) -> Option<i64> {
    if s.len() > 0 && s[0] == '-' {
        let body = s.drop_first();
        if body.len() > 0 && all_digits(body) && digits_value(body) <= 0x8000_0000_0000_0000 {
            Some((-(digits_value(body) as int)) as i64)
        } else {
            None
        }
    } else {
        match parse_decimal(s) {
            Some(v) => if v <= i64::MAX {
                Some(v as i64)
            } else {
                None
            },
            None => None,
        }
    }
}

/// The decimal representation of `n`, as `i64::to_string` renders it.
pub fn signed_decimal_string(n: i64) -> (r: String)
    ensures
        r@ == signed_decimal(n as int),
{
    if n < 0 {
        let m: u128 = (-(n as i128)) as u128;
        proof { reveal_strlit("-"); }
        String::from_str("-").concat(decimal_string(m).as_str())
    } else {
        decimal_string(n as u128)
    }
}

/// `s` read as a decimal `i64`, as `str::parse::<i64>` reads it.
pub fn parse_i64(s: &str) -> (r: Option<i64>)
    ensures
        r == spec_parse_i64(s@),
{
    let cs = chars_of(s);
    if cs.len() > 0 && cs[0] == '-' {
        proof { assert(s@.drop_first() =~= cs@.subrange(1, cs@.len() as int)); }
        match digits_from(&cs, 1) {
            Some(v) => if v <= 0x8000_0000_0000_0000 {
                Some((-(v as i128)) as i64)
            } else {
                None
            },
            None => None,
        }
    } else {
        let start: usize = if cs.len() > 0 && cs[0] == '+' { 1 } else { 0 };
        let ghost body = if s@.len() > 0 && s@[0] == '+' { s@.drop_first() } else { s@ };
        proof { assert(body =~= cs@.subrange(start as int, cs@.len() as int)); }
        match digits_from(&cs, start) {
            Some(v) => if v <= i64::MAX as u128 {
                Some(v as i64)
            } else {
                None
            },
            None => None,
        }
    }
}

/// Reading back the rendering of an `i64` gives the number.
pub proof fn lemma_parse_i64_roundtrip(n: i64)
    ensures
        spec_parse_i64(signed_decimal(n as int)) == Some(n),
{
    if n < 0 {
        let d = decimal((-n) as nat);
        lemma_decimal_is_digits((-n) as nat);
        assert((seq!['-'] + d).drop_first() =~= d);
        assert((seq!['-'] + d)[0] == '-');
    } else {
        lemma_decimal_is_digits(n as nat);
        lemma_parse_decimal_roundtrip(n as nat);
        let d = decimal(n as nat);
        assert(is_digit(d[0]));
    }
}

/// What std's integer parse error says when `s` is read as a `u128` and the
/// read fails: the `Display` of the `ParseIntError`.
pub uninterp spec fn u128_parse_error_text(s: Seq<char>) -> Seq<char>;

/// Reads `s` with `str::parse::<u128>` and renders the `ParseIntError` it
/// fails with through its `Display`. Only called on text that does not read
/// as a `u128`; the message is the name `u128_parse_error_text` of the text,
/// std's wording not being written out here.
#[verifier::external_body]
pub(crate) fn u128_parse_error(s: &str) -> (r: String)
    requires
        spec_parse_u128(s@) is None,
    ensures
        r@ == u128_parse_error_text(s@),
{
    match s.parse::<u128>() {
        Ok(_) => String::new(),
        Err(e) => e.to_string(),
    }
}

/// What `Debug` renders for a string: std's `<str as Debug>::fmt`, which
/// quotes the text and escapes what needs escaping.
pub uninterp spec fn debug_quoted(s: Seq<char>) -> Seq<char>;

/// Renders `s` with std's `Debug` for `str` (`format!("{:?}", s)`). The result
/// is the name `debug_quoted` applied to the text; the escaping rules are
/// std's and are not written out here.
#[verifier::external_body]
pub(crate) fn quoted_debug(s: &str) -> (r: String)
    ensures
        r@ == debug_quoted(s@),
{
    format!("{:?}", s)
}

/// What std's integer parse error says when `s` is read as a `u64` and the
/// read fails: the `Display` of the `ParseIntError`.
pub uninterp spec fn u64_parse_error_text(s: Seq<char>) -> Seq<char>;

/// Reads `s` with `str::parse::<u64>` and renders the `ParseIntError` it
/// fails with through its `Display`. Only called on text that does not read
/// as a `u64`; the message is the name `u64_parse_error_text` of the text.
#[verifier::external_body]
pub(crate) fn u64_parse_error(s: &str) -> (r: String)
    requires
        spec_parse_u64(s@) is None,
    ensures
        r@ == u64_parse_error_text(s@),
{
    match s.parse::<u64>() {
        Ok(_) => String::new(),
        Err(e) => e.to_string(),
    }
}

} // verus!
