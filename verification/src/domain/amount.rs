use vstd::prelude::*;
use vstd::std_specs::ops::{AddSpecImpl, SubSpecImpl};
use crate::text::{
    chars_of,
    is_white_space,
    string_of,
    sub_chars,
    trim,
    trim_chars,
    trim_end,
    trim_start,
    utf8_len,
    utf8_width,
    utf8_len_of,
};

verus! {

/// Whether an integer fits in the range of `i64`.
pub open spec fn fits_i64(v: int) -> bool {
    i64::MIN <= v <= i64::MAX
}

/// Fixed-point amount with 4 decimal places of internal precision.
/// 15000 represents 1.5000. Displayed with 2 decimal places (rounded).
#[derive(Debug, Clone, Copy, PartialEq, Eq, Structural, PartialOrd, Ord, Hash)]
pub struct Amount(pub i64);

impl View for Amount {
    type V = int;

    open spec fn view(&self) -> int {
        self.0 as int
    }
}

impl Amount {
    /// The zero amount.
    pub fn zero() -> (r: Amount)
        ensures
            r@ == 0,
    {
        Amount(0)
    }

    pub fn is_negative(&self) -> (r: bool)
        ensures
            r == (self@ < 0),
    {
        self.0 < 0
    }
}

impl core::ops::Add for Amount {
    type Output = Amount;

    fn add(self, rhs: Amount) -> (r: Amount) {
        Amount(self.0 + rhs.0)
    }
}

impl AddSpecImpl for Amount {
    open spec fn obeys_add_spec() -> bool {
        true
    }

    open spec fn add_req(self, rhs: Amount) -> bool {
        fits_i64(self@ + rhs@)
    }

    open spec fn add_spec(self, rhs: Amount) -> Amount {
        Amount((self@ + rhs@) as i64)
    }
}

impl core::ops::Sub for Amount {
    type Output = Amount;

    fn sub(self, rhs: Amount) -> (r: Amount) {
        Amount(self.0 - rhs.0)
    }
}

impl SubSpecImpl for Amount {
    open spec fn obeys_sub_spec() -> bool {
        true
    }

    open spec fn sub_req(self, rhs: Amount) -> bool {
        fits_i64(self@ - rhs@)
    }

    open spec fn sub_spec(self, rhs: Amount) -> Amount {
        Amount((self@ - rhs@) as i64)
    }
}


/// Why a string is not an amount.
#[derive(Debug, Clone, PartialEq, Eq)]
pub enum ParseAmountError {
    /// The string holds nothing but white space.
    Empty,
    /// The string is not a decimal number; it holds the trimmed input.
    Invalid(String),
    /// The fraction holds more than 4 bytes.
    TooManyDecimals,
}

impl ParseAmountError {
    /// The message that describes the error.
    pub fn message(&self) -> (m: String)
        ensures
            m@ == parse_error_message(*self),
    {
        let mut m = String::new();
        match self {
            ParseAmountError::Empty => {
                push_str_chars(&mut m, "empty amount string");
            },
            ParseAmountError::Invalid(s) => {
                push_str_chars(&mut m, "invalid amount: ");
                push_str_chars(&mut m, s.as_str());
            },
            ParseAmountError::TooManyDecimals => {
                push_str_chars(&mut m, "more than 4 decimal places");
            },
        }
        m
    }
}

/// The message of a parse error.
pub open spec fn parse_error_message(e: ParseAmountError) -> Seq<char> {
    match e {
        ParseAmountError::Empty => "empty amount string"@,
        ParseAmountError::Invalid(s) => "invalid amount: "@ + s@,
        ParseAmountError::TooManyDecimals => "more than 4 decimal places"@,
    }
}

fn push_str_chars(m: &mut String, s: &str)
    ensures
        final(m)@ == old(m)@ + s@,
{
    let v = chars_of(s);
    crate::text::push_chars(m, &v);
}

// ---------------------------------------------------------------------------
// Decimal text
// ---------------------------------------------------------------------------

/// Whether `c` is an ASCII decimal digit.
pub open spec fn is_digit(c: char) -> bool {
    '0' <= c && c <= '9'
}

/// Whether every character of `s` is an ASCII decimal digit.
pub open spec fn all_digits(s: Seq<char>) -> bool {
    forall|i: int| 0 <= i < s.len() ==> is_digit(#[trigger] s[i])
}

/// The number that the decimal digits `s` write.
pub open spec fn digits_value(s: Seq<char>) -> int
    decreases s.len(),
{
    if s.len() == 0 {
        0
    } else {
        digits_value(s.drop_last()) * 10 + (s.last() as int - '0' as int)
    }
}

/// What `i64::from_str` gives for `s`: an optional `+` or `-`, then at least
/// one ASCII digit, with a value in the range of `i64`.
pub open spec fn parse_i64(s: Seq<char>) -> Option<int> {
    let signed = s.len() > 0 && (s[0] == '-' || s[0] == '+');
    let body = if signed {
        s.drop_first()
    } else {
        s
    };
    let value = if s.len() > 0 && s[0] == '-' {
        -digits_value(body)
    } else {
        digits_value(body)
    };
    if body.len() > 0 && all_digits(body) && fits_i64(value) {
        Some(value)
    } else {
        None
    }
}

/// The index of the first `.` in `s`, or the length of `s` if there is none.
pub open spec fn dot_index(s: Seq<char>) -> int
    decreases s.len(),
{
    if s.len() == 0 {
        0
    } else if s[0] == '.' {
        0
    } else {
        1 + dot_index(s.drop_first())
    }
}

/// The part of an amount text before its first `.` (all of it if there is none).
pub open spec fn whole_text(t: Seq<char>) -> Seq<char> {
    t.take(dot_index(t))
}

/// The part of an amount text after its first `.` (empty if there is none).
pub open spec fn frac_text(t: Seq<char>) -> Seq<char> {
    if dot_index(t) < t.len() {
        t.skip(dot_index(t) + 1)
    } else {
        Seq::empty()
    }
}

/// Whether the whole part is written with a leading minus.
pub open spec fn is_negative_text(w: Seq<char>) -> bool {
    w.len() > 0 && w[0] == '-'
}

/// The whole part without its leading minus.
pub open spec fn whole_digits(w: Seq<char>) -> Seq<char> {
    if is_negative_text(w) {
        w.drop_first()
    } else {
        w
    }
}

/// The value of the whole part (before the minus is applied); an empty part is 0.
pub open spec fn whole_value(w: Seq<char>) -> Option<int> {
    if whole_digits(w).len() == 0 {
        Some(0)
    } else {
        parse_i64(whole_digits(w))
    }
}

/// A fraction of at most 4 characters, padded on the right with `0` to 4 characters.
pub open spec fn pad_fraction(f: Seq<char>) -> Seq<char> {
    f + Seq::new((4 - f.len()) as nat, |i: int| '0')
}

/// The value of the fraction in ten-thousandths; an empty fraction is 0.
pub open spec fn frac_value(f: Seq<char>) -> Option<int> {
    if f.len() == 0 {
        Some(0)
    } else {
        parse_i64(pad_fraction(f))
    }
}

/// The amount text holds nothing but white space.
pub open spec fn amount_text_empty(s: Seq<char>) -> bool {
    trim(s).len() == 0
}

/// The whole part reads, and the fraction takes more than 4 bytes.
pub open spec fn amount_text_too_precise(s: Seq<char>) -> bool {
    let t = trim(s);
    &&& t.len() > 0
    &&& whole_value(whole_text(t)) is Some
    &&& utf8_len(frac_text(t)) > 4
}

/// The value, in ten-thousandths, that an amount text stands for, when it
/// reads and the value fits in an `i64`.
pub open spec fn amount_text_value(s: Seq<char>) -> Option<int> {
    let t = trim(s);
    let w = whole_text(t);
    let f = frac_text(t);
    if t.len() == 0 || utf8_len(f) > 4 {
        None
    } else {
        match (whole_value(w), frac_value(f)) {
            (Some(wv), Some(fv)) => {
                let raw = wv * 10000 + fv;
                let v = if is_negative_text(w) {
                    -raw
                } else {
                    raw
                };
                if fits_i64(raw) && fits_i64(v) {
                    Some(v)
                } else {
                    None
                }
            },
            _ => None,
        }
    }
}

/// Whether `r` is what parsing the text `s` as an amount gives: its value
/// when it reads, else the first of these that holds: `Empty` for a blank
/// text, `Invalid` (with the trimmed text) when the whole part does not read,
/// `TooManyDecimals` when the fraction takes more than 4 bytes, `Invalid` when
/// the fraction does not read or the value is out of range.
pub open spec fn parse_outcome(s: Seq<char>, r: Result<Amount, ParseAmountError>) -> bool {
    match r {
        Ok(a) => amount_text_value(s) == Some(a@),
        Err(ParseAmountError::Empty) => amount_text_empty(s),
        Err(ParseAmountError::TooManyDecimals) => amount_text_too_precise(s),
        Err(ParseAmountError::Invalid(m)) => {
            &&& !amount_text_empty(s)
            &&& !amount_text_too_precise(s)
            &&& amount_text_value(s) is None
            &&& m@ == trim(s)
        },
    }
}

proof fn lemma_digits_value_nonneg(s: Seq<char>)
    requires
        all_digits(s),
    ensures
        digits_value(s) >= 0,
    decreases s.len(),
{
    if s.len() > 0 {
        assert(all_digits(s.drop_last())) by {
            assert forall|i: int| 0 <= i < s.drop_last().len() implies is_digit(
                #[trigger] s.drop_last()[i],
            ) by {
                assert(s.drop_last()[i] == s[i]);
            }
        }
        lemma_digits_value_nonneg(s.drop_last());
        assert(is_digit(s[s.len() - 1]));
    }
}

proof fn lemma_digits_value_prefix(s: Seq<char>, k: int)
    requires
        all_digits(s),
        0 <= k <= s.len(),
    ensures
        digits_value(s.take(k)) <= digits_value(s),
    decreases s.len(),
{
    if k < s.len() {
        let d = s.drop_last();
        assert(all_digits(d)) by {
            assert forall|i: int| 0 <= i < d.len() implies is_digit(#[trigger] d[i]) by {
                assert(d[i] == s[i]);
            }
        }
        lemma_digits_value_prefix(d, k);
        assert(d.take(k) =~= s.take(k));
        lemma_digits_value_nonneg(d);
        assert(is_digit(s[s.len() - 1]));
    } else {
        assert(s.take(k) =~= s);
    }
}

/// `i64::from_str` on the characters `v[lo..hi]`.
fn parse_i64_chars(v: &Vec<char>, lo: usize, hi: usize) -> (r: Option<i64>)
    requires
        lo <= hi <= v.len(),
    ensures
        match r {
            Some(x) => parse_i64(v@.subrange(lo as int, hi as int)) == Some(x as int),
            None => parse_i64(v@.subrange(lo as int, hi as int)) is None,
        },
{
    let ghost s = v@.subrange(lo as int, hi as int);
    if lo == hi {
        return None;
    }
    let negative = v[lo] == '-';
    let signed = negative || v[lo] == '+';
    let start: usize = if signed {
        lo + 1
    } else {
        lo
    };
    let ghost body = if signed {
        s.drop_first()
    } else {
        s
    };
    assert(body =~= v@.subrange(start as int, hi as int));
    if start == hi {
        return None;
    }
    let mut acc: u128 = 0;
    let mut i: usize = start;
    assert(body.take(0) =~= Seq::<char>::empty());
    while i < hi
        invariant
            lo <= start <= i <= hi <= v.len(),
            s == v@.subrange(lo as int, hi as int),
            s.len() > 0,
            signed == (s[0] == '-' || s[0] == '+'),
            negative == (s[0] == '-'),
            body == (if signed {
                s.drop_first()
            } else {
                s
            }),
            body == v@.subrange(start as int, hi as int),
            all_digits(body.take(i - start)),
            acc as int == digits_value(body.take(i - start)),
            acc <= 0x8000_0000_0000_0000,
        decreases hi - i,
    {
        let c = v[i];
        if !('0' <= c && c <= '9') {
            assert(body[i - start] == c);
            return None;
        }
        let d = (c as u32 - '0' as u32) as u128;
        let ghost before = body.take(i - start);
        let ghost after = body.take(i - start + 1);
        assert(after.drop_last() =~= before);
        assert(after.last() == c);
        assert(all_digits(after)) by {
            assert forall|k: int| 0 <= k < after.len() implies is_digit(#[trigger] after[k]) by {
                if k < before.len() {
                    assert(after[k] == before[k]);
                }
            }
        }
        acc = acc * 10 + d;
        i = i + 1;
        if acc > 0x8000_0000_0000_0000 {
            proof {
                if all_digits(body) {
                    lemma_digits_value_prefix(body, i - start);
                }
            }
            return None;
        }
    }
    assert(body.take(i - start) =~= body);
    if negative {
        let value: i128 = -(acc as i128);
        Some(value as i64)
    } else if acc <= 0x7FFF_FFFF_FFFF_FFFF {
        Some(acc as i64)
    } else {
        None
    }
}

proof fn lemma_dot_index_found(s: Seq<char>, i: int)
    requires
        0 <= i <= s.len(),
        forall|k: int| 0 <= k < i ==> s[k] != '.',
        i == s.len() || s[i] == '.',
    ensures
        dot_index(s) == i,
    decreases i,
{
    if i > 0 {
        lemma_dot_index_found(s.drop_first(), i - 1);
    }
}

/// The index of the first `.` in `v`, or its length.
fn find_dot(v: &Vec<char>) -> (r: usize)
    ensures
        r == dot_index(v@),
        r <= v.len(),
{
    let mut i: usize = 0;
    while i < v.len() && v[i] != '.'
        invariant
            i <= v.len(),
            forall|k: int| 0 <= k < i ==> v@[k] != '.',
        decreases v.len() - i,
    {
        i = i + 1;
    }
    proof {
        lemma_dot_index_found(v@, i as int);
    }
    i
}

impl Amount {
    /// Parses an amount: surrounding white space is ignored; then an optional
    /// minus, the whole part, and optionally a `.` and at most 4 bytes of
    /// fraction. A value out of the range of `i64` is invalid.
    pub fn parse(s: &str) -> (r: Result<Amount, ParseAmountError>)
        ensures
            parse_outcome(s@, r),
    {
        let all = chars_of(s);
        let t = trim_chars(&all);
        if t.len() == 0 {
            return Err(ParseAmountError::Empty);
        }
        let ghost tv = t@;
        let d = find_dot(&t);
        assert(whole_text(tv) =~= tv.subrange(0, d as int));
        let negative = d > 0 && t[0] == '-';
        let start: usize = if negative {
            1
        } else {
            0
        };
        assert(whole_digits(whole_text(tv)) =~= tv.subrange(start as int, d as int));
        let whole: i64 = if start == d {
            0
        } else {
            match parse_i64_chars(&t, start, d) {
                Some(x) => x,
                None => {
                    return Err(ParseAmountError::Invalid(string_of(&t)));
                },
            }
        };
        let frac_start: usize = if d < t.len() {
            d + 1
        } else {
            d
        };
        let f = sub_chars(&t, frac_start, t.len());
        assert(f@ =~= frac_text(tv));
        let frac: i64 = if f.len() == 0 {
            0
        } else {
            if f.len() > 4 || utf8_len_of(&f) > 4 {
                proof {
                    lemma_utf8_len_at_least_len(f@);
                }
                return Err(ParseAmountError::TooManyDecimals);
            }
            let mut padded = sub_chars(&f, 0, f.len());
            while padded.len() < 4
                invariant
                    f.len() <= padded.len() <= 4,
                    padded@ == pad_fraction(f@).take(padded.len() as int),
                decreases 4 - padded.len(),
            {
                padded.push('0');
            }
            assert(padded@ =~= pad_fraction(f@));
            assert(padded@.subrange(0, 4) =~= padded@);
            match parse_i64_chars(&padded, 0, 4) {
                Some(x) => x,
                None => {
                    assert(padded@.subrange(0, 4) =~= padded@);
                    return Err(ParseAmountError::Invalid(string_of(&t)));
                },
            }
        };
        proof {
            lemma_utf8_len_at_least_len(f@);
        }
        let raw: i128 = whole as i128 * 10000 + frac as i128;
        let value: i128 = if negative {
            -raw
        } else {
            raw
        };
        if raw < i64::MIN as i128 || raw > i64::MAX as i128 || value < i64::MIN as i128 || value
            > i64::MAX as i128 {
            return Err(ParseAmountError::Invalid(string_of(&t)));
        }
        Ok(Amount(value as i64))
    }
}

proof fn lemma_utf8_len_at_least_len(s: Seq<char>)
    ensures
        utf8_len(s) >= s.len(),
    decreases s.len(),
{
    if s.len() > 0 {
        lemma_utf8_len_at_least_len(s.drop_last());
    }
}


// ---------------------------------------------------------------------------
// Display
// ---------------------------------------------------------------------------

/// The character of the decimal digit `d`.
pub open spec fn digit_char(d: int) -> char {
    (d + '0' as int) as char
}

/// The decimal digits of `n`, without leading zeros ("0" for zero).
pub open spec fn decimal(n: nat) -> Seq<char>
    decreases n,
{
    if n < 10 {
        seq![digit_char(n as int)]
    } else {
        decimal(n / 10).push(digit_char((n % 10) as int))
    }
}

/// The absolute value of `v`.
pub open spec fn abs(v: int) -> nat {
    if v < 0 {
        (-v) as nat
    } else {
        v as nat
    }
}

/// The hundredths of `v` ten-thousandths after rounding half up, before a carry
/// into the whole part.
pub open spec fn rounded_cents(v: int) -> nat {
    ((abs(v) % 10000 + 50) / 100) as nat
}

/// The whole units shown for `v` ten-thousandths, after rounding.
pub open spec fn shown_whole(v: int) -> nat {
    if rounded_cents(v) >= 100 {
        abs(v) / 10000 + 1
    } else {
        abs(v) / 10000
    }
}

/// The hundredths shown for `v` ten-thousandths, after rounding.
pub open spec fn shown_cents(v: int) -> nat {
    if rounded_cents(v) >= 100 {
        0
    } else {
        rounded_cents(v)
    }
}

/// How an amount of `v` ten-thousandths is written: a minus for a negative
/// value, the whole units, a `.` and two digits of hundredths, rounded half up
/// away from zero.
pub open spec fn display_text(v: int) -> Seq<char> {
    let sign = if v < 0 {
        seq!['-']
    } else {
        Seq::<char>::empty()
    };
    sign + decimal(shown_whole(v)) + seq![
        '.',
        digit_char((shown_cents(v) / 10) as int),
        digit_char((shown_cents(v) % 10) as int),
    ]
}

/// The character of the decimal digit `d`.
fn digit(d: u64) -> (c: char)
    requires
        d < 10,
    ensures
        c == digit_char(d as int),
{
    let b: u8 = d as u8 + 48;
    b as char
}

/// Appends the decimal digits of `n` to `s`.
fn push_decimal(s: &mut String, n: u64)
    ensures
        final(s)@ == old(s)@ + decimal(n as nat),
    decreases n,
{
    if n >= 10 {
        push_decimal(s, n / 10);
    }
    let c = digit(n % 10);
    let mut one: Vec<char> = Vec::new();
    one.push(c);
    crate::text::push_chars(s, &one);
    assert(one@ =~= seq![c]);
}

impl Amount {
    /// The amount written with two decimals, rounded half up away from zero
    /// (`1.005` is written `1.01`, `-0.9999` is written `-1.00`).
    pub fn to_string(&self) -> (s: String)
        ensures
            s@ == display_text(self@),
    {
        let v = self.0;
        let abs_value: u64 = if v < 0 {
            (-(v as i128)) as u64
        } else {
            v as u64
        };
        let whole = abs_value / 10_000;
        let cents = (abs_value % 10_000 + 50) / 100;
        let (shown, shown_c) = if cents >= 100 {
            (whole + 1, 0u64)
        } else {
            (whole, cents)
        };
        let mut s = String::new();
        if v < 0 {
            let mut minus: Vec<char> = Vec::new();
            minus.push('-');
            crate::text::push_chars(&mut s, &minus);
            assert(minus@ =~= seq!['-']);
        }
        push_decimal(&mut s, shown);
        let mut tail: Vec<char> = Vec::new();
        tail.push('.');
        tail.push(digit(shown_c / 10));
        tail.push(digit(shown_c % 10));
        crate::text::push_chars(&mut s, &tail);
        proof {
            assert(abs_value as nat == abs(self@));
            assert(shown as nat == shown_whole(self@));
            assert(shown_c as nat == shown_cents(self@));
            assert(tail@ =~= seq![
                '.',
                digit_char((shown_cents(self@) / 10) as int),
                digit_char((shown_cents(self@) % 10) as int),
            ]);
            assert(s@ =~= display_text(self@));
        }
        s
    }
}


proof fn lemma_digit_char(d: int)
    requires
        0 <= d < 10,
    ensures
        is_digit(digit_char(d)),
        digit_char(d) as int - '0' as int == d,
        digit_char(d) != '.',
        digit_char(d) != '-',
        digit_char(d) != '+',
        !is_white_space(digit_char(d)),
        (digit_char(d) as u32) < 0x80,
{
}

proof fn lemma_decimal(n: nat)
    ensures
        decimal(n).len() >= 1,
        all_digits(decimal(n)),
        digits_value(decimal(n)) == n,
        forall|i: int| 0 <= i < decimal(n).len() ==> #[trigger] decimal(n)[i] != '.',
        decimal(n)[0] != '-' && decimal(n)[0] != '+' && !is_white_space(decimal(n)[0]),
    decreases n,
{
    if n < 10 {
        lemma_digit_char(n as int);
        assert(seq![digit_char(n as int)].drop_last() =~= Seq::<char>::empty());
        assert(digits_value(Seq::<char>::empty()) == 0);
        assert(decimal(n).last() == digit_char(n as int));
    } else {
        lemma_decimal(n / 10);
        lemma_digit_char((n % 10) as int);
        let d = decimal(n);
        assert(d.drop_last() =~= decimal(n / 10));
        assert(d.last() == digit_char((n % 10) as int));
        assert(n == (n / 10) * 10 + n % 10);
        assert forall|i: int| 0 <= i < d.len() implies is_digit(#[trigger] d[i]) by {
            if i < d.len() - 1 {
                assert(d[i] == decimal(n / 10)[i]);
            }
        }
        assert forall|i: int| 0 <= i < d.len() implies #[trigger] d[i] != '.' by {
            if i < d.len() - 1 {
                assert(d[i] == decimal(n / 10)[i]);
            }
        }
        assert(d[0] == decimal(n / 10)[0]);
    }
}

proof fn lemma_four_digits(a: int, b: int)
    requires
        0 <= a < 10,
        0 <= b < 10,
    ensures
        ({
            let p = seq![digit_char(a), digit_char(b), '0', '0'];
            &&& all_digits(p)
            &&& digits_value(p) == a * 1000 + b * 100
        }),
{
    lemma_digit_char(a);
    lemma_digit_char(b);
    let p = seq![digit_char(a), digit_char(b), '0', '0'];
    let p3 = seq![digit_char(a), digit_char(b), '0'];
    let p2 = seq![digit_char(a), digit_char(b)];
    let p1 = seq![digit_char(a)];
    assert(p.drop_last() =~= p3);
    assert(p3.drop_last() =~= p2);
    assert(p2.drop_last() =~= p1);
    assert(p1.drop_last() =~= Seq::<char>::empty());
    assert(digits_value(Seq::<char>::empty()) == 0);
    assert(digits_value(p1) == a);
    assert(digits_value(p2) == a * 10 + b);
    assert(digits_value(p3) == (a * 10 + b) * 10);
    assert(all_digits(p)) by {
        assert forall|i: int| 0 <= i < p.len() implies is_digit(#[trigger] p[i]) by {
        }
    }
}

/// The text of `v` reads back as its value rounded to hundredths: the whole
/// units and hundredths shown, with the sign shown.
proof fn lemma_display_reads_back(v: int)
    requires
        fits_i64(v),
    ensures
        ({
            let r = shown_whole(v) * 10000 + shown_cents(v) * 100;
            &&& r <= 9223372036854775800
            &&& abs(v) - 50 < r <= abs(v) + 50
            &&& amount_text_value(display_text(v)) == Some(
                if v < 0 {
                    -r
                } else {
                    r as int
                },
            )
        }),
{
    let w = shown_whole(v);
    let c = shown_cents(v);
    let ab = abs(v);
    let q = ab / 10000;
    let m = ab % 10000;
    let rc = rounded_cents(v);
    assert(ab == q * 10000 + m);
    assert(rc == (m + 50) / 100);
    assert(rc * 100 <= m + 50 < rc * 100 + 100);
    assert(c < 100);
    let r = w * 10000 + c * 100;
    if rc >= 100 {
        assert(w == q + 1 && c == 0);
        assert(r == ab - m + 10000);
    } else {
        assert(w == q && c == rc);
        assert(r == ab - m + rc * 100);
    }
    assert(ab - 50 < r <= ab + 50);
    assert(ab <= 9223372036854775808);
    assert(r == 100 * (w * 100 + c));
    assert(r <= 9223372036854775800);
    assert(w <= 922337203685477);
    let sign = if v < 0 {
        seq!['-']
    } else {
        Seq::<char>::empty()
    };
    let d = decimal(w);
    let c1 = digit_char((c / 10) as int);
    let c2 = digit_char((c % 10) as int);
    let t = display_text(v);
    lemma_decimal(w);
    lemma_digit_char((c / 10) as int);
    lemma_digit_char((c % 10) as int);
    let head = sign + d;
    assert(t =~= head + seq!['.', c1, c2]);
    let i = head.len() as int;
    // the text holds no surrounding white space
    assert(!is_white_space(t[0])) by {
        if v >= 0 {
            assert(t[0] == d[0]);
        }
    }
    assert(trim_start(t) == t);
    assert(t.last() == c2);
    assert(trim_end(t) == t);
    assert(trim(t) == t);
    // the first `.` follows the whole units
    assert forall|k: int| 0 <= k < i implies t[k] != '.' by {
        if v < 0 && k == 0 {
        } else {
            let j = if v < 0 { k - 1 } else { k };
            assert(t[k] == d[j]);
        }
    }
    lemma_dot_index_found(t, i);
    assert(whole_text(t) =~= head);
    assert(frac_text(t) =~= seq![c1, c2]);
    // the whole part
    assert(is_negative_text(head) == (v < 0)) by {
        if v >= 0 {
            assert(head[0] == d[0]);
        }
    }
    assert(whole_digits(head) =~= d);
    assert(parse_i64(d) == Some(w as int));
    assert(whole_value(head) == Some(w as int));
    // the fraction
    let f = seq![c1, c2];
    assert(f.drop_last() =~= seq![c1]);
    assert(seq![c1].drop_last() =~= Seq::<char>::empty());
    assert(utf8_len(Seq::<char>::empty()) == 0);
    assert(seq![c1].last() == c1);
    assert(f.last() == c2);
    assert(utf8_width(c1) == 1);
    assert(utf8_width(c2) == 1);
    assert(utf8_len(seq![c1]) == 1);
    assert(utf8_len(f) == 2);
    lemma_four_digits((c / 10) as int, (c % 10) as int);
    assert(pad_fraction(f) =~= seq![c1, c2, '0', '0']);
    assert((c / 10) * 1000 + (c % 10) * 100 == c * 100);
    assert(parse_i64(pad_fraction(f)) == Some(c as int * 100));
    assert(frac_value(f) == Some(c as int * 100));
}

/// The text of an amount reads back as the amount rounded to hundredths, half
/// away from zero: a multiple of 100 ten-thousandths, of the amount's sign
/// (or zero), whose size is more than 50 below and at most 50 above the
/// amount's size.
pub proof fn display_rounds_to_hundredths(a: Amount)
    ensures
        ({
            let r = amount_text_value(display_text(a@));
            &&& r is Some
            &&& r->0 % 100 == 0
            &&& (a@ < 0 ==> r->0 <= 0)
            &&& (a@ >= 0 ==> r->0 >= 0)
            &&& abs(a@) - 50 < abs(r->0) <= abs(a@) + 50
        }),
{
    lemma_display_reads_back(a@);
    let r = shown_whole(a@) * 10000 + shown_cents(a@) * 100;
    assert(r % 100 == 0) by {
        assert(r == 100 * (shown_whole(a@) * 100 + shown_cents(a@)));
    }
}

/// Writing an amount with at most two decimals and parsing the text again
/// gives the amount back.
pub proof fn display_then_parse_round_trip(a: Amount)
    requires
        a@ % 100 == 0,
    ensures
        amount_text_value(display_text(a@)) == Some(a@),
        parse_outcome(display_text(a@), Ok::<Amount, ParseAmountError>(a)),
{
    lemma_display_reads_back(a@);
    let v = a@;
    let r = shown_whole(v) * 10000 + shown_cents(v) * 100;
    assert(abs(v) % 100 == 0);
    assert(r % 100 == 0) by {
        assert(r == 100 * (shown_whole(v) * 100 + shown_cents(v)));
    }
    assert(r == abs(v));
}

/// The four decimal digits of `n` (below 10000), leading zeros kept.
pub open spec fn four_digits(n: nat) -> Seq<char> {
    seq![
        digit_char((n / 1000) as int),
        digit_char((n / 100 % 10) as int),
        digit_char((n / 10 % 10) as int),
        digit_char((n % 10) as int),
    ]
}

proof fn lemma_digits4(a: int, b: int, c: int, d: int)
    requires
        0 <= a < 10,
        0 <= b < 10,
        0 <= c < 10,
        0 <= d < 10,
    ensures
        ({
            let p = seq![digit_char(a), digit_char(b), digit_char(c), digit_char(d)];
            &&& all_digits(p)
            &&& digits_value(p) == a * 1000 + b * 100 + c * 10 + d
            &&& utf8_len(p) == 4
        }),
{
    lemma_digit_char(a);
    lemma_digit_char(b);
    lemma_digit_char(c);
    lemma_digit_char(d);
    let p = seq![digit_char(a), digit_char(b), digit_char(c), digit_char(d)];
    let p3 = seq![digit_char(a), digit_char(b), digit_char(c)];
    let p2 = seq![digit_char(a), digit_char(b)];
    let p1 = seq![digit_char(a)];
    let p0 = Seq::<char>::empty();
    assert(p.drop_last() =~= p3);
    assert(p3.drop_last() =~= p2);
    assert(p2.drop_last() =~= p1);
    assert(p1.drop_last() =~= p0);
    assert(digits_value(p0) == 0);
    assert(digits_value(p1) == a);
    assert(digits_value(p2) == a * 10 + b);
    assert(digits_value(p3) == (a * 10 + b) * 10 + c);
    assert(utf8_len(p0) == 0);
    assert(utf8_len(p1) == 1);
    assert(utf8_len(p2) == 2);
    assert(utf8_len(p3) == 3);
    assert(all_digits(p)) by {
        assert forall|i: int| 0 <= i < p.len() implies is_digit(#[trigger] p[i]) by {
        }
    }
}

proof fn lemma_split_four(n: nat)
    requires
        n < 10000,
    ensures
        0 <= n / 1000 < 10,
        n == (n / 1000) * 1000 + (n / 100 % 10) * 100 + (n / 10 % 10) * 10 + n % 10,
{
    assert(n / 100 == (n / 1000) * 10 + n / 100 % 10);
    assert(n / 10 == (n / 100) * 10 + n / 10 % 10);
    assert(n == (n / 10) * 10 + n % 10);
}

/// An amount written with an optional minus, its whole units in decimal, a
/// `.` and four digits of ten-thousandths reads as exactly that value, when
/// the value before the minus fits in an `i64`.
#[verifier::rlimit(30)]
pub proof fn parse_reads_four_decimals(negative: bool, w: nat, n: nat)
    requires
        n < 10000,
        w * 10000 + n <= i64::MAX,
    ensures
        ({
            let sign = if negative {
                seq!['-']
            } else {
                Seq::<char>::empty()
            };
            let text = sign + decimal(w) + seq!['.'] + four_digits(n);
            let value = w * 10000 + n;
            amount_text_value(text) == Some(
                if negative {
                    -value
                } else {
                    value as int
                },
            )
        }),
{
    let sign = if negative {
        seq!['-']
    } else {
        Seq::<char>::empty()
    };
    let d = decimal(w);
    let f = four_digits(n);
    let head = sign + d;
    let t = head + seq!['.'] + f;
    assert(t =~= head + seq!['.'] + f);
    lemma_decimal(w);
    let (a, b, c, e) = ((n / 1000) as int, (n / 100 % 10) as int, (n / 10 % 10) as int, (n % 10) as int);
    lemma_digits4(a, b, c, e);
    lemma_digit_char(e);
    lemma_split_four(n);
    let i = head.len() as int;
    assert(!is_white_space(t[0])) by {
        if !negative {
            assert(t[0] == d[0]);
        }
    }
    assert(trim_start(t) == t);
    assert(t.last() == f[3]);
    assert(trim_end(t) == t);
    assert(trim(t) == t);
    assert forall|k: int| 0 <= k < i implies t[k] != '.' by {
        if negative && k == 0 {
        } else {
            let j = if negative { k - 1 } else { k };
            assert(t[k] == d[j]);
        }
    }
    assert(t[i] == '.');
    lemma_dot_index_found(t, i);
    assert(whole_text(t) =~= head);
    assert(frac_text(t) =~= f);
    assert(is_negative_text(head) == negative) by {
        if !negative {
            assert(head[0] == d[0]);
        }
    }
    assert(whole_digits(head) =~= d);
    assert(w <= 922337203685477);
    assert(parse_i64(d) == Some(w as int));
    assert(whole_value(head) == Some(w as int));
    assert(pad_fraction(f) =~= f);
    assert(f[0] != '-' && f[0] != '+');
    assert(parse_i64(f) == Some(n as int));
    assert(frac_value(f) == Some(n as int));
}

/// A text of nothing but white space is refused as empty, and only as that.
pub proof fn parse_refuses_blank(s: Seq<char>, r: Result<Amount, ParseAmountError>)
    requires
        forall|k: int| 0 <= k < s.len() ==> is_white_space(#[trigger] s[k]),
    ensures
        parse_outcome(s, r) <==> r == Err::<Amount, ParseAmountError>(ParseAmountError::Empty),
{
    crate::text::trim_strips_surrounding_white_space(s);
    if trim(s).len() > 0 {
        let (i, j) = choose|i: int, j: int|
            {
                &&& 0 <= i <= j <= s.len()
                &&& trim(s) == s.subrange(i, j)
                &&& forall|k: int| 0 <= k < i ==> is_white_space(#[trigger] s[k])
                &&& forall|k: int| j <= k < s.len() ==> is_white_space(#[trigger] s[k])
            };
        assert(trim(s)[0] == s[i]);
    }
}

/// A whole number followed by a `.` and more than four digits is refused for
/// too many decimals, and only for that.
pub proof fn parse_refuses_long_fractions(w: nat, f: Seq<char>, r: Result<Amount, ParseAmountError>)
    requires
        w <= 922337203685477,
        all_digits(f),
        f.len() > 4,
    ensures
        parse_outcome(decimal(w) + seq!['.'] + f, r) <==> r == Err::<Amount, ParseAmountError>(
            ParseAmountError::TooManyDecimals,
        ),
{
    let d = decimal(w);
    let t = d + seq!['.'] + f;
    lemma_decimal(w);
    let i = d.len() as int;
    assert(t[0] == d[0]);
    assert(trim_start(t) == t);
    assert(t.last() == f.last());
    assert(is_digit(f[f.len() - 1]));
    assert(!is_white_space(f.last()));
    assert(trim_end(t) == t);
    assert(trim(t) == t);
    assert forall|k: int| 0 <= k < i implies t[k] != '.' by {
        assert(t[k] == d[k]);
    }
    assert(t[i] == '.');
    lemma_dot_index_found(t, i);
    assert(whole_text(t) =~= d);
    assert(frac_text(t) =~= f);
    assert(!is_negative_text(d));
    assert(whole_digits(d) =~= d);
    assert(parse_i64(d) == Some(w as int));
    lemma_utf8_len_at_least_len(f);
    assert(amount_text_too_precise(t));
    assert(amount_text_value(t) is None);
    assert(!amount_text_empty(t));
}

impl core::str::FromStr for Amount {
    type Err = ParseAmountError;

    fn from_str(s: &str) -> (r: Result<Amount, ParseAmountError>)
        ensures
            parse_outcome(s@, r),
    {
        Amount::parse(s)
    }
}

} // verus!
