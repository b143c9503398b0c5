//! Canonical text of a reading: the exact characters that are hashed
//! into its fingerprint.

use vstd::prelude::*;
use vstd::string::*;
use crate::db::{Measurement, SensorReading, Sign};

verus! {

/// The character of a decimal digit.
pub open spec fn digit_char(d: int) -> char {
    if d == 0 {
        '0'
    } else if d == 1 {
        '1'
    } else if d == 2 {
        '2'
    } else if d == 3 {
        '3'
    } else if d == 4 {
        '4'
    } else if d == 5 {
        '5'
    } else if d == 6 {
        '6'
    } else if d == 7 {
        '7'
    } else if d == 8 {
        '8'
    } else {
        '9'
    }
}

/// Whether a character is a decimal digit.
pub open spec fn is_digit(c: char) -> bool {
    '0' <= c && c <= '9'
}

/// Whether a text is free of the field delimiter `|`.
pub open spec fn free_of_delimiter(s: Seq<char>) -> bool {
    forall|i: int| 0 <= i < s.len() ==> s[i] != '|'
}

/// Decimal numeral of a natural number, without leading zeros.
pub open spec fn decimal(n: nat) -> Seq<char>
    decreases n,
{
    if n < 10 {
        seq![digit_char(n as int)]
    } else {
        decimal(n / 10).push(digit_char((n % 10) as int))
    }
}

/// Decimal numeral of an integer: a minus sign for negative values,
/// then the numeral of the magnitude.
pub open spec fn signed_decimal(i: int) -> Seq<char> {
    if i < 0 {
        seq!['-'] + decimal((-i) as nat)
    } else {
        decimal(i as nat)
    }
}

/// A measurement written with exactly two fractional digits: a minus
/// sign unless the value is zero or above, the whole part, a point,
/// tenths and hundredths.
pub open spec fn two_decimals(m: Measurement) -> Seq<char> {
    signed_part(m) + seq![
        '.',
        digit_char(((m.hundredths / 10) % 10) as int),
        digit_char((m.hundredths % 10) as int),
    ]
}

/// Sign and whole part of a measurement.
pub open spec fn signed_part(m: Measurement) -> Seq<char> {
    if m.written_minus() {
        seq!['-'] + decimal((m.hundredths / 100) as nat)
    } else {
        decimal((m.hundredths / 100) as nat)
    }
}

/// The canonical text of a reading: tagged fields in a fixed order,
/// joined by `|`. The timestamp enters with its whole seconds only.
pub open spec fn canonical_text(r: SensorReading) -> Seq<char> {
    "sensor:"@ + signed_decimal(r.sensor_id as int) + "|ts:"@ + signed_decimal(
        r.timestamp.secs as int,
    ) + "|co2:"@ + two_decimals(r.co2) + "|temp:"@ + two_decimals(r.temperature)
}

/// The one-character string of a decimal digit.
fn digit_text(d: u64) -> (s: &'static str)
    requires
        d <= 9,
    ensures
        s@ == seq![digit_char(d as int)],
{
    proof {
        reveal_strlit("0");
        reveal_strlit("1");
        reveal_strlit("2");
        reveal_strlit("3");
        reveal_strlit("4");
        reveal_strlit("5");
        reveal_strlit("6");
        reveal_strlit("7");
        reveal_strlit("8");
        reveal_strlit("9");
    }
    let s = if d == 0 {
        "0"
    } else if d == 1 {
        "1"
    } else if d == 2 {
        "2"
    } else if d == 3 {
        "3"
    } else if d == 4 {
        "4"
    } else if d == 5 {
        "5"
    } else if d == 6 {
        "6"
    } else if d == 7 {
        "7"
    } else if d == 8 {
        "8"
    } else {
        "9"
    };
    assert(s@ =~= seq![digit_char(d as int)]);
    s
}

/// Appends the decimal numeral of `n`.
fn push_decimal(out: &mut String, n: u64)
    ensures
        final(out)@ == old(out)@ + decimal(n as nat),
    decreases n,
{
    if n >= 10 {
        push_decimal(out, n / 10);
    }
    out.append(digit_text(n % 10));
    assert(final(out)@ =~= old(out)@ + decimal(n as nat));
}

/// The magnitude of a signed value.
fn magnitude(v: i64) -> (m: u64)
    ensures
        m == if v < 0 {
            -v
        } else {
            v as int
        },
{
    if v >= 0 {
        v as u64
    } else {
        (-(v + 1)) as u64 + 1
    }
}

/// Appends the decimal numeral of a signed value.
fn push_signed(out: &mut String, v: i64)
    ensures
        final(out)@ == old(out)@ + signed_decimal(v as int),
{
    if v < 0 {
        out.append("-");
        proof {
            reveal_strlit("-");
        }
    }
    push_decimal(out, magnitude(v));
    assert(final(out)@ =~= old(out)@ + signed_decimal(v as int));
}

/// Appends a measurement with two fractional digits.
fn push_two_decimals(out: &mut String, m: Measurement)
    ensures
        final(out)@ == old(out)@ + two_decimals(m),
{
    match m.sign {
        Sign::Plus => {},
        _ => {
            out.append("-");
        },
    }
    push_decimal(out, m.hundredths / 100);
    out.append(".");
    out.append(digit_text((m.hundredths / 10) % 10));
    out.append(digit_text(m.hundredths % 10));
    proof {
        reveal_strlit("-");
        reveal_strlit(".");
        assert(final(out)@ =~= old(out)@ + two_decimals(m));
    }
}

/// Writes the canonical text of a reading.
pub fn canonical_encoding(reading: &SensorReading) -> (text: String)
    ensures
        text@ == canonical_text(*reading),
{
    let mut text = String::from_str("sensor:");
    push_signed(&mut text, reading.sensor_id as i64);
    text.append("|ts:");
    push_signed(&mut text, reading.timestamp.secs);
    text.append("|co2:");
    push_two_decimals(&mut text, reading.co2);
    text.append("|temp:");
    push_two_decimals(&mut text, reading.temperature);
    assert(text@ =~= canonical_text(*reading));
    text
}

/// Digits are told apart by their characters.
proof fn lemma_digit_chars(d: int, e: int)
    requires
        0 <= d <= 9,
        0 <= e <= 9,
    ensures
        is_digit(digit_char(d)),
        digit_char(d) == digit_char(e) ==> d == e,
{
}

/// A decimal numeral is made of digits: at least one, and at least two
/// from ten on.
proof fn lemma_decimal_shape(n: nat)
    ensures
        decimal(n).len() >= 1,
        n >= 10 ==> decimal(n).len() >= 2,
        forall|i: int| 0 <= i < decimal(n).len() ==> is_digit(#[trigger] decimal(n)[i]),
    decreases n,
{
    if n < 10 {
        lemma_digit_chars(n as int, 0);
    } else {
        lemma_decimal_shape(n / 10);
        lemma_digit_chars((n % 10) as int, 0);
    }
}

/// Two numbers with the same decimal numeral are the same number.
proof fn lemma_decimal_is_injective(n: nat, m: nat)
    requires
        decimal(n) == decimal(m),
    ensures
        n == m,
    decreases n,
{
    lemma_decimal_shape(n);
    lemma_decimal_shape(m);
    if n < 10 {
        assert(decimal(n)[0] == digit_char(n as int));
        assert(decimal(m)[0] == digit_char(m as int));
        lemma_digit_chars(n as int, m as int);
    } else {
        let front_n = decimal(n / 10);
        let front_m = decimal(m / 10);
        let last_n = digit_char((n % 10) as int);
        let last_m = digit_char((m % 10) as int);
        assert(front_n.push(last_n) == front_m.push(last_m));
        assert(front_n.push(last_n).last() == last_n);
        assert(front_m.push(last_m).last() == last_m);
        assert(front_n.push(last_n).drop_last() =~= front_n);
        assert(front_m.push(last_m).drop_last() =~= front_m);
        lemma_digit_chars((n % 10) as int, (m % 10) as int);
        lemma_decimal_is_injective(n / 10, m / 10);
    }
}

/// What follows a common prefix is the same when the wholes are.
proof fn lemma_strip_prefix(prefix: Seq<char>, u: Seq<char>, v: Seq<char>)
    requires
        prefix + u == prefix + v,
    ensures
        u == v,
{
    assert(u =~= (prefix + u).subrange(prefix.len() as int, (prefix + u).len() as int));
    assert(v =~= (prefix + v).subrange(prefix.len() as int, (prefix + v).len() as int));
}

/// A field that is free of the delimiter ends where the first delimiter
/// stands: two texts that agree agree on the field and on what follows it.
proof fn lemma_split_at_delimiter(x: Seq<char>, r: Seq<char>, y: Seq<char>, q: Seq<char>)
    requires
        free_of_delimiter(x),
        free_of_delimiter(y),
        x + seq!['|'] + r == y + seq!['|'] + q,
    ensures
        x == y,
        r == q,
{
    let left = x + seq!['|'] + r;
    let right = y + seq!['|'] + q;
    assert(left[x.len() as int] == '|');
    assert(right[y.len() as int] == '|');
    if x.len() < y.len() {
        assert(right[x.len() as int] == y[x.len() as int]);
    }
    if y.len() < x.len() {
        assert(left[y.len() as int] == x[y.len() as int]);
    }
    assert(x =~= left.subrange(0, x.len() as int));
    assert(y =~= right.subrange(0, y.len() as int));
    assert(r =~= left.subrange(x.len() as int + 1, left.len() as int));
    assert(q =~= right.subrange(y.len() as int + 1, right.len() as int));
}

/// A signed numeral is free of the delimiter, and two integers with the
/// same numeral are the same integer.
proof fn lemma_signed_decimal(i: int, j: int)
    ensures
        free_of_delimiter(signed_decimal(i)),
        signed_decimal(i) == signed_decimal(j) ==> i == j,
{
    let mi: nat = if i < 0 {
        (-i) as nat
    } else {
        i as nat
    };
    let mj: nat = if j < 0 {
        (-j) as nat
    } else {
        j as nat
    };
    lemma_decimal_shape(mi);
    lemma_decimal_shape(mj);
    assert(free_of_delimiter(signed_decimal(i))) by {
        assert forall|k: int| 0 <= k < signed_decimal(i).len() implies signed_decimal(i)[k]
            != '|' by {
            if i < 0 && k > 0 {
                assert(signed_decimal(i)[k] == decimal(mi)[k - 1]);
            }
        }
    }
    if signed_decimal(i) == signed_decimal(j) {
        if i < 0 {
            assert(signed_decimal(i)[0] == '-');
            if j >= 0 {
                assert(is_digit(decimal(mj)[0]));
            } else {
                lemma_strip_prefix(seq!['-'], decimal(mi), decimal(mj));
                lemma_decimal_is_injective(mi, mj);
            }
        } else {
            assert(is_digit(decimal(mi)[0]));
            if j < 0 {
                assert(signed_decimal(j)[0] == '-');
            } else {
                lemma_decimal_is_injective(mi, mj);
            }
        }
    }
}

/// A measurement written with two decimals is free of the delimiter,
/// and two measurements that are written alike have the same sign
/// character and the same hundredths.
proof fn lemma_two_decimals(h: Measurement, k: Measurement)
    ensures
        free_of_delimiter(two_decimals(h)),
        two_decimals(h) == two_decimals(k) ==> h.written() == k.written(),
{
    let mh: nat = h.hundredths as nat;
    let mk: nat = k.hundredths as nat;
    let whole_h = signed_part(h);
    let whole_k = signed_part(k);
    let frac_h = seq!['.', digit_char(((mh / 10) % 10) as int), digit_char((mh % 10) as int)];
    let frac_k = seq!['.', digit_char(((mk / 10) % 10) as int), digit_char((mk % 10) as int)];
    lemma_decimal_shape(mh / 100);
    lemma_decimal_shape(mk / 100);
    lemma_digit_chars(((mh / 10) % 10) as int, ((mk / 10) % 10) as int);
    lemma_digit_chars((mh % 10) as int, (mk % 10) as int);
    let th = two_decimals(h);
    let tk = two_decimals(k);
    assert(th =~= whole_h + frac_h);
    assert(tk =~= whole_k + frac_k);
    assert(free_of_delimiter(th)) by {
        assert forall|i: int| 0 <= i < th.len() implies th[i] != '|' by {
            if i < whole_h.len() {
                assert(th[i] == whole_h[i]);
                if h.written_minus() && i > 0 {
                    assert(whole_h[i] == decimal(mh / 100)[i - 1]);
                }
            } else {
                assert(th[i] == frac_h[i - whole_h.len()]);
            }
        }
    }
    if th == tk {
        assert(whole_h.len() == whole_k.len());
        let n = whole_h.len() as int;
        assert(whole_h =~= th.subrange(0, n));
        assert(whole_k =~= tk.subrange(0, n));
        assert(th[n + 1] == frac_h[1] && tk[n + 1] == frac_k[1]);
        assert(th[n + 2] == frac_h[2] && tk[n + 2] == frac_k[2]);
        assert((mh / 10) % 10 == (mk / 10) % 10);
        assert(mh % 10 == mk % 10);
        if h.written_minus() {
            assert(whole_h[0] == '-');
            if !k.written_minus() {
                assert(is_digit(decimal(mk / 100)[0]));
                assert(whole_k[0] == decimal(mk / 100)[0]);
            } else {
                lemma_strip_prefix(seq!['-'], decimal(mh / 100), decimal(mk / 100));
            }
        } else {
            assert(whole_h[0] == decimal(mh / 100)[0]);
            assert(is_digit(decimal(mh / 100)[0]));
            if k.written_minus() {
                assert(whole_k[0] == '-');
            }
        }
        lemma_decimal_is_injective(mh / 100, mk / 100);
        assert(mh == mk);
    }
}

/// The canonical text with its delimiters set apart: each field but the
/// last is followed by one `|`.
spec fn delimited_text(r: SensorReading) -> Seq<char> {
    seq!['s', 'e', 'n', 's', 'o', 'r', ':'] + (signed_decimal(r.sensor_id as int) + seq!['|'] + (
    seq!['t', 's', ':'] + (signed_decimal(r.timestamp.secs as int) + seq!['|'] + (seq![
        'c',
        'o',
        '2',
        ':',
    ] + (two_decimals(r.co2) + seq!['|'] + (seq!['t', 'e', 'm', 'p', ':'] + two_decimals(
        r.temperature,
    )))))))
}

/// The canonical text is the text with its delimiters set apart.
proof fn lemma_delimited_text(r: SensorReading)
    ensures
        canonical_text(r) == delimited_text(r),
{
    reveal_strlit("sensor:");
    reveal_strlit("|ts:");
    reveal_strlit("|co2:");
    reveal_strlit("|temp:");
    assert("sensor:"@ =~= seq!['s', 'e', 'n', 's', 'o', 'r', ':']);
    assert("|ts:"@ =~= seq!['|'] + seq!['t', 's', ':']);
    assert("|co2:"@ =~= seq!['|'] + seq!['c', 'o', '2', ':']);
    assert("|temp:"@ =~= seq!['|'] + seq!['t', 'e', 'm', 'p', ':']);
    assert(canonical_text(r) =~= delimited_text(r));
}

/// The canonical text determines the reading's sensor and whole second,
/// and the sign character and hundredths of its CO2 and temperature: two
/// readings that are encoded alike agree on all of them. So a change in
/// any of them changes the text that is hashed.
pub proof fn lemma_canonical_text_is_injective(a: SensorReading, b: SensorReading)
    requires
        canonical_text(a) == canonical_text(b),
    ensures
        a.sensor_id == b.sensor_id,
        a.timestamp.secs == b.timestamp.secs,
        a.co2.written() == b.co2.written(),
        a.temperature.written() == b.temperature.written(),
{
    lemma_delimited_text(a);
    lemma_delimited_text(b);
    lemma_signed_decimal(a.sensor_id as int, b.sensor_id as int);
    lemma_signed_decimal(b.sensor_id as int, a.sensor_id as int);
    lemma_signed_decimal(a.timestamp.secs as int, b.timestamp.secs as int);
    lemma_signed_decimal(b.timestamp.secs as int, a.timestamp.secs as int);
    lemma_two_decimals(a.co2, b.co2);
    lemma_two_decimals(b.co2, a.co2);
    lemma_two_decimals(a.temperature, b.temperature);
    let temp_a = seq!['t', 'e', 'm', 'p', ':'] + two_decimals(a.temperature);
    let temp_b = seq!['t', 'e', 'm', 'p', ':'] + two_decimals(b.temperature);
    let co2_a = seq!['c', 'o', '2', ':'] + (two_decimals(a.co2) + seq!['|'] + temp_a);
    let co2_b = seq!['c', 'o', '2', ':'] + (two_decimals(b.co2) + seq!['|'] + temp_b);
    let ts_a = seq!['t', 's', ':'] + (signed_decimal(a.timestamp.secs as int) + seq!['|'] + co2_a);
    let ts_b = seq!['t', 's', ':'] + (signed_decimal(b.timestamp.secs as int) + seq!['|'] + co2_b);
    lemma_strip_prefix(
        seq!['s', 'e', 'n', 's', 'o', 'r', ':'],
        signed_decimal(a.sensor_id as int) + seq!['|'] + ts_a,
        signed_decimal(b.sensor_id as int) + seq!['|'] + ts_b,
    );
    lemma_split_at_delimiter(
        signed_decimal(a.sensor_id as int),
        ts_a,
        signed_decimal(b.sensor_id as int),
        ts_b,
    );
    lemma_strip_prefix(
        seq!['t', 's', ':'],
        signed_decimal(a.timestamp.secs as int) + seq!['|'] + co2_a,
        signed_decimal(b.timestamp.secs as int) + seq!['|'] + co2_b,
    );
    lemma_split_at_delimiter(
        signed_decimal(a.timestamp.secs as int),
        co2_a,
        signed_decimal(b.timestamp.secs as int),
        co2_b,
    );
    lemma_strip_prefix(
        seq!['c', 'o', '2', ':'],
        two_decimals(a.co2) + seq!['|'] + temp_a,
        two_decimals(b.co2) + seq!['|'] + temp_b,
    );
    lemma_split_at_delimiter(
        two_decimals(a.co2),
        temp_a,
        two_decimals(b.co2),
        temp_b,
    );
    lemma_strip_prefix(
        seq!['t', 'e', 'm', 'p', ':'],
        two_decimals(a.temperature),
        two_decimals(b.temperature),
    );
}

} // verus!
