use vstd::prelude::*;
use vstd::string::*;

verus! {

/// The unit in which a temperature is shown.
#[derive(Clone, Copy, Debug, PartialEq, Eq, Structural)]
pub enum TemperatureFormat {
    Celsius,
    Fahrenheit,
    Kelvin,
}

/// `n / d` rounded to the nearest integer, halves away from zero.
pub open spec fn round_div(n: int, d: int) -> int
    recommends
        d > 0,
{
    if n >= 0 {
        (2 * n + d) / (2 * d)
    } else {
        -((-2 * n + d) / (2 * d))
    }
}

/// 273.15 K, the freezing point of water, in hundredths of a kelvin.
pub const ZERO_CELSIUS_CENTI: i64 = 27315;

/// The shown value, in hundredths of the unit, for a temperature of
/// `kelvin` hundredths of a kelvin. Celsius and Fahrenheit are rounded to
/// whole degrees; Kelvin is kept as it is.
pub open spec fn converted(kelvin: int, format: TemperatureFormat) -> int {
    match format {
        TemperatureFormat::Celsius => round_div(kelvin - 27315, 100) * 100,
        TemperatureFormat::Fahrenheit => round_div((kelvin - 27315) * 9 + 16000, 500) * 100,
        TemperatureFormat::Kelvin => kelvin,
    }
}

/// The suffix written after a value in the given unit.
pub open spec fn unit_suffix(format: TemperatureFormat) -> Seq<char> {
    match format {
        TemperatureFormat::Celsius => "°C"@,
        TemperatureFormat::Fahrenheit => "°F"@,
        TemperatureFormat::Kelvin => "K"@,
    }
}

fn round_div_exec(n: i64, d: i64) -> (r: i64)
    requires
        0 < d <= 1000,
        -0x1000_0000_0000 <= n <= 0x1000_0000_0000,
    ensures
        r == round_div(n as int, d as int),
        -0x4000_0000_0000 <= r <= 0x4000_0000_0000,
{
    if n >= 0 {
        let t: i64 = 2 * n + d;
        proof {
            assert((t as int) / (2 * (d as int)) <= t as int) by (nonlinear_arith)
                requires t >= 0, d > 0;
        }
        t / (2 * d)
    } else {
        let t: i64 = d - 2 * n;
        proof {
            assert((t as int) / (2 * (d as int)) <= t as int) by (nonlinear_arith)
                requires t >= 0, d > 0;
            assert((t as int) / (2 * (d as int)) >= 0) by (nonlinear_arith)
                requires t >= 0, d > 0;
        }
        -(t / (2 * d))
    }
}

/// Converts `kelvin` (in hundredths of a kelvin) to the given unit.
/// Returns the value in hundredths of that unit, and the unit's suffix.
pub fn convert_temperature(kelvin: i32, format: TemperatureFormat) -> (r: (i64, String))
    ensures
        r.0 == converted(kelvin as int, format),
        r.1@ == unit_suffix(format),
        -0x40_0000_0000_0000 <= r.0 <= 0x40_0000_0000_0000,
{
    let k = kelvin as i64;
    match format {
        TemperatureFormat::Celsius => {
            let degrees = round_div_exec(k - ZERO_CELSIUS_CENTI, 100);
            (degrees * 100, String::from_str("°C"))
        },
        TemperatureFormat::Fahrenheit => {
            let degrees = round_div_exec((k - ZERO_CELSIUS_CENTI) * 9 + 16000, 500);
            (degrees * 100, String::from_str("°F"))
        },
        TemperatureFormat::Kelvin => (k, String::from_str("K")),
    }
}

/// The decimal digits of `n`, most significant first, without leading zeros.
pub open spec fn decimal(n: nat) -> Seq<char>
    decreases n,
{
    if n < 10 {
        seq![(('0' as u8) + n) as char]
    } else {
        decimal(n / 10) + seq![(('0' as u8) + n % 10) as char]
    }
}

/// Relies on `u64`'s `ToString`: the decimal digits, no sign, no padding.
#[verifier::external_body]
fn decimal_text(n: u64) -> (r: String)
    ensures
        r@ == decimal(n as nat),
{
    n.to_string()
}

/// A value given in hundredths, written as a decimal number with the
/// fewest digits: no fraction when it is whole, else one or two digits.
pub open spec fn hundredths_text(v: int) -> Seq<char> {
    let a = if v < 0 { -v } else { v };
    let sign = if v < 0 { "-"@ } else { Seq::<char>::empty() };
    let whole = decimal((a / 100) as nat);
    let frac = a % 100;
    let tail = if frac == 0 {
        Seq::<char>::empty()
    } else if frac % 10 == 0 {
        "."@ + decimal((frac / 10) as nat)
    } else if frac < 10 {
        ".0"@ + decimal(frac as nat)
    } else {
        "."@ + decimal(frac as nat)
    };
    sign + whole + tail
}

/// Writes a value given in hundredths as a decimal number
/// (`2200` is `22`, `29515` is `295.15`, `-50` is `-0.5`).
pub fn format_hundredths(v: i64) -> (r: String)
    requires
        v > i64::MIN,
    ensures
        r@ == hundredths_text(v as int),
{
    let a: u64 = if v < 0 { (-v) as u64 } else { v as u64 };
    let mut out = if v < 0 { String::from_str("-") } else { String::new() };
    let whole = decimal_text(a / 100);
    out.append(whole.as_str());
    let frac = a % 100;
    if frac != 0 {
        if frac % 10 == 0 {
            out.append(".");
            let d = decimal_text(frac / 10);
            out.append(d.as_str());
        } else if frac < 10 {
            out.append(".0");
            let d = decimal_text(frac);
            out.append(d.as_str());
        } else {
            out.append(".");
            let d = decimal_text(frac);
            out.append(d.as_str());
        }
    }
    proof {
        reveal_strlit("-");
        reveal_strlit(".");
        reveal_strlit(".0");
    }
    assert(out@ =~= hundredths_text(v as int));
    out
}

/// What `char::is_whitespace` answers for a character.
pub uninterp spec fn is_space(c: char) -> bool;

/// What `char::to_uppercase` yields for a character.
pub uninterp spec fn uppercase_of(c: char) -> Seq<char>;

/// Relies on `char::is_whitespace`: whether `c` has Unicode's White_Space
/// property, which depends on `c` alone.
#[verifier::external_body]
fn char_is_space(c: char) -> (r: bool)
    ensures
        r == is_space(c),
{
    c.is_whitespace()
}

/// Relies on `char::to_uppercase`: the characters of `c` in upper case,
/// which depend on `c` alone.
#[verifier::external_body]
fn char_uppercase(c: char) -> (r: String)
    ensures
        r@ == uppercase_of(c),
{
    c.to_uppercase().collect()
}

/// The words of `s`: its maximal runs of non-whitespace characters, in order.
pub open spec fn words(s: Seq<char>) -> Seq<Seq<char>>
    decreases s.len(),
{
    if s.len() == 0 {
        Seq::empty()
    } else {
        let p = words(s.drop_last());
        let c = s.last();
        if is_space(c) {
            p
        } else if s.len() > 1 && !is_space(s[s.len() - 2]) {
            p.update(p.len() - 1, p.last().push(c))
        } else {
            p.push(seq![c])
        }
    }
}

/// A word with its first character in upper case and the rest as it was.
pub open spec fn capitalized(w: Seq<char>) -> Seq<char> {
    if w.len() == 0 {
        w
    } else {
        uppercase_of(w[0]) + w.drop_first()
    }
}

/// The words joined with one space between each two.
pub open spec fn joined(ws: Seq<Seq<char>>) -> Seq<char>
    decreases ws.len(),
{
    if ws.len() == 0 {
        Seq::empty()
    } else if ws.len() == 1 {
        ws[0]
    } else {
        joined(ws.drop_last()) + seq![' '] + ws.last()
    }
}

/// The words of `s`, each capitalized, joined by single spaces.
pub open spec fn titlecase(s: Seq<char>) -> Seq<char> {
    joined(words(s).map_values(|w: Seq<char>| capitalized(w)))
}

/// The spans `[start, end)` of `s` match its words, one for one.
pub open spec fn spans_match(s: Seq<char>, spans: Seq<(usize, usize)>, ws: Seq<Seq<char>>) -> bool {
    &&& spans.len() == ws.len()
    &&& forall|j: int| 0 <= j < spans.len() ==> #[trigger] spans[j].0 < spans[j].1 <= s.len()
    &&& forall|j: int|
        0 <= j < spans.len() ==> #[trigger] ws[j] == s.subrange(spans[j].0 as int, spans[j].1 as int)
}

/// Finds where the words of `input` start and end.
fn word_spans(input: &str) -> (spans: Vec<(usize, usize)>)
    ensures
        spans_match(input@, spans@, words(input@)),
{
    let ghost s = input@;
    let n = input.unicode_len();
    let mut spans: Vec<(usize, usize)> = Vec::new();
    let mut i: usize = 0;
    let mut prev_space = true;
    while i < n
        invariant
            n == s.len(),
            s == input@,
            i <= n,
            spans_match(s, spans@, words(s.take(i as int))),
            prev_space == (i == 0 || is_space(s[i - 1])),
            !prev_space ==> spans@.len() > 0 && spans@.last().1 == i,
        decreases n - i,
    {
        let c = input.get_char(i);
        let sp = char_is_space(c);
        let ghost t = s.take(i as int + 1);
        assert(t.drop_last() =~= s.take(i as int));
        assert(t.last() == c);
        if sp {
            assert(words(t) == words(s.take(i as int)));
        } else if !prev_space {
            let last = spans.len() - 1;
            let start = spans[last].0;
            let ghost p = words(s.take(i as int));
            assert(p[last as int] == s.subrange(start as int, i as int));
            let ghost before = spans@;
            spans.set(last, (start, i + 1));
            assert(s.subrange(start as int, i + 1) =~= s.subrange(start as int, i as int).push(c));
            assert(t[t.len() - 2] == s[i - 1]);
            assert(words(t) == p.update(last as int, p.last().push(c)));
            assert forall|j: int| 0 <= j < spans@.len() implies #[trigger] words(t)[j] == s.subrange(
                spans@[j].0 as int,
                spans@[j].1 as int,
            ) by {
                if j < last {
                    assert(p[j] == s.subrange(before[j].0 as int, before[j].1 as int));
                }
            }
        } else {
            let ghost p = words(s.take(i as int));
            let ghost before = spans@;
            spans.push((i, i + 1));
            assert(s.subrange(i as int, i + 1) =~= seq![c]);
            assert(words(t) == p.push(seq![c]));
            assert forall|j: int| 0 <= j < spans@.len() implies #[trigger] words(t)[j] == s.subrange(
                spans@[j].0 as int,
                spans@[j].1 as int,
            ) by {
                if j < before.len() {
                    assert(p[j] == s.subrange(before[j].0 as int, before[j].1 as int));
                }
            }
        }
        prev_space = sp;
        i = i + 1;
    }
    assert(s.take(n as int) =~= s);
    spans
}

/// Writes each word of `input` with its first character in upper case and
/// the rest unchanged, one space between words (`"scattered clouds"` is
/// `"Scattered Clouds"`).
pub fn to_titlecase(input: &str) -> (r: String)
    ensures
        r@ == titlecase(input@),
{
    let spans = word_spans(input);
    let ghost ws = words(input@);
    let ghost caps = ws.map_values(|w: Seq<char>| capitalized(w));
    let mut out = String::new();
    let mut j: usize = 0;
    while j < spans.len()
        invariant
            spans_match(input@, spans@, ws),
            caps == ws.map_values(|w: Seq<char>| capitalized(w)),
            j <= spans@.len(),
            out@ == joined(caps.take(j as int)),
        decreases spans@.len() - j,
    {
        let (start, end) = spans[j];
        assert(ws[j as int] == input@.subrange(start as int, end as int));
        if j > 0 {
            out.append(" ");
        }
        let first = input.get_char(start);
        let up = char_uppercase(first);
        out.append(up.as_str());
        let rest = input.substring_char(start + 1, end);
        out.append(rest);
        proof {
            reveal_strlit(" ");
            let w = input@.subrange(start as int, end as int);
            assert(w.drop_first() =~= rest@);
            assert(caps.take(j + 1).drop_last() =~= caps.take(j as int));
            assert(caps.take(j + 1).last() == capitalized(w));
        }
        j = j + 1;
    }
    assert(caps.take(spans@.len() as int) =~= caps);
    out
}

} // verus!
