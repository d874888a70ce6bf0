use vstd::prelude::*;

verus! {

/// Unicode `White_Space` characters, the ones `str::trim` strips.
pub open spec fn is_white_space(c: char) -> bool {
    ||| ('\t' <= c && c <= '\r')
    ||| c == ' '
    ||| c == '\u{85}'
    ||| c == '\u{a0}'
    ||| c == '\u{1680}'
    ||| ('\u{2000}' <= c && c <= '\u{200a}')
    ||| c == '\u{2028}'
    ||| c == '\u{2029}'
    ||| c == '\u{202f}'
    ||| c == '\u{205f}'
    ||| c == '\u{3000}'
}

/// `s` without its leading white space.
pub open spec fn trim_start(s: Seq<char>) -> Seq<char>
    decreases s.len(),
{
    if s.len() > 0 && is_white_space(s[0]) {
        trim_start(s.drop_first())
    } else {
        s
    }
}

/// `s` without its trailing white space.
pub open spec fn trim_end(s: Seq<char>) -> Seq<char>
    decreases s.len(),
{
    if s.len() > 0 && is_white_space(s.last()) {
        trim_end(s.drop_last())
    } else {
        s
    }
}

/// `s` without white space at either end.
pub open spec fn trim(s: Seq<char>) -> Seq<char> {
    trim_end(trim_start(s))
}

/// True when `c` is one of `0` to `9`.
pub open spec fn is_digit(c: char) -> bool {
    '0' <= c && c <= '9'
}

/// The value of the decimal digit `c`.
pub open spec fn digit_value(c: char) -> nat {
    ((c as int) - ('0' as int)) as nat
}

/// True when every character of `d` is a decimal digit.
pub open spec fn all_digits(d: Seq<char>) -> bool {
    forall|i: int| 0 <= i < d.len() ==> is_digit(#[trigger] d[i])
}

/// The number the decimal digits `d` spell (most significant first).
pub open spec fn digits_value(d: Seq<char>) -> nat
    decreases d.len(),
{
    if d.len() == 0 {
        0
    } else {
        digits_value(d.drop_last()) * 10 + digit_value(d.last())
    }
}

/// `t` without a leading `+`.
pub open spec fn unsigned_part(t: Seq<char>) -> Seq<char> {
    if t.len() > 0 && t[0] == '+' {
        t.drop_first()
    } else {
        t
    }
}

/// The 16-bit unsigned number that `t` writes in decimal, with an optional
/// leading `+`; `None` when `t` is anything else or the number exceeds 65535.
pub open spec fn decimal_u16(t: Seq<char>) -> Option<u16> {
    let d = unsigned_part(t);
    if d.len() > 0 && all_digits(d) && digits_value(d) <= 65535 {
        Some(digits_value(d) as u16)
    } else {
        None
    }
}

/// The broker port written in `text`, read as `text.trim().parse::<u16>()` reads it.
pub open spec fn spec_parse_port(text: Seq<char>) -> Option<u16> {
    decimal_u16(trim(text))
}

/// The value of a prefix of digits is at most the value of all of them.
proof fn lemma_prefix_value_le(d: Seq<char>, k: int)
    requires
        0 <= k <= d.len(),
    ensures
        digits_value(d.take(k)) <= digits_value(d),
    decreases d.len(),
{
    if k < d.len() {
        lemma_prefix_value_le(d.drop_last(), k);
        assert(d.drop_last().take(k) =~= d.take(k));
    } else {
        assert(d.take(k) =~= d);
    }
}

/// Reads the port number of the broker from configuration text.
pub fn parse_port(text: &str) -> (port: Option<u16>)
    ensures
        port == spec_parse_port(text@),
{
    let n = text.unicode_len();
    let ghost s = text@;
    // Leading white space.
    let mut i: usize = 0;
    assert(s.subrange(0, n as int) =~= s);
    while i < n && is_white_space_char(text.get_char(i))
        invariant
            n == s.len(),
            s == text@,
            i <= n,
            trim_start(s) == trim_start(s.subrange(i as int, n as int)),
        decreases n - i,
    {
        assert(s.subrange(i as int, n as int).drop_first() =~= s.subrange(i + 1, n as int));
        i = i + 1;
    }
    assert(trim_start(s) == s.subrange(i as int, n as int));
    // Trailing white space.
    let mut j: usize = n;
    while j > i && is_white_space_char(text.get_char(j - 1))
        invariant
            n == s.len(),
            s == text@,
            i <= j <= n,
            trim(s) == trim_end(s.subrange(i as int, j as int)),
        decreases j - i,
    {
        assert(s.subrange(i as int, j as int).drop_last() =~= s.subrange(i as int, j - 1));
        j = j - 1;
    }
    assert(trim(s) == s.subrange(i as int, j as int));
    let ghost t = s.subrange(i as int, j as int);
    // Optional sign.
    let mut k: usize = i;
    if k < j && text.get_char(k) == '+' {
        k = k + 1;
    }
    assert(unsigned_part(t) =~= s.subrange(k as int, j as int));
    let ghost d = s.subrange(k as int, j as int);
    if k == j {
        return None;
    }
    let mut value: u32 = 0;
    let mut m: usize = k;
    assert(d.take(0) =~= Seq::<char>::empty());
    while m < j
        invariant
            n == s.len(),
            s == text@,
            k <= m <= j <= n,
            d == s.subrange(k as int, j as int),
            unsigned_part(trim(s)) == d,
            all_digits(d.take(m - k)),
            value == digits_value(d.take(m - k)),
            value <= 65535,
        decreases j - m,
    {
        let c = text.get_char(m);
        assert(d[m - k] == c);
        if !('0' <= c && c <= '9') {
            assert(!all_digits(d));
            return None;
        }
        let digit: u32 = (c as u32) - ('0' as u32);
        assert(d.take(m - k + 1).drop_last() =~= d.take(m - k));
        assert(d.take(m - k + 1).last() == c);
        assert(digit == digit_value(c));
        value = value * 10 + digit;
        assert(all_digits(d.take(m - k + 1))) by {
            assert forall|x: int| 0 <= x < d.take(m - k + 1).len() implies is_digit(#[trigger] d.take(m - k + 1)[x]) by {
                if x < m - k {
                    assert(d.take(m - k + 1)[x] == d.take(m - k)[x]);
                }
            }
        }
        m = m + 1;
        if value > 65535 {
            proof {
                lemma_prefix_value_le(d, (m - k) as int);
            }
            return None;
        }
    }
    assert(d.take(j - k) =~= d);
    Some(value as u16)
}

/// Decides `is_white_space` for one character.
fn is_white_space_char(c: char) -> (b: bool)
    ensures
        b == is_white_space(c),
{
    ('\t' <= c && c <= '\r') || c == ' ' || c == '\u{85}' || c == '\u{a0}' || c == '\u{1680}'
        || ('\u{2000}' <= c && c <= '\u{200a}') || c == '\u{2028}' || c == '\u{2029}' || c == '\u{202f}'
        || c == '\u{205f}' || c == '\u{3000}'
}

/// The decimal digit character for `d` (below ten).
pub open spec fn digit_char(d: nat) -> char {
    if d == 0 { '0' }
    else if d == 1 { '1' }
    else if d == 2 { '2' }
    else if d == 3 { '3' }
    else if d == 4 { '4' }
    else if d == 5 { '5' }
    else if d == 6 { '6' }
    else if d == 7 { '7' }
    else if d == 8 { '8' }
    else { '9' }
}

/// `n` written in decimal without leading zeros.
pub open spec fn decimal_text(n: nat) -> Seq<char>
    decreases n,
{
    if n < 10 {
        seq![digit_char(n)]
    } else {
        decimal_text(n / 10).push(digit_char(n % 10))
    }
}

proof fn lemma_decimal_text_digits(n: nat)
    ensures
        decimal_text(n).len() > 0,
        all_digits(decimal_text(n)),
        digits_value(decimal_text(n)) == n,
    decreases n,
{
    if n < 10 {
        let t = decimal_text(n);
        assert(t.drop_last() =~= Seq::<char>::empty());
        assert(t.last() == digit_char(n));
        assert(digit_value(digit_char(n)) == n);
        assert(digits_value(t) == digits_value(t.drop_last()) * 10 + digit_value(t.last()));
    } else {
        lemma_decimal_text_digits(n / 10);
        let t = decimal_text(n);
        let front = decimal_text(n / 10);
        assert(t.drop_last() =~= front);
        assert(t.last() == digit_char(n % 10));
        assert(digit_value(digit_char(n % 10)) == n % 10);
        assert(all_digits(t)) by {
            assert forall|i: int| 0 <= i < t.len() implies is_digit(#[trigger] t[i]) by {
                if i < front.len() {
                    assert(t[i] == front[i]);
                }
            }
        }
        assert((n / 10) * 10 + n % 10 == n);
    }
}

/// A port written in decimal reads back as the same port.
pub proof fn lemma_port_round_trip(port: u16)
    ensures
        spec_parse_port(decimal_text(port as nat)) == Some(port),
{
    let t = decimal_text(port as nat);
    lemma_decimal_text_digits(port as nat);
    assert(is_digit(t[0]));
    assert(is_digit(t[t.len() - 1]));
    assert(trim_start(t) == t);
    assert(trim_end(t) == t);
    assert(unsigned_part(t) == t);
}

} // verus!
