use vstd::prelude::*;
use vstd::string::StrSliceExecFns;

verus! {

/// Value of a hexadecimal digit (either case); `None` for any other character.
pub open spec fn hex_digit_value(c: char) -> Option<nat> {
    if '0' <= c && c <= '9' {
        Some((c as nat - '0' as nat) as nat)
    } else if 'a' <= c && c <= 'f' {
        Some((c as nat - 'a' as nat + 10) as nat)
    } else if 'A' <= c && c <= 'F' {
        Some((c as nat - 'A' as nat + 10) as nat)
    } else {
        None
    }
}

/// Number written by the hexadecimal digits `s`, most significant first.
pub open spec fn hex_value(s: Seq<char>) -> nat
    decreases s.len(),
{
    if s.len() == 0 {
        0
    } else {
        hex_value(s.drop_last()) * 16 + hex_digit_value(s.last()).unwrap_or(0)
    }
}

/// How many hexadecimal digits `s` starts with.
pub open spec fn hex_run(s: Seq<char>) -> nat
    decreases s.len(),
{
    if s.len() > 0 && hex_digit_value(s[0]).is_some() {
        1 + hex_run(s.drop_first())
    } else {
        0
    }
}

/// What `{:p}` writes before the address of a pointer that carries metadata (a slice's length,
/// a trait object's table): the whole text is `Pointer { addr: 0x…, metadata: … }`.
pub open spec fn fat_prefix() -> Seq<char> {
    "Pointer { addr: "@
}

/// The address written in `text` as `0x` followed by hexadecimal digits, when it fits a `usize`.
/// With `fat`, the digits are followed by a comma and more text; otherwise they end `text`.
pub open spec fn address_at(text: Seq<char>, fat: bool) -> Option<usize> {
    let digits = text.skip(2);
    let run = hex_run(digits);
    if text.len() >= 2 && text[0] == '0' && text[1] == 'x' && run > 0 && (if fat {
        run < digits.len() && digits[run as int] == ','
    } else {
        run == digits.len()
    }) && hex_value(digits.take(run as int)) <= usize::MAX {
        Some(hex_value(digits.take(run as int)) as usize)
    } else {
        None
    }
}

/// The address that `{:p}` wrote in `text`: `0x` and hexadecimal digits for a plain pointer, or
/// the `addr` field of `Pointer { addr: 0x…, metadata: … }` for one that carries metadata.
pub open spec fn address_in(text: Seq<char>) -> Option<usize> {
    if text.len() >= fat_prefix().len() && text.take(fat_prefix().len() as int) == fat_prefix() {
        address_at(text.skip(fat_prefix().len() as int), true)
    } else {
        address_at(text, false)
    }
}

fn hex_digit(c: char) -> (r: Option<u8>)
    ensures
        r.is_some() == hex_digit_value(c).is_some(),
        r.is_some() ==> r.unwrap() as nat == hex_digit_value(c).unwrap() && r.unwrap() < 16,
{
    if '0' <= c && c <= '9' {
        Some(((c as u32) - ('0' as u32)) as u8)
    } else if 'a' <= c && c <= 'f' {
        Some(((c as u32) - ('a' as u32) + 10) as u8)
    } else if 'A' <= c && c <= 'F' {
        Some(((c as u32) - ('A' as u32) + 10) as u8)
    } else {
        None
    }
}

proof fn lemma_hex_run_step(s: Seq<char>, i: int)
    requires
        0 <= i < s.len(),
        hex_digit_value(s[i]).is_some(),
    ensures
        hex_run(s.skip(i)) == 1 + hex_run(s.skip(i + 1)),
{
    assert(s.skip(i).drop_first() == s.skip(i + 1));
}

/// Reads the run of hexadecimal digits of `text` that begins at `start`: where it ends, and the
/// number it writes when that fits a `usize`.
fn read_hex_run(text: &str, start: usize) -> (r: (usize, Option<usize>))
    requires
        start <= text@.len(),
    ensures
        r.0 == start + hex_run(text@.skip(start as int)),
        r.1 == (if hex_value(text@.skip(start as int).take(r.0 - start)) <= usize::MAX {
            Some(hex_value(text@.skip(start as int).take(r.0 - start)) as usize)
        } else {
            None::<usize>
        }),
{
    let n = text.unicode_len();
    let ghost digits = text@.skip(start as int);
    let mut value: usize = 0;
    let mut fits = true;
    let mut i: usize = start;
    let mut stopped = false;
    while !stopped && i < n
        invariant
            start <= i <= n,
            stopped ==> i < n && hex_digit_value(text@[i as int]).is_none(),
            n == text@.len(),
            digits == text@.skip(start as int),
            hex_run(digits) == (i - start) + hex_run(text@.skip(i as int)),
            fits ==> value as nat == hex_value(digits.take(i - start)),
            !fits ==> hex_value(digits.take(i - start)) > usize::MAX,
        decreases n - i + if stopped {
            0int
        } else {
            1int
        },
    {
        let c = text.get_char(i);
        let d = match hex_digit(c) {
            Some(d) => d,
            None => {
                stopped = true;
                continue;
            },
        };
        proof {
            lemma_hex_run_step(text@, i as int);
            assert(digits.take(i + 1 - start).drop_last() == digits.take(i - start));
            assert(digits.take(i + 1 - start).last() == c);
        }
        if fits {
            if value > (usize::MAX - d as usize) / 16 {
                assert(value * 16 + d > usize::MAX) by (nonlinear_arith)
                    requires
                        value > (usize::MAX - d as usize) / 16,
                        d <= 15,
                ;
                fits = false;
            } else {
                assert(value * 16 + d <= usize::MAX) by (nonlinear_arith)
                    requires
                        value <= (usize::MAX - d as usize) / 16,
                        d <= 15,
                ;
                value = value * 16 + d as usize;
            }
        } else {
            assert(hex_value(digits.take(i + 1 - start)) >= hex_value(digits.take(i - start)))
                by (nonlinear_arith)
                requires
                    hex_value(digits.take(i + 1 - start)) == hex_value(digits.take(i - start))
                        * 16 + d,
            ;
        }
        i = i + 1;
    }
    if i == n {
        assert(text@.skip(i as int).len() == 0);
    } else {
        assert(text@.skip(i as int)[0] == text@[i as int]);
    }
    if fits {
        (i, Some(value))
    } else {
        (i, None)
    }
}

/// Reads `0x` and hexadecimal digits at `start`; with `fat` they must be followed by a comma,
/// otherwise they must end the text.
fn read_address_at(text: &str, start: usize, fat: bool) -> (r: Option<usize>)
    requires
        start <= text@.len(),
    ensures
        r == address_at(text@.skip(start as int), fat),
{
    let ghost rest = text@.skip(start as int);
    let n = text.unicode_len();
    if n - start < 2 || text.get_char(start) != '0' || text.get_char(start + 1) != 'x' {
        return None;
    }
    assert(rest.skip(2) == text@.skip(start + 2));
    let (end, value) = read_hex_run(text, start + 2);
    if end == start + 2 {
        return None;
    }
    if fat {
        if end >= n || text.get_char(end) != ',' {
            return None;
        }
        assert(rest.skip(2)[end - start - 2] == text@[end as int]);
    } else if end != n {
        return None;
    }
    value
}

/// Reads the address that `{:p}` wrote: `0x` and hexadecimal digits, or, for a pointer that
/// carries metadata, `Pointer { addr: 0x…, metadata: … }`.
pub fn parse_address(text: &str) -> (r: Option<usize>)
    ensures
        r == address_in(text@),
{
    let prefix: &str = "Pointer { addr: ";
    proof {
        reveal_strlit("Pointer { addr: ");
    }
    let n = text.unicode_len();
    let m = prefix.unicode_len();
    assert(text@.skip(0) == text@);
    if n < m {
        return read_address_at(text, 0, false);
    }
    let mut i: usize = 0;
    while i < m
        invariant
            m == prefix@.len() == fat_prefix().len(),
            prefix@ == fat_prefix(),
            n == text@.len(),
            n >= m,
            i <= m,
            text@.take(i as int) == prefix@.take(i as int),
            text@.skip(0) == text@,
        decreases m - i,
    {
        if text.get_char(i) != prefix.get_char(i) {
            assert(text@.take(m as int)[i as int] != prefix@[i as int]);
            return read_address_at(text, 0, false);
        }
        assert(text@.take(i + 1) == text@.take(i as int).push(text@[i as int]));
        assert(prefix@.take(i + 1) == prefix@.take(i as int).push(prefix@[i as int]));
        i = i + 1;
    }
    assert(prefix@.take(m as int) == prefix@);
    read_address_at(text, m, true)
}

/// Relies on the `{:p}` formatting of a reference, which writes the address of the value it
/// refers to: as `0x` and hexadecimal digits, or, when the reference carries metadata (a slice's
/// length), as `Pointer { addr: 0x…, metadata: … }`. The address depends on the run, so nothing
/// is promised of the text.
#[verifier::external_body]
fn address_text<T: ?Sized>(value: &T) -> (r: String) {
    format!("{:p}", value)
}

/// The address of the value that `value` refers to, or `None` when its text cannot be read.
pub(crate) fn address_of<T: ?Sized>(value: &T) -> (r: Option<usize>) {
    let text = address_text(value);
    parse_address(text.as_str())
}

} // verus!
