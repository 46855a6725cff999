//! Decimal rendering of numbers, clock-style durations, and small text helpers.
use vstd::prelude::*;
use vstd::string::*;
use std::time::Duration;

verus! {

/// The character of a decimal digit.
pub open spec fn digit_char(d: nat) -> char
    recommends
        d < 10,
{
    ((48 + d) as u32) as char
}

/// The decimal rendering of `n`, most significant digit first, without leading zeros.
pub open spec fn decimal(n: nat) -> Seq<char>
    decreases n,
{
    if n < 10 {
        seq![digit_char(n)]
    } else {
        decimal(n / 10).push(digit_char(n % 10))
    }
}

/// `n` in decimal, padded with one leading zero when it has a single digit.
pub open spec fn two_digits(n: nat) -> Seq<char> {
    if n < 10 {
        seq!['0'] + decimal(n)
    } else {
        decimal(n)
    }
}

/// The text of a duration of `secs` seconds: `H:MM:SS` above one hour, `MM:SS` otherwise.
pub open spec fn duration_text(secs: nat) -> Seq<char> {
    if secs > 3600 {
        decimal(secs / 3600) + seq![':'] + two_digits((secs % 3600) / 60) + seq![':'] + two_digits(
            secs % 60,
        )
    } else {
        two_digits(secs / 60) + seq![':'] + two_digits(secs % 60)
    }
}

fn digit_str(d: u64) -> (s: &'static str)
    requires
        d < 10,
    ensures
        s@ == seq![digit_char(d as nat)],
{
    proof {
        reveal_strlit("0");
        reveal_strlit("1");
        reveal_strlit("2");
        reveal_strlit("3");
        reveal_strlit("4");
        reveal_strlit("5");
        reveal_strlit("6");
        reveal_strlit("7");
        reveal_strlit("8");
        reveal_strlit("9");
    }
    let s = match d {
        0 => "0",
        1 => "1",
        2 => "2",
        3 => "3",
        4 => "4",
        5 => "5",
        6 => "6",
        7 => "7",
        8 => "8",
        _ => "9",
    };
    assert(s@ =~= seq![digit_char(d as nat)]);
    s
}

/// Appends the decimal rendering of `n` to `out`.
pub fn push_decimal(out: &mut String, n: u64)
    ensures
        final(out)@ == old(out)@ + decimal(n as nat),
    decreases n,
{
    if n >= 10 {
        push_decimal(out, n / 10);
    }
    let d = digit_str(n % 10);
    out.append(d);
    proof {
        if n >= 10 {
            assert(decimal(n as nat) == decimal((n / 10) as nat).push(digit_char((n % 10) as nat)));
        }
    }
}

/// `show_double_digits`: the number in decimal, with a leading zero below ten.
pub fn show_double_digits(num: u64) -> (s: String)
    ensures
        s@ == two_digits(num as nat),
{
    let mut s = String::new();
    if num < 10 {
        s.append("0");
        proof {
            reveal_strlit("0");
        }
    }
    push_decimal(&mut s, num);
    s
}

/// The clock-style text of a duration given in whole seconds.
pub fn format_duration_secs(dur: u64) -> (s: String)
    ensures
        s@ == duration_text(dur as nat),
{
    proof {
        reveal_strlit(":");
    }
    if dur > 3600 {
        let mut s = String::new();
        push_decimal(&mut s, dur / 3600);
        s.append(":");
        let m = show_double_digits((dur % 3600) / 60);
        s.append(m.as_str());
        s.append(":");
        let sec = show_double_digits(dur % 60);
        s.append(sec.as_str());
        s
    } else {
        let mut s = show_double_digits(dur / 60);
        s.append(":");
        let sec = show_double_digits(dur % 60);
        s.append(sec.as_str());
        s
    }
}

/// What `Duration::as_secs` returns for `duration`: its whole seconds.
pub uninterp spec fn duration_whole_secs(duration: Duration) -> u64;

/// Trusted: `std::time::Duration::as_secs`. The contract claims only that the
/// result is determined by the duration; which number of seconds it is, is not
/// stated, since a `Duration` is opaque here.
#[verifier::external_body]
fn whole_secs(duration: &Duration) -> (secs: u64)
    ensures
        secs == duration_whole_secs(*duration),
{
    duration.as_secs()
}

/// The clock-style text of a duration, from its whole seconds.
pub fn format_duration(duration: Duration) -> (s: String)
    ensures
        s@ == duration_text(duration_whole_secs(duration) as nat),
{
    let secs = whole_secs(&duration);
    format_duration_secs(secs)
}

/// The number that a string of decimal digits denotes.
pub open spec fn digits_value(s: Seq<char>) -> int
    decreases s.len(),
{
    if s.len() == 0 {
        0
    } else {
        digits_value(s.drop_last()) * 10 + (s.last() as int - 48)
    }
}

/// Whether every character of `s` is a decimal digit.
pub open spec fn all_digits(s: Seq<char>) -> bool {
    forall|i: int| 0 <= i < s.len() ==> '0' <= #[trigger] s[i] <= '9'
}

/// Law: the decimal rendering is made of digits only, starts with a digit other than
/// zero unless the number is zero, and reads back as the number it renders.
pub proof fn lemma_decimal_reads_back(n: nat)
    ensures
        decimal(n).len() >= 1,
        all_digits(decimal(n)),
        n >= 10 ==> decimal(n)[0] != '0',
        digits_value(decimal(n)) == n,
    decreases n,
{
    assert(digit_char(n % 10) as int == 48 + n % 10);
    if n < 10 {
        assert(decimal(n).drop_last() =~= Seq::<char>::empty());
        assert(digits_value(Seq::<char>::empty()) == 0);
        assert(decimal(n).last() == digit_char(n));
    } else {
        lemma_decimal_reads_back(n / 10);
        let d = decimal(n);
        assert(d.drop_last() =~= decimal(n / 10));
        assert(d.last() == digit_char(n % 10));
        assert(digits_value(d) == digits_value(decimal(n / 10)) * 10 + (n % 10));
        assert((n / 10) * 10 + n % 10 == n);
    }
}

/// Law: the duration text splits the seconds into fields that recombine to the whole:
/// above one hour hours, minutes and seconds, with minutes and seconds below sixty;
/// otherwise minutes and seconds, with seconds below sixty.
pub proof fn lemma_duration_fields(secs: nat)
    ensures
        secs > 3600 ==> {
            let h = secs / 3600;
            let m = (secs % 3600) / 60;
            let s = secs % 60;
            &&& m < 60 && s < 60
            &&& h * 3600 + m * 60 + s == secs
            &&& duration_text(secs) == decimal(h) + seq![':'] + two_digits(m) + seq![':']
                + two_digits(s)
        },
        secs <= 3600 ==> {
            let m = secs / 60;
            let s = secs % 60;
            &&& s < 60
            &&& m * 60 + s == secs
            &&& duration_text(secs) == two_digits(m) + seq![':'] + two_digits(s)
        },
{
    let h = secs / 3600;
    let r = secs % 3600;
    let m = r / 60;
    let s = secs % 60;
    assert(h * 3600 + r == secs) by (nonlinear_arith)
        requires
            h == secs / 3600,
            r == secs % 3600,
    ;
    assert(m * 60 + r % 60 == r) by (nonlinear_arith)
        requires
            m == r / 60,
    ;
    assert(r % 60 == s) by (nonlinear_arith)
        requires
            r == secs % 3600,
            s == secs % 60,
    ;
    assert((secs / 60) * 60 + s == secs) by (nonlinear_arith)
        requires
            s == secs % 60,
    ;
}

/// Whether two strings hold the same characters.
pub fn same_text(a: &str, b: &str) -> (r: bool)
    ensures
        r == (a@ == b@),
{
    let x = a.to_owned();
    let y = b.to_owned();
    x == y
}

/// Whether `s` begins with `prefix`.
pub fn starts_with(s: &str, prefix: &str) -> (r: bool)
    ensures
        r == (prefix@.len() <= s@.len() && s@.subrange(0, prefix@.len() as int) == prefix@),
{
    let n = prefix.unicode_len();
    let m = s.unicode_len();
    if n > m {
        return false;
    }
    let mut i: usize = 0;
    while i < n
        invariant
            n == prefix@.len(),
            m == s@.len(),
            n <= m,
            i <= n,
            forall|j: int| 0 <= j < i ==> s@[j] == prefix@[j],
        decreases n - i,
    {
        if s.get_char(i) != prefix.get_char(i) {
            assert(s@.subrange(0, n as int)[i as int] != prefix@[i as int]);
            return false;
        }
        i = i + 1;
    }
    assert(s@.subrange(0, n as int) =~= prefix@);
    true
}

} // verus!
