//! Rendering numbers and durations as text.
use vstd::prelude::*;

verus! {

/// The decimal digit for `d < 10`.
pub open spec fn digit_char(d: nat) -> char {
    seq!['0', '1', '2', '3', '4', '5', '6', '7', '8', '9'][d as int]
}

/// The decimal digits of `n`, without leading zeros.
pub open spec fn decimal(n: nat) -> Seq<char>
    decreases n,
{
    if n < 10 {
        seq![digit_char(n)]
    } else {
        decimal(n / 10).push(digit_char(n % 10))
    }
}

fn digit_str(d: u128) -> (r: &'static str)
    requires
        d < 10,
    ensures
        r@ == seq![digit_char(d as nat)],
{
    proof {
        reveal_strlit("0");
        reveal_strlit("1");
        reveal_strlit("2");
        reveal_strlit("3");
        reveal_strlit("4");
        reveal_strlit("5");
        reveal_strlit("6");
        reveal_strlit("7");
        reveal_strlit("8");
        reveal_strlit("9");
    }
    if d == 0 {
        "0"
    } else if d == 1 {
        "1"
    } else if d == 2 {
        "2"
    } else if d == 3 {
        "3"
    } else if d == 4 {
        "4"
    } else if d == 5 {
        "5"
    } else if d == 6 {
        "6"
    } else if d == 7 {
        "7"
    } else if d == 8 {
        "8"
    } else {
        "9"
    }
}

/// Appends the decimal digits of `n` to `out`.
pub fn push_decimal(out: &mut String, n: u128)
    ensures
        final(out)@ == old(out)@ + decimal(n as nat),
    decreases n,
{
    if n >= 10 {
        push_decimal(out, n / 10);
    }
    out.append(digit_str(n % 10));
    proof {
        if n >= 10 {
            assert(decimal(n as nat) == decimal((n / 10) as nat).push(digit_char((n % 10) as nat)));
        }
    }
}

/// One part of a rendered duration: `n` followed by its unit, or nothing for zero.
pub open spec fn time_component(n: nat, unit: Seq<char>) -> Seq<char> {
    if n == 0 {
        Seq::empty()
    } else {
        decimal(n) + unit
    }
}

/// A duration of `ms` milliseconds as text, e.g. `1d2h3m4s`: days, hours,
/// minutes and seconds that are not zero, then milliseconds when they are
/// asked for or the duration is under a second; `0ms` for no time at all.
pub open spec fn render_time_text(ms: nat, show_millis: bool) -> Seq<char> {
    if ms == 0 {
        "0ms"@
    } else {
        let millis = ms % 1000;
        let raw_seconds = ms / 1000;
        let seconds = raw_seconds % 60;
        let raw_minutes = raw_seconds / 60;
        let minutes = raw_minutes % 60;
        let raw_hours = raw_minutes / 60;
        let hours = raw_hours % 24;
        let days = raw_hours / 24;
        time_component(days, "d"@) + time_component(hours, "h"@) + time_component(minutes, "m"@)
            + time_component(seconds, "s"@) + if show_millis || ms < 1000 {
            time_component(millis, "ms"@)
        } else {
            Seq::empty()
        }
    }
}

fn push_component(out: &mut String, n: u128, unit: &str)
    ensures
        final(out)@ == old(out)@ + time_component(n as nat, unit@),
{
    if n != 0 {
        push_decimal(out, n);
        out.append(unit);
        assert(final(out)@ =~= old(out)@ + (decimal(n as nat) + unit@));
    } else {
        assert(old(out)@ + Seq::<char>::empty() =~= old(out)@);
    }
}

/// Renders a duration given in milliseconds (see `render_time_text`).
pub fn render_time(raw_millis: u128, show_millis: bool) -> (r: String)
    ensures
        r@ == render_time_text(raw_millis as nat, show_millis),
{
    if raw_millis == 0 {
        return "0ms".to_owned();
    }
    let millis = raw_millis % 1000;
    let raw_seconds = raw_millis / 1000;
    let seconds = raw_seconds % 60;
    let raw_minutes = raw_seconds / 60;
    let minutes = raw_minutes % 60;
    let raw_hours = raw_minutes / 60;
    let hours = raw_hours % 24;
    let days = raw_hours / 24;
    let mut out = String::new();
    push_component(&mut out, days, "d");
    push_component(&mut out, hours, "h");
    push_component(&mut out, minutes, "m");
    push_component(&mut out, seconds, "s");
    if show_millis || raw_millis < 1000 {
        push_component(&mut out, millis, "ms");
    } else {
        assert(out@ + Seq::<char>::empty() =~= out@);
    }
    assert(out@ =~= render_time_text(raw_millis as nat, show_millis));
    out
}


/// How milliseconds are rendered: a duration under a second is its
/// milliseconds alone; one of a second or more shows no millisecond part
/// unless `show_millis` is set, so it renders as the same duration cut down to
/// whole seconds, and with `show_millis` the milliseconds follow that text.
pub proof fn lemma_render_time_millis(ms: nat)
    ensures
        0 < ms < 1000 ==> render_time_text(ms, false) == decimal(ms) + "ms"@,
        0 < ms < 1000 ==> render_time_text(ms, true) == decimal(ms) + "ms"@,
        ms >= 1000 ==> render_time_text(ms, false) == render_time_text(
            (ms - ms % 1000) as nat,
            false,
        ),
        ms >= 1000 ==> render_time_text(ms, true) == render_time_text(
            (ms - ms % 1000) as nat,
            false,
        ) + time_component(ms % 1000, "ms"@),
{
    if 0 < ms < 1000 {
        assert(ms % 1000 == ms);
        assert(ms / 1000 == 0);
        assert(Seq::<char>::empty() + Seq::<char>::empty() + Seq::<char>::empty()
            + Seq::<char>::empty() + (decimal(ms) + "ms"@) =~= decimal(ms) + "ms"@);
    }
    if ms >= 1000 {
        let w = (ms - ms % 1000) as nat;
        assert(w / 1000 == ms / 1000 && w % 1000 == 0 && w >= 1000) by (nonlinear_arith)
            requires
                w == ms - ms % 1000,
                ms >= 1000,
        {
            assert(ms == 1000 * (ms / 1000) + ms % 1000);
        }
        let a = time_component(((ms / 1000) / 60 / 60) / 24, "d"@) + time_component(
            ((ms / 1000) / 60 / 60) % 24,
            "h"@,
        ) + time_component(((ms / 1000) / 60) % 60, "m"@) + time_component(
            (ms / 1000) % 60,
            "s"@,
        );
        assert(render_time_text(w, false) =~= a + Seq::<char>::empty());
        assert(render_time_text(ms, false) =~= a + Seq::<char>::empty());
        assert(time_component(0, "ms"@) =~= Seq::<char>::empty());
    }
}


/// The number that a decimal digit stands for.
pub open spec fn digit_value(c: char) -> nat {
    if c == '1' { 1 } else if c == '2' { 2 } else if c == '3' { 3 } else if c == '4' { 4 }
    else if c == '5' { 5 } else if c == '6' { 6 } else if c == '7' { 7 } else if c == '8' { 8 }
    else if c == '9' { 9 } else { 0 }
}

/// The number that a text of decimal digits stands for, most significant first.
pub open spec fn decimal_value(s: Seq<char>) -> nat
    decreases s.len(),
{
    if s.len() == 0 {
        0
    } else {
        decimal_value(s.drop_last()) * 10 + digit_value(s.last())
    }
}

proof fn lemma_digit_char(d: nat)
    requires
        d < 10,
    ensures
        digit_value(digit_char(d)) == d,
        '0' <= digit_char(d) <= '9',
        d > 0 ==> digit_char(d) != '0',
{
    let t = seq!['0', '1', '2', '3', '4', '5', '6', '7', '8', '9'];
    assert(t[0] == '0' && t[1] == '1' && t[2] == '2' && t[3] == '3' && t[4] == '4');
    assert(t[5] == '5' && t[6] == '6' && t[7] == '7' && t[8] == '8' && t[9] == '9');
}

/// `decimal(n)` writes `n` in decimal: digits only, standing for `n`, with no
/// leading zero (only `0` itself starts with `0`).
pub proof fn lemma_decimal_digits(n: nat)
    ensures
        decimal_value(decimal(n)) == n,
        decimal(n).len() > 0,
        forall|i: int| 0 <= i < decimal(n).len() ==> '0' <= #[trigger] decimal(n)[i] <= '9',
        n > 0 ==> decimal(n)[0] != '0',
    decreases n,
{
    if n < 10 {
        lemma_digit_char(n);
        assert(seq![digit_char(n)].drop_last() =~= Seq::<char>::empty());
        assert(decimal_value(Seq::<char>::empty()) == 0);
        assert(decimal_value(seq![digit_char(n)]) == digit_value(digit_char(n)));
    } else {
        lemma_decimal_digits(n / 10);
        lemma_digit_char(n % 10);
        let s = decimal(n);
        assert(s.drop_last() =~= decimal(n / 10));
        assert(s.last() == digit_char(n % 10));
        assert(decimal_value(s) == decimal_value(decimal(n / 10)) * 10 + digit_value(
            digit_char(n % 10),
        ));
        assert(n == (n / 10) * 10 + n % 10);
        assert(s[0] == decimal(n / 10)[0]);
    }
}

/// A duration made of `days`, `hours`, `minutes` and `seconds` (each below
/// its next unit) renders, without milliseconds, as those parts in that
/// order, each written only when it is not zero.
pub proof fn lemma_render_time_parts(days: nat, hours: nat, minutes: nat, seconds: nat)
    requires
        hours < 24,
        minutes < 60,
        seconds < 60,
        days + hours + minutes + seconds > 0,
    ensures
        render_time_text((((days * 24 + hours) * 60 + minutes) * 60 + seconds) * 1000, false)
            == time_component(days, "d"@) + time_component(hours, "h"@) + time_component(
            minutes,
            "m"@,
        ) + time_component(seconds, "s"@),
{
    let ms = (((days * 24 + hours) * 60 + minutes) * 60 + seconds) * 1000;
    assert(ms / 1000 == ((days * 24 + hours) * 60 + minutes) * 60 + seconds && ms % 1000 == 0
        && ms >= 1000) by (nonlinear_arith)
        requires
            ms == (((days * 24 + hours) * 60 + minutes) * 60 + seconds) * 1000,
            days + hours + minutes + seconds > 0,
    ;
    let rs = ms / 1000;
    assert(rs % 60 == seconds && rs / 60 == (days * 24 + hours) * 60 + minutes) by (nonlinear_arith)
        requires
            rs == ((days * 24 + hours) * 60 + minutes) * 60 + seconds,
            seconds < 60,
    ;
    let rm = rs / 60;
    assert(rm % 60 == minutes && rm / 60 == days * 24 + hours) by (nonlinear_arith)
        requires
            rm == (days * 24 + hours) * 60 + minutes,
            minutes < 60,
    ;
    let rh = rm / 60;
    assert(rh % 24 == hours && rh / 24 == days) by (nonlinear_arith)
        requires
            rh == days * 24 + hours,
            hours < 24,
    ;
    assert(render_time_text(ms, false) =~= time_component(days, "d"@) + time_component(hours, "h"@)
        + time_component(minutes, "m"@) + time_component(seconds, "s"@) + Seq::<char>::empty());
}

} // verus!
