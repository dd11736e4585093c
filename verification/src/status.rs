//! The status report: the breaker's state tag and its two outcome counters,
//! rendered as one flat JSON object.

use vstd::prelude::*;
use vstd::string::StringExecFns;
use crate::breaker::CircuitBreakerState;
use crate::model::BreakerModel;

verus! {

/// The character of the decimal digit `d`.
pub open spec fn digit(d: nat) -> char
    recommends
        d < 10,
{
    if d == 0 {
        '0'
    } else if d == 1 {
        '1'
    } else if d == 2 {
        '2'
    } else if d == 3 {
        '3'
    } else if d == 4 {
        '4'
    } else if d == 5 {
        '5'
    } else if d == 6 {
        '6'
    } else if d == 7 {
        '7'
    } else if d == 8 {
        '8'
    } else {
        '9'
    }
}

/// The decimal numeral of `n`: most significant digit first, no sign, no
/// leading zero, and `"0"` for zero.
pub open spec fn decimal(n: nat) -> Seq<char>
    decreases n,
{
    if n < 10 {
        seq![digit(n)]
    } else {
        decimal(n / 10).push(digit(n % 10))
    }
}

/// The status report of a breaker, as text:
/// `{"state":"<tag>","failures":<n>,"successes":<n>}`.
pub open spec fn status_json(m: BreakerModel) -> Seq<char> {
    "{\"state\":\""@ + m.state.tag() + "\",\"failures\":"@ + decimal(m.failure_count as nat)
        + ",\"successes\":"@ + decimal(m.success_count as nat) + "}"@
}

/// The one-character text of the decimal digit `d`.
fn digit_str(d: u32) -> (s: &'static str)
    requires
        d < 10,
    ensures
        s@ == seq![digit(d as nat)],
{
    proof {
        reveal_strlit("0");
        reveal_strlit("1");
        reveal_strlit("2");
        reveal_strlit("3");
        reveal_strlit("4");
        reveal_strlit("5");
        reveal_strlit("6");
        reveal_strlit("7");
        reveal_strlit("8");
        reveal_strlit("9");
    }
    let s: &'static str = match d {
        0 => "0",
        1 => "1",
        2 => "2",
        3 => "3",
        4 => "4",
        5 => "5",
        6 => "6",
        7 => "7",
        8 => "8",
        _ => "9",
    };
    assert(s@ =~= seq![digit(d as nat)]);
    s
}

/// Appends the decimal numeral of `n` to `out`.
fn append_decimal(out: &mut String, n: u32)
    ensures
        final(out)@ == old(out)@ + decimal(n as nat),
    decreases n,
{
    if n >= 10 {
        append_decimal(out, n / 10);
    }
    out.append(digit_str(n % 10));
    assert(out@ =~= old(out)@ + decimal(n as nat));
}

/// Renders the status report of the breaker. The breaker is not changed.
pub fn get_status(breaker: &CircuitBreakerState) -> (json: String)
    ensures
        json@ == status_json(breaker@),
{
    let mut json: String = String::from_str("{\"state\":\"");
    json.append(breaker.state().as_str());
    json.append("\",\"failures\":");
    append_decimal(&mut json, breaker.failure_count());
    json.append(",\"successes\":");
    append_decimal(&mut json, breaker.success_count());
    json.append("}");
    json
}

} // verus!
