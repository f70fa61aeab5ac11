//! Building the fixed notification-query template: an instance-creation
//! query over one target class, with a service-side polling bound.
//!
//! The query text is validated lazily by the service; a malformed query
//! surfaces synchronously when the query is started (see
//! [`crate::subscription::query_start_outcome`]).

use vstd::prelude::*;

use vstd::string::StringExecFns;

verus! {

/// The character for one decimal digit.
pub open spec fn digit_char(d: nat) -> char {
    if d == 0 {
        '0'
    } else if d == 1 {
        '1'
    } else if d == 2 {
        '2'
    } else if d == 3 {
        '3'
    } else if d == 4 {
        '4'
    } else if d == 5 {
        '5'
    } else if d == 6 {
        '6'
    } else if d == 7 {
        '7'
    } else if d == 8 {
        '8'
    } else {
        '9'
    }
}

/// The decimal digits of `n`, most significant first, without leading
/// zeros (a single zero for zero).
pub open spec fn spec_decimal(n: nat) -> Seq<char>
    decreases n,
{
    if n < 10 {
        seq![digit_char(n)]
    } else {
        spec_decimal(n / 10).push(digit_char(n % 10))
    }
}

/// The string slice for one decimal digit.
fn digit_str(d: u64) -> (r: &'static str)
    requires
        d < 10,
    ensures
        r@ == seq![digit_char(d as nat)],
{
    proof {
        reveal_strlit("0");
        reveal_strlit("1");
        reveal_strlit("2");
        reveal_strlit("3");
        reveal_strlit("4");
        reveal_strlit("5");
        reveal_strlit("6");
        reveal_strlit("7");
        reveal_strlit("8");
        reveal_strlit("9");
    }
    if d == 0 {
        "0"
    } else if d == 1 {
        "1"
    } else if d == 2 {
        "2"
    } else if d == 3 {
        "3"
    } else if d == 4 {
        "4"
    } else if d == 5 {
        "5"
    } else if d == 6 {
        "6"
    } else if d == 7 {
        "7"
    } else if d == 8 {
        "8"
    } else {
        "9"
    }
}

/// Renders `n` in decimal, most significant digit first.
pub fn u64_to_string(n: u64) -> (r: String)
    ensures
        r@ == spec_decimal(n as nat),
    decreases n,
{
    if n < 10 {
        digit_str(n).to_owned()
    } else {
        let mut s = u64_to_string(n / 10);
        s.append(digit_str(n % 10));
        assert(s@ =~= spec_decimal((n / 10) as nat).push(digit_char((n % 10) as nat)));
        s
    }
}

/// The fixed query template, two parameters: the target class and the
/// polling bound in seconds for service-side detection latency.
pub open spec fn spec_notification_query(class_name: Seq<char>, poll_seconds: nat) -> Seq<char> {
    "SELECT * FROM __InstanceCreationEvent WITHIN "@ + spec_decimal(poll_seconds)
        + " WHERE TargetInstance ISA '"@ + class_name + "'"@
}

/// Renders the notification query for one target class (e.g. the
/// process class) and one polling bound.
pub fn build_notification_query(class_name: &str, poll_seconds: u64) -> (q: String)
    ensures
        q@ == spec_notification_query(class_name@, poll_seconds as nat),
{
    let digits = u64_to_string(poll_seconds);
    let mut q = String::from_str("SELECT * FROM __InstanceCreationEvent WITHIN ");
    q.append(digits.as_str());
    q.append(" WHERE TargetInstance ISA '");
    q.append(class_name);
    q.append("'");
    q
}

} // verus!
