//! What holds of options: each setter sets one of them and keeps the other.

use crate::options::AwaitEventOptions;
use vstd::prelude::*;

verus! {

/// Options start out with nothing set.
pub proof fn law_options_start_empty(r: AwaitEventOptions, default: AwaitEventOptions)
    requires
        call_ensures(AwaitEventOptions::new, (), r),
        call_ensures(<AwaitEventOptions as Default>::default, (), default),
    ensures
        r.step_name is None,
        r.timeout_secs is None,
        default.step_name is None,
        default.timeout_secs is None,
{
}

/// A step name is kept as it is given, and leaves the timeout as it was.
pub proof fn law_step_name_is_set(options: AwaitEventOptions, name: &str, r: AwaitEventOptions)
    requires
        call_ensures(AwaitEventOptions::with_step_name::<&str>, (options, name), r),
    ensures
        r.step_name is Some,
        r.step_name->0@ == name@,
        r.timeout_secs == options.timeout_secs,
{
}

/// A timeout is kept as it is given, and leaves the step name as it was.
pub proof fn law_timeout_is_set(options: AwaitEventOptions, secs: u64, r: AwaitEventOptions)
    requires
        call_ensures(AwaitEventOptions::with_timeout, (options, secs), r),
    ensures
        r.timeout_secs is Some,
        r.timeout_secs->0 == secs,
        r.step_name == options.step_name,
{
}

/// A copy of options holds the same.
pub proof fn law_copied_options_are_the_same(options: AwaitEventOptions, r: AwaitEventOptions)
    requires
        call_ensures(<AwaitEventOptions as Clone>::clone, (&options,), r),
    ensures
        r.timeout_secs == options.timeout_secs,
        r.step_name is Some <==> options.step_name is Some,
        r.step_name is Some ==> r.step_name->0@ == options.step_name->0@,
{
}

} // verus!
