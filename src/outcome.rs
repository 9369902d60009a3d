use vstd::prelude::*;

verus! {

/// Nanoseconds in one second.
pub const NANOS_PER_SEC: u64 = 1_000_000_000;

/// Whole seconds from `start_ns` to `end_ns`, both read from one monotonic
/// clock; zero when the end lies before the start.
pub open spec fn spec_elapsed_secs(start_ns: u64, end_ns: u64) -> u64 {
    if end_ns >= start_ns {
        ((end_ns - start_ns) / (NANOS_PER_SEC as int)) as u64
    } else {
        0
    }
}

/// The status text of a scenario that succeeded.
pub open spec fn ok_status() -> Seq<char> {
    seq!['O', 'k']
}

/// A scenario that succeeded: elapsed seconds are present and the status is "Ok".
pub open spec fn is_success(r: (Option<u64>, String)) -> bool {
    r.0 is Some && r.1@ == ok_status()
}

/// A scenario that failed: no elapsed seconds, and a message that says why.
pub open spec fn is_failure(r: (Option<u64>, String)) -> bool {
    r.0 is None && r.1@.len() > 0
}

/// Whole seconds between two readings of a monotonic clock, in nanoseconds.
pub fn elapsed_secs(start_ns: u64, end_ns: u64) -> (r: u64)
    ensures
        r == spec_elapsed_secs(start_ns, end_ns),
{
    if end_ns >= start_ns {
        (end_ns - start_ns) / NANOS_PER_SEC
    } else {
        0
    }
}

/// The result of a scenario that succeeded after `elapsed` seconds.
pub fn test_ok(elapsed: u64) -> (r: (Option<u64>, String))
    ensures
        r.0 == Some(elapsed),
        r.1@ == ok_status(),
        is_success(r),
{
    let status = String::from_str("Ok");
    proof {
        reveal_strlit("Ok");
        assert(status@ =~= ok_status());
    }
    (Some(elapsed), status)
}

/// The result of a scenario that failed with the message `err`.
pub fn test_err(err: &str) -> (r: (Option<u64>, String))
    ensures
        r.0 is None,
        r.1@ == err@,
{
    (None, String::from_str(err))
}

} // verus!
