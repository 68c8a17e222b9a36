use vstd::prelude::*;

verus! {

/// Relies on `std::time::SystemTime::now` for the wall clock, reduced to
/// whole seconds since the Unix epoch; a clock before the epoch reads as
/// zero. The result depends on the machine's clock, so nothing is stated
/// of it.
#[verifier::external_body]
fn unix_time_secs() -> u64 {
    match std::time::SystemTime::now().duration_since(std::time::UNIX_EPOCH) {
        Ok(elapsed) => elapsed.as_secs(),
        Err(_) => 0,
    }
}

/// The current wall-clock time in whole seconds since the Unix epoch.
/// The value comes from the process clock, so no contract pins it down;
/// the verified logic takes timestamps as arguments instead.
pub fn get_current_time() -> u64 {
    unix_time_secs()
}

} // verus!
