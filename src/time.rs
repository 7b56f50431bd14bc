use vstd::prelude::*;

verus! {

/// Milliseconds since the Unix epoch, read from the system clock. Relies on
/// `std::time::SystemTime::now`; a clock set before the epoch reads as zero.
#[verifier::external_body]
pub fn get_unix_epoch_timestamp() -> (r: u128) {
    std::time::SystemTime::now().duration_since(std::time::UNIX_EPOCH).unwrap_or_default().as_millis()
}

} // verus!
