use vstd::prelude::*;

verus! {

// The backend's two real-world capabilities: the system clipboard and the
// monotonic clock. Both are inherently environment-dependent, so the
// trusted contracts below promise nothing of the values they yield; every
// caller in this library is verified for every possible outcome.

#[verifier::external_type_specification]
#[verifier::external_body]
pub struct ExInstant(std::time::Instant);

/// Relies on std::time::Instant::now: an opaque reading of the monotonic
/// clock, taken at construction time.
#[verifier::external_body]
pub(crate) fn instant_now() -> std::time::Instant {
    std::time::Instant::now()
}

/// Relies on std::time::Instant::elapsed: the time since `start`, converted
/// to whole milliseconds. The clock decides the value, so nothing is stated
/// of it.
#[verifier::external_body]
pub(crate) fn millis_since(start: &std::time::Instant) -> u64 {
    start.elapsed().as_millis() as u64
}

/// Relies on cli_clipboard::get_contents: reads the system clipboard. A
/// read failure of any kind arrives as `None`; the environment decides the
/// outcome, so nothing is stated of it.
#[verifier::external_body]
pub(crate) fn clipboard_get() -> Option<String> {
    cli_clipboard::get_contents().ok()
}

/// Relies on cli_clipboard::set_contents: writes the system clipboard and
/// reports whether the write succeeded. The environment decides the
/// outcome, so nothing is stated of it.
#[verifier::external_body]
pub(crate) fn clipboard_set(text: String) -> bool {
    cli_clipboard::set_contents(text).is_ok()
}

} // verus!
