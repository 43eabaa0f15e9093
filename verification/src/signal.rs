//! The cooperative cancellation flag shared between a supervisor and its
//! running task.
//!
//! The flag is a single shared bit: any handle may set it, every handle reads
//! it, and once set it never resets. Because other handles may flip the bit
//! concurrently, nothing useful can be promised here about the value a read
//! returns; verified code that consumes a reading takes it as a plain `bool`
//! argument and is proved for both values.

use vstd::prelude::*;

verus! {

#[verifier::external_type_specification]
#[verifier::external_body]
pub struct ExCancellationToken(tokio_util::sync::CancellationToken);

/// A shared, clonable cancellation flag. A fresh signal is unset; `cancel`
/// sets it, idempotently, and every handle cloned from the same signal then
/// reads it as set.
pub struct CancelSignal {
    token: tokio_util::sync::CancellationToken,
}

impl CancelSignal {
    /// Relies on `tokio_util::sync::CancellationToken::new`: returns a fresh
    /// token, not yet cancelled and shared with no other handle.
    #[verifier::external_body]
    pub fn new() -> CancelSignal {
        CancelSignal { token: tokio_util::sync::CancellationToken::new() }
    }

    /// Relies on `Clone for tokio_util::sync::CancellationToken`: the clone
    /// shares the flag, so cancelling either handle cancels both.
    #[verifier::external_body]
    pub fn duplicate(&self) -> CancelSignal {
        CancelSignal { token: self.token.clone() }
    }

    /// Relies on `tokio_util::sync::CancellationToken::cancel`: sets the
    /// shared flag; calling it again has no further effect.
    #[verifier::external_body]
    pub fn cancel(&self) {
        self.token.cancel();
    }

    /// Relies on `tokio_util::sync::CancellationToken::is_cancelled`: a
    /// non-blocking read of the shared flag. Another handle may set the flag
    /// at any moment, so no outcome is promised.
    #[verifier::external_body]
    pub fn is_cancelled(&self) -> bool {
        self.token.is_cancelled()
    }
}

} // verus!
