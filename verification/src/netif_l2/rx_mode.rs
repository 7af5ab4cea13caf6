//! Only direct reception is supported: messages of the queued mode are refused.
//!
//! The native producer frees its own buffer when a post is refused with the
//! release status, so a refusal neither frees nor borrows the payload.

use vstd::prelude::*;

verus! {

/// The message of the queued reception mode.
pub const RX_DATA_MESSAGE: u16 = 595;

/// The native status that refuses a message and leaves its buffer to the sender.
pub const NATIVE_REJECT_AND_RELEASE: i32 = 103;

/// The fault of a stop while queued reception was in use.
pub const UNSUPPORTED_QUEUED_RX: i32 = -0x1024;

/// Refuse a message of the queued mode, and forward every other one exactly once.
pub fn post<R: FnOnce(), F: FnOnce() -> i32>(message: u16, reject: R, forward: F) -> (status: i32)
    requires
        message == RX_DATA_MESSAGE ==> reject.requires(()),
        message != RX_DATA_MESSAGE ==> forward.requires(()),
    ensures
        message == RX_DATA_MESSAGE ==> status == NATIVE_REJECT_AND_RELEASE && reject.ensures(
            (),
            (),
        ),
        message != RX_DATA_MESSAGE ==> forward.ensures((), status),
{
    if message == RX_DATA_MESSAGE {
        reject();
        NATIVE_REJECT_AND_RELEASE
    } else {
        forward()
    }
}

} // verus!
