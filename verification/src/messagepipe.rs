//! The capability every transport offers.

use vstd::prelude::*;
use crate::error::PipeError;

verus! {

/// One end of a bidirectional channel that carries whole messages: a byte
/// payload and at most one resource handle.
///
/// What a transport's `send` and `recv` can come to is the transport's own to
/// say, through `send_yields` and `recv_yields`; one that does not say leaves
/// every outcome open. Nothing else is promised here: code written against
/// this trait is verified for every transport.
pub trait CrossPlatformMessagePipe: Sized {
    /// Whether sending `message` with `handle` on this endpoint can leave the
    /// endpoint as `after` and answer `result`.
    open spec fn send_yields(
        &self,
        message: Seq<u8>,
        handle: Option<u64>,
        after: Self,
        result: Result<(), PipeError>,
    ) -> bool {
        true
    }

    /// Whether receiving on this endpoint can leave the endpoint as `after`
    /// and answer `result`.
    open spec fn recv_yields(
        &self,
        after: Self,
        result: Result<(Vec<u8>, Option<u64>), PipeError>,
    ) -> bool {
        true
    }

    /// The raw values of the handles this endpoint owns, in the order
    /// `from_raw_handles` takes them back.
    fn as_handles(&self) -> Vec<u64>;

    /// Rebuilds an endpoint from raw handle values obtained from
    /// `as_handles`, for instance across the creation of a process.
    fn from_raw_handles(handles: Vec<u64>) -> Result<Self, PipeError>;

    /// Creates two connected endpoints.
    fn new() -> Result<(Self, Self), PipeError>;

    /// Makes the peer process known, where handing over a handle needs it.
    fn set_remote_pid(&mut self, pid: u64);

    /// Blocks until one whole message has arrived.
    fn recv(&mut self) -> (r: Result<(Vec<u8>, Option<u64>), PipeError>)
        ensures
            old(self).recv_yields(*final(self), r),
    ;

    /// Sends one message.
    fn send(&mut self, message: &[u8], handle: Option<u64>) -> (r: Result<(), PipeError>)
        ensures
            old(self).send_yields(message@, handle, *final(self), r),
    ;
}

} // verus!
