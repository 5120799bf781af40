//! The two-wire bus that the chip sits on, as the driver needs it.

use vstd::prelude::*;

verus! {

/// A two-wire serial bus on which this side is the controller.
///
/// Both operations are synchronous: when a call returns, the transaction is
/// over or has failed. What a failure leaves behind on the bus or in
/// `response` is the implementation's affair.
pub trait Bus {
    /// What the bus reports when a transaction fails.
    type Error;

    /// Sends `request` to the device at `address`, then reads from it until
    /// `response` is full, in one transaction.
    fn write_read(&mut self, address: u8, request: &[u8], response: &mut [u8]) -> Result<
        (),
        Self::Error,
    >;

    /// Sends `bytes` to the device at `address`.
    fn write(&mut self, address: u8, bytes: &[u8]) -> Result<(), Self::Error>;
}

/// One transaction as the driver issued it, with what came back.
pub enum Transaction<E> {
    /// A `write_read`: what was sent, what `response` held on return, and
    /// the error that the bus reported, if any.
    WriteRead { address: u8, request: Seq<u8>, response: Seq<u8>, failure: Option<E> },
    /// A `write`: what was sent, and the error that the bus reported, if any.
    Write { address: u8, bytes: Seq<u8>, failure: Option<E> },
}

impl<E> Transaction<E> {
    /// The error that the bus reported; `None` where the transaction
    /// succeeded.
    pub open spec fn failure(self) -> Option<E> {
        match self {
            Transaction::WriteRead { failure, .. } => failure,
            Transaction::Write { failure, .. } => failure,
        }
    }

    /// Whether this is a read of `len` registers, starting with register
    /// `first`, from the device at `address`.
    pub open spec fn is_read(self, address: u8, first: u8, len: nat) -> bool {
        self matches Transaction::WriteRead { address: a, request, response, .. } && a == address
            && request.len() == 1 && request[0] == first && response.len() == len
    }

    /// Whether this sends `frame` to the device at `address`.
    pub open spec fn is_write(self, address: u8, frame: Seq<u8>) -> bool {
        self matches Transaction::Write { address: a, bytes, .. } && a == address && bytes == frame
    }

    /// What a read brought back; empty for a write.
    pub open spec fn response(self) -> Seq<u8> {
        match self {
            Transaction::WriteRead { response, .. } => response,
            Transaction::Write { .. } => Seq::empty(),
        }
    }
}

} // verus!
