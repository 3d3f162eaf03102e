//! The vocabulary between the driver and whatever moves bytes for it.
//!
//! The driver never touches a bus. It names one operation at a time as a
//! [`Request`]; the transport performs it and reports back with a [`Reply`].

use vstd::prelude::*;

verus! {

/// One operation that the driver asks of the transport.
#[derive(Clone, Copy, Debug, PartialEq, Eq, Structural)]
pub enum Request {
    /// Send the register address `reg` to the device at `addr`, then read
    /// `len` bytes, which are the registers from `reg` upwards.
    Read { addr: u8, reg: u8, len: usize },
    /// Send the register address `reg` and one byte for it to the device at
    /// `addr`.
    Write { addr: u8, reg: u8, value: u8 },
    /// Let `ms` milliseconds pass.
    Delay { ms: u8 },
}

/// What the transport reports of the operation it was asked for.
#[derive(Debug, PartialEq, Eq)]
pub enum Reply<E> {
    /// The read went through; these are the bytes, in register order.
    Data(Vec<u8>),
    /// The write went through, or the time has passed.
    Done,
    /// The bus failed, with the transport's own error.
    Failed(E),
}

impl<E> Reply<E> {
    /// The bytes that came with the reply; none unless it is `Data`.
    pub open spec fn data(self) -> Seq<u8> {
        match self {
            Reply::Data(bytes) => bytes@,
            _ => Seq::empty(),
        }
    }

    /// Whether the reply reports success of `request`: as many bytes as a
    /// read asked for, or `Done` for a write or a delay.
    pub open spec fn answers(self, request: Request) -> bool {
        match request {
            Request::Read { len, .. } => self is Data && self.data().len() == len,
            Request::Write { .. } => self is Done,
            Request::Delay { .. } => self is Done,
        }
    }
}

} // verus!
