//! What a network device asks of its backend.
use crate::utils::epoll::Pollable;
use crate::utils::os_error::OsError;
use vstd::prelude::*;

verus! {

/// Why a backend could not be set up.
#[derive(Debug)]
pub enum ConnectError {
    InvalidAddress(i32),
    CreateSocket(i32),
    Binding(i32),
    SendingMagic(i32),
    OpenNetTun(i32),
    TunSetIff(OsError),
    TunSetVnetHdrSz(OsError),
    TunSetOffload(OsError),
}

/// Why no frame was read.
#[derive(Debug)]
pub enum ReadError {
    /// Nothing was written
    NothingRead,
    /// Another internal error occurred
    Internal(OsError),
}

/// Why a frame was not written.
#[derive(Debug)]
pub enum WriteError {
    /// Nothing was written, you can drop the frame or try to resend it later
    NothingWritten,
    /// Part of the buffer was written, the write has to be finished using try_finish_write
    PartialWrite,
    /// Passt doesnt seem to be running (received EPIPE)
    ProcessNotRunning,
    /// Another internal error occurred
    Internal(OsError),
}

/// Exchange of frames with the network. Every frame in a buffer has a header
/// in front.
pub trait NetBackend {
    /// How many bytes a buffer for reading has at least.
    spec fn least_buffer(&self) -> nat;

    /// Reads a frame and returns how many bytes of the buffer it takes.
    fn read_frame(&mut self, buf: &mut [u8]) -> Result<usize, ReadError>
        requires
            old(buf)@.len() >= old(self).least_buffer(),
    ;

    /// Writes the frame behind the header.
    fn write_frame(&mut self, hdr_len: usize, buf: &mut [u8]) -> Result<(), WriteError>;

    /// A part of a frame is still to be written.
    fn has_unfinished_write(&self) -> bool;

    /// Goes on writing a frame.
    fn try_finish_write(&mut self, hdr_len: usize, buf: &[u8]) -> Result<(), WriteError>;

    /// The handle that is signalled when there is something to read.
    fn raw_socket_fd(&self) -> Pollable;

    /// Delay in microseconds before retrying after NothingWritten.
    /// Returns 0 if no delay-based retry is needed.
    fn write_retry_delay_us(&self) -> (delay: u64)
        default_ensures
            delay == 0,
    {
        0
    }
}

} // verus!
