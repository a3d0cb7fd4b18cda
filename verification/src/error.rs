//! Error taxonomy: a synchronous native driver call that returned a
//! non-zero status (`ReturnCode`), or an asynchronous transfer that
//! completed with a non-"completed" status (`TransferStatus`).

use vstd::prelude::*;

verus! {

pub const LIBUSB_TRANSFER_COMPLETED: i32 = 0;
pub const LIBUSB_TRANSFER_ERROR: i32 = 1;
pub const LIBUSB_TRANSFER_TIMED_OUT: i32 = 2;
pub const LIBUSB_TRANSFER_CANCELED: i32 = 3;
pub const LIBUSB_TRANSFER_STALL: i32 = 4;
pub const LIBUSB_TRANSFER_NO_DEVICE: i32 = 5;
pub const LIBUSB_TRANSFER_OVERFLOW: i32 = 6;

#[derive(Debug, Clone, Copy, PartialEq, Eq, Structural)]
pub enum ErrorInner {
    ReturnCode(i32),
    TransferStatus(i32),
}

#[derive(Debug, Clone, Copy, PartialEq, Eq, Structural)]
pub struct Error(pub ErrorInner);

/// Maps a native call's return code to a result: zero means success,
/// anything else is surfaced as a `ReturnCode` error.
pub fn check(code: i32) -> (r: Result<(), Error>)
    ensures
        code == 0 <==> r is Ok,
        code != 0 ==> r == Result::<(), Error>::Err(Error(ErrorInner::ReturnCode(code))),
{
    match code {
        0 => Ok(()),
        _ => Err(Error(ErrorInner::ReturnCode(code))),
    }
}

/// Maps a native call's length-or-error return value to a result: a
/// non-negative value is the length, a negative one a `ReturnCode` error.
pub fn check_len(len: i32) -> (r: Result<usize, Error>)
    ensures
        len >= 0 <==> r is Ok,
        len >= 0 ==> r == Result::<usize, Error>::Ok(len as usize),
        len < 0 ==> r == Result::<usize, Error>::Err(Error(ErrorInner::ReturnCode(len))),
{
    if len >= 0 {
        Ok(len as usize)
    } else {
        Err(Error(ErrorInner::ReturnCode(len)))
    }
}

impl Error {
    /// The fixed descriptive message for a transfer-completion status.
    /// A `ReturnCode` error has no fixed message: the native driver's own
    /// string-rendering call supplies one, outside this library.
    pub fn transfer_message(&self) -> (r: Option<&'static str>)
        ensures
            r is Some <==> self.0 is TransferStatus,
            self.0 == ErrorInner::TransferStatus(LIBUSB_TRANSFER_STALL)
                ==> r == Some("Endpoint stalled during transfer"),
            self.0 == ErrorInner::TransferStatus(LIBUSB_TRANSFER_ERROR)
                ==> r == Some("Transfer error"),
            self.0 == ErrorInner::TransferStatus(LIBUSB_TRANSFER_TIMED_OUT)
                ==> r == Some("Transfer timed out"),
            self.0 == ErrorInner::TransferStatus(LIBUSB_TRANSFER_CANCELED)
                ==> r == Some("Transfer canceled"),
            self.0 == ErrorInner::TransferStatus(LIBUSB_TRANSFER_NO_DEVICE)
                ==> r == Some("Device was disconnected"),
            self.0 == ErrorInner::TransferStatus(LIBUSB_TRANSFER_OVERFLOW)
                ==> r == Some("Transfer overflowed"),
    {
        match self.0 {
            ErrorInner::ReturnCode(_) => None,
            ErrorInner::TransferStatus(status) => {
                if status == LIBUSB_TRANSFER_ERROR {
                    Some("Transfer error")
                } else if status == LIBUSB_TRANSFER_TIMED_OUT {
                    Some("Transfer timed out")
                } else if status == LIBUSB_TRANSFER_CANCELED {
                    Some("Transfer canceled")
                } else if status == LIBUSB_TRANSFER_STALL {
                    Some("Endpoint stalled during transfer")
                } else if status == LIBUSB_TRANSFER_NO_DEVICE {
                    Some("Device was disconnected")
                } else if status == LIBUSB_TRANSFER_OVERFLOW {
                    Some("Transfer overflowed")
                } else {
                    Some("Unknown transfer error")
                }
            }
        }
    }
}

} // verus!
