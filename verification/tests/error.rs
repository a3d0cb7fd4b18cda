use schismatic::error::Error;
use schismatic::error::ErrorInner;
use schismatic::error::check;
use schismatic::error::check_len;
use schismatic::error::LIBUSB_TRANSFER_CANCELED;
use schismatic::error::LIBUSB_TRANSFER_ERROR;
use schismatic::error::LIBUSB_TRANSFER_NO_DEVICE;
use schismatic::error::LIBUSB_TRANSFER_OVERFLOW;
use schismatic::error::LIBUSB_TRANSFER_STALL;
use schismatic::error::LIBUSB_TRANSFER_TIMED_OUT;

#[test]
fn check_zero_is_ok() {
    assert_eq!(check(0), Ok(()));
}

#[test]
fn check_nonzero_is_return_code_error() {
    assert_eq!(check(-5), Err(Error(ErrorInner::ReturnCode(-5))));
    assert_eq!(check(3), Err(Error(ErrorInner::ReturnCode(3))));
}

#[test]
fn check_len_non_negative_is_length() {
    assert_eq!(check_len(0), Ok(0));
    assert_eq!(check_len(7), Ok(7));
}

#[test]
fn check_len_negative_is_return_code_error() {
    assert_eq!(check_len(-3), Err(Error(ErrorInner::ReturnCode(-3))));
}

#[test]
fn transfer_messages_are_fixed() {
    let cases = [
        (LIBUSB_TRANSFER_ERROR, "Transfer error"),
        (LIBUSB_TRANSFER_TIMED_OUT, "Transfer timed out"),
        (LIBUSB_TRANSFER_CANCELED, "Transfer canceled"),
        (LIBUSB_TRANSFER_STALL, "Endpoint stalled during transfer"),
        (LIBUSB_TRANSFER_NO_DEVICE, "Device was disconnected"),
        (LIBUSB_TRANSFER_OVERFLOW, "Transfer overflowed"),
        (99, "Unknown transfer error"),
    ];
    for (status, message) in cases {
        let error = Error(ErrorInner::TransferStatus(status));
        assert_eq!(error.transfer_message(), Some(message));
    }
}

#[test]
fn return_code_error_has_no_fixed_message() {
    let error = Error(ErrorInner::ReturnCode(-1));
    assert_eq!(error.transfer_message(), None);
}
