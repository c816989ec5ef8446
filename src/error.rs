use vstd::prelude::*;

verus! {

/// The USB stack's error type, declared with its variants so that contracts
/// can name them.
#[verifier::external_type_specification]
pub struct ExUsbError(usb_device::UsbError);

/// USB audio errors, including errors of the USB stack.
#[derive(Debug)]
pub enum Error {
    /// A continuous rate range whose minimum is not below its maximum.
    InvalidValue,
    /// The packet size a stream needs exceeds the isochronous ceiling.
    BandwidthExceeded,
    /// The operation addresses a direction with no configured stream.
    StreamNotInitialized,
    /// An error reported by the USB stack.
    UsbError(usb_device::UsbError),
}

impl From<usb_device::UsbError> for Error {
    fn from(err: usb_device::UsbError) -> (r: Error) {
        Error::UsbError(err)
    }
}

impl vstd::std_specs::convert::FromSpecImpl<usb_device::UsbError> for Error {
    open spec fn obeys_from_spec() -> bool {
        true
    }

    open spec fn from_spec(err: usb_device::UsbError) -> Error {
        Error::UsbError(err)
    }
}

} // verus!
