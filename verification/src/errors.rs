use vstd::prelude::*;

verus! {

/// The failures a run can end with. None is recovered from: each one
/// aborts the run that hit it.
#[derive(Clone, Copy, Debug, PartialEq, Eq, Structural)]
pub enum TransferError {
    /// The input file is unreadable or not a supported image format.
    DecodeError,
    /// The decoded image cannot be interpreted as strict 3-channel
    /// 8-bit RGB, or its dimensions cannot be represented.
    FormatError,
    /// No suitable GPU adapter or device is available.
    DeviceError,
    /// Mapping the readback buffer into host memory failed.
    MapError,
    /// Encoding or writing the output image failed.
    EncodeError,
    /// The command line lacks the input image argument.
    UsageError,
    /// An output directory could not be created.
    IoError,
}

} // verus!
