//! Collaborator faults and their messages.
//!
//! The radio driver and the touch sensor report their faults through their
//! own error types; the dispatcher answers each with an error response
//! whose text names the fault.  The caller translates the driver's error
//! value into these enums at the trust boundary, once; the mapping from
//! fault to message is verified here.

use vstd::prelude::*;
use vstd::string::StringExecFns;

verus! {

/// Transport-level faults of the radio layer: the driver's own errors, a
/// failed send, a duplicate driver instance, and the faults of the wifi
/// initialization underneath it.
#[derive(Clone, Copy, PartialEq, Eq, Structural, Debug)]
pub enum RadioError {
    NotInitialized,
    InvalidArgument,
    OutOfMemory,
    PeerListFull,
    NotFound,
    InternalError,
    PeerExists,
    InterfaceError,
    Unknown,
    SendFailed,
    DuplicateInstance,
    WifiNotInitialized,
    WifiInternalError,
    WifiDisconnected,
    WifiUnknownMode,
    WifiUnsupported,
}

/// The message for each radio fault.
pub open spec fn radio_error_text(e: RadioError) -> Seq<char> {
    match e {
        RadioError::NotInitialized => "esp-now: not initialized"@,
        RadioError::InvalidArgument => "esp-now: invalid argument"@,
        RadioError::OutOfMemory => "esp-now: insufficient memory to complete the operation"@,
        RadioError::PeerListFull => "esp-now: peer list is full"@,
        RadioError::NotFound => "esp-now: peer is not found"@,
        RadioError::InternalError => "esp-now: internal error"@,
        RadioError::PeerExists => "esp-now: peer already exists"@,
        RadioError::InterfaceError => "esp-now: interface error"@,
        RadioError::Unknown => "esp-now: unknown error"@,
        RadioError::SendFailed => "esp-now: failed to send message"@,
        RadioError::DuplicateInstance => "esp-now: duplicate instance"@,
        RadioError::WifiNotInitialized => "wifi init: not initialized"@,
        RadioError::WifiInternalError => "wifi init: internal error"@,
        RadioError::WifiDisconnected => "wifi init: disconnected"@,
        RadioError::WifiUnknownMode => "wifi init: unknown WiFi mode"@,
        RadioError::WifiUnsupported => "wifi init: unsupported"@,
    }
}

/// Build the message for a radio fault.
pub fn describe_radio(e: &RadioError) -> (r: String)
    ensures
        r@ == radio_error_text(*e),
{
    match e {
        RadioError::NotInitialized => String::from_str("esp-now: not initialized"),
        RadioError::InvalidArgument => String::from_str("esp-now: invalid argument"),
        RadioError::OutOfMemory => String::from_str(
            "esp-now: insufficient memory to complete the operation",
        ),
        RadioError::PeerListFull => String::from_str("esp-now: peer list is full"),
        RadioError::NotFound => String::from_str("esp-now: peer is not found"),
        RadioError::InternalError => String::from_str("esp-now: internal error"),
        RadioError::PeerExists => String::from_str("esp-now: peer already exists"),
        RadioError::InterfaceError => String::from_str("esp-now: interface error"),
        RadioError::Unknown => String::from_str("esp-now: unknown error"),
        RadioError::SendFailed => String::from_str("esp-now: failed to send message"),
        RadioError::DuplicateInstance => String::from_str("esp-now: duplicate instance"),
        RadioError::WifiNotInitialized => String::from_str("wifi init: not initialized"),
        RadioError::WifiInternalError => String::from_str("wifi init: internal error"),
        RadioError::WifiDisconnected => String::from_str("wifi init: disconnected"),
        RadioError::WifiUnknownMode => String::from_str("wifi init: unknown WiFi mode"),
        RadioError::WifiUnsupported => String::from_str("wifi init: unsupported"),
    }
}

/// Faults of the touch sensor's SPI link: the DMA faults underneath it,
/// the SPI driver's own faults, and a failed chip-select toggle.
#[derive(Clone, Copy, PartialEq, Eq, Structural, Debug)]
pub enum SensorError {
    DmaInvalidAlignment,
    DmaOutOfDescriptors,
    DmaDescriptorError,
    DmaOverflow,
    DmaBufferTooSmall,
    DmaUnsupportedMemoryRegion,
    DmaInvalidChunkSize,
    DmaLate,
    MaxDmaTransferSize,
    FifoSizeExceeded,
    Unsupported,
    Unknown,
    Other,
    ChipSelect,
}

/// The message for each sensor fault.
pub open spec fn sensor_error_text(e: SensorError) -> Seq<char> {
    match e {
        SensorError::DmaInvalidAlignment => "spi: dmi: invalid alignment"@,
        SensorError::DmaOutOfDescriptors => "spi: dmi: out of descriptors"@,
        SensorError::DmaDescriptorError => "spi: dmi: descriptor error"@,
        SensorError::DmaOverflow => "spi: dmi: overflow"@,
        SensorError::DmaBufferTooSmall => "spi: dmi: buffer too small"@,
        SensorError::DmaUnsupportedMemoryRegion => "spi: dmi: unsupported_memory_region"@,
        SensorError::DmaInvalidChunkSize => "spi: dmi: invalid chunk size"@,
        SensorError::DmaLate => "spi: dmi: late"@,
        SensorError::MaxDmaTransferSize => "the maximum DMA transfer size was exceeded"@,
        SensorError::FifoSizeExceeded => "the FIFO size was exceeded during SPI communication"@,
        SensorError::Unsupported => "spi: the operation is unsupported"@,
        SensorError::Unknown => "spi: an unknown error occurred during SPI communication"@,
        SensorError::Other => "spi: unknown error"@,
        SensorError::ChipSelect => "spi: asserting or deasserting CS failed"@,
    }
}

/// Build the message for a sensor fault.
pub fn describe_sensor(e: &SensorError) -> (r: String)
    ensures
        r@ == sensor_error_text(*e),
{
    match e {
        SensorError::DmaInvalidAlignment => String::from_str("spi: dmi: invalid alignment"),
        SensorError::DmaOutOfDescriptors => String::from_str("spi: dmi: out of descriptors"),
        SensorError::DmaDescriptorError => String::from_str("spi: dmi: descriptor error"),
        SensorError::DmaOverflow => String::from_str("spi: dmi: overflow"),
        SensorError::DmaBufferTooSmall => String::from_str("spi: dmi: buffer too small"),
        SensorError::DmaUnsupportedMemoryRegion => String::from_str(
            "spi: dmi: unsupported_memory_region",
        ),
        SensorError::DmaInvalidChunkSize => String::from_str("spi: dmi: invalid chunk size"),
        SensorError::DmaLate => String::from_str("spi: dmi: late"),
        SensorError::MaxDmaTransferSize => String::from_str(
            "the maximum DMA transfer size was exceeded",
        ),
        SensorError::FifoSizeExceeded => String::from_str(
            "the FIFO size was exceeded during SPI communication",
        ),
        SensorError::Unsupported => String::from_str("spi: the operation is unsupported"),
        SensorError::Unknown => String::from_str(
            "spi: an unknown error occurred during SPI communication",
        ),
        SensorError::Other => String::from_str("spi: unknown error"),
        SensorError::ChipSelect => String::from_str("spi: asserting or deasserting CS failed"),
    }
}

} // verus!
