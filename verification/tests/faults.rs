use peripheral_core::errors::RadioError;
use peripheral_core::errors::SensorError;
use peripheral_core::errors::describe_radio;
use peripheral_core::errors::describe_sensor;

#[test]
fn radio_faults_have_their_messages() {
    let cases = [
        (RadioError::NotInitialized, "esp-now: not initialized"),
        (RadioError::InvalidArgument, "esp-now: invalid argument"),
        (RadioError::OutOfMemory, "esp-now: insufficient memory to complete the operation"),
        (RadioError::PeerListFull, "esp-now: peer list is full"),
        (RadioError::NotFound, "esp-now: peer is not found"),
        (RadioError::InternalError, "esp-now: internal error"),
        (RadioError::PeerExists, "esp-now: peer already exists"),
        (RadioError::InterfaceError, "esp-now: interface error"),
        (RadioError::Unknown, "esp-now: unknown error"),
        (RadioError::SendFailed, "esp-now: failed to send message"),
        (RadioError::DuplicateInstance, "esp-now: duplicate instance"),
        (RadioError::WifiNotInitialized, "wifi init: not initialized"),
        (RadioError::WifiInternalError, "wifi init: internal error"),
        (RadioError::WifiDisconnected, "wifi init: disconnected"),
        (RadioError::WifiUnknownMode, "wifi init: unknown WiFi mode"),
        (RadioError::WifiUnsupported, "wifi init: unsupported"),
    ];
    for (fault, text) in cases {
        assert_eq!(describe_radio(&fault), text);
    }
}

#[test]
fn sensor_faults_have_their_messages() {
    let cases = [
        (SensorError::DmaInvalidAlignment, "spi: dmi: invalid alignment"),
        (SensorError::DmaOutOfDescriptors, "spi: dmi: out of descriptors"),
        (SensorError::DmaDescriptorError, "spi: dmi: descriptor error"),
        (SensorError::DmaOverflow, "spi: dmi: overflow"),
        (SensorError::DmaBufferTooSmall, "spi: dmi: buffer too small"),
        (SensorError::DmaUnsupportedMemoryRegion, "spi: dmi: unsupported_memory_region"),
        (SensorError::DmaInvalidChunkSize, "spi: dmi: invalid chunk size"),
        (SensorError::DmaLate, "spi: dmi: late"),
        (SensorError::MaxDmaTransferSize, "the maximum DMA transfer size was exceeded"),
        (SensorError::FifoSizeExceeded, "the FIFO size was exceeded during SPI communication"),
        (SensorError::Unsupported, "spi: the operation is unsupported"),
        (SensorError::Unknown, "spi: an unknown error occurred during SPI communication"),
        (SensorError::Other, "spi: unknown error"),
        (SensorError::ChipSelect, "spi: asserting or deasserting CS failed"),
    ];
    for (fault, text) in cases {
        assert_eq!(describe_sensor(&fault), text);
    }
}
