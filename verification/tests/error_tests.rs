use accuchek::error::{protocol_error, AccuChekError, UsbError};

#[test]
fn messages_of_the_plain_failures() {
    assert_eq!(
        AccuChekError::PermissionDenied.message(),
        "Permission denied - must run as root/administrator"
    );
    assert_eq!(AccuChekError::NoDeviceFound.message(), "No Accu-Chek device found");
    assert_eq!(AccuChekError::EmptyDataSegment.message(), "Empty data segment");
    assert_eq!(AccuChekError::AssociationAborted.message(), "Association aborted by device");
    assert_eq!(AccuChekError::UnexpectedResponse.message(), "Unexpected response from device");
}

#[test]
fn messages_that_carry_a_text() {
    assert_eq!(AccuChekError::Io("no such file".to_string()).message(), "IO error: no such file");
    assert_eq!(
        AccuChekError::Json("bad value".to_string()).message(),
        "JSON serialization error: bad value"
    );
    assert_eq!(
        AccuChekError::Protocol("Attribute not found".to_string()).message(),
        "Protocol error: Attribute not found"
    );
    assert_eq!(
        AccuChekError::Communication("short".to_string()).message(),
        "Device communication error: short"
    );
    assert_eq!(
        AccuChekError::ConfigParse("line 3".to_string()).message(),
        "Config parse error: line 3"
    );
    assert_eq!(protocol_error("x y").message(), "Protocol error: x y");
}

#[test]
fn messages_that_carry_numbers() {
    assert_eq!(
        AccuChekError::DeviceNotWhitelisted(0x173a, 0x21d5).message(),
        "Device not in whitelist: vendor=0x173a, product=0x21d5"
    );
    assert_eq!(
        AccuChekError::DeviceNotWhitelisted(0x000b, 0xABCD).message(),
        "Device not in whitelist: vendor=0x000b, product=0xabcd"
    );
    assert_eq!(AccuChekError::InvalidDeviceIndex(0).message(), "Invalid device index: 0");
    assert_eq!(AccuChekError::InvalidDeviceIndex(12).message(), "Invalid device index: 12");
}

#[test]
fn messages_of_transport_failures() {
    assert_eq!(AccuChekError::Usb(UsbError::Timeout).message(), "USB error: Operation timed out");
    assert_eq!(AccuChekError::Usb(UsbError::Io).message(), "USB error: Input/Output Error");
    assert_eq!(UsbError::InvalidParam.description(), "Invalid parameter");
    assert_eq!(UsbError::Access.description(), "Access denied (insufficient permissions)");
    assert_eq!(
        UsbError::NoDevice.description(),
        "No such device (it may have been disconnected)"
    );
    assert_eq!(UsbError::NotFound.description(), "Entity not found");
    assert_eq!(UsbError::Busy.description(), "Resource busy");
    assert_eq!(UsbError::Overflow.description(), "Overflow");
    assert_eq!(UsbError::Pipe.description(), "Pipe error");
    assert_eq!(
        UsbError::Interrupted.description(),
        "System call interrupted (perhaps due to signal)"
    );
    assert_eq!(UsbError::NoMem.description(), "Insufficient memory");
    assert_eq!(
        UsbError::NotSupported.description(),
        "Operation not supported or unimplemented on this platform"
    );
    assert_eq!(UsbError::BadDescriptor.description(), "Malformed descriptor");
    assert_eq!(UsbError::Other.description(), "Other error");
}
