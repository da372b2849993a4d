use accuchek::config::Config;
use accuchek::device::{
    check_device, match_shape, select_device, AccuChekDevice, AltSettingInfo, ConfigInfo,
    DeviceInfo, EndpointInfo, InterfaceInfo, OpenProbe, ShapeMatch,
};
use accuchek::error::AccuChekError;
use accuchek::usb::{request_type, Direction, Recipient, RequestType, TransferType};

fn endpoint(address: u8, direction: Direction) -> EndpointInfo {
    EndpointInfo { address, max_packet_size: 64, transfer_type: TransferType::Bulk, direction }
}

fn device_with(endpoints: Vec<EndpointInfo>) -> DeviceInfo {
    DeviceInfo {
        vendor_id: 0x173a,
        product_id: 0x21d5,
        bus_number: 3,
        address: 11,
        num_configurations: 1,
        manufacturer_string_index: Some(1),
        product_string_index: Some(2),
        first_config: Some(ConfigInfo {
            number: 1,
            interfaces: vec![InterfaceInfo {
                alt_settings: vec![AltSettingInfo {
                    interface_number: 0,
                    setting_number: 0,
                    endpoints,
                }],
            }],
        }),
    }
}

fn meter() -> DeviceInfo {
    device_with(vec![endpoint(0x81, Direction::In), endpoint(0x02, Direction::Out)])
}

fn whitelist(key: &str, enabled: bool) -> Config {
    let mut config = Config::default();
    config.devices.insert(key.to_string(), enabled);
    config
}

fn opened(vendor: Option<&str>, product: Option<&str>) -> OpenProbe {
    OpenProbe::Opened {
        vendor: vendor.map(|s| s.to_string()),
        product: product.map(|s| s.to_string()),
    }
}

#[test]
fn shape_of_the_meter_matches() {
    assert_eq!(
        match_shape(&meter()),
        Some(ShapeMatch {
            config_value: 1,
            interface_number: 0,
            alternate_setting: 0,
            send_endpoint: 0x02,
            receive_endpoint: 0x81,
        })
    );
}

#[test]
fn shape_matches_with_the_endpoints_in_either_order() {
    let info = device_with(vec![endpoint(0x03, Direction::Out), endpoint(0x84, Direction::In)]);
    let shape = match_shape(&info).unwrap();
    assert_eq!(shape.send_endpoint, 0x03);
    assert_eq!(shape.receive_endpoint, 0x84);
}

#[test]
fn shape_carries_the_numbers_of_the_descriptors() {
    let mut info = meter();
    let config = info.first_config.as_mut().unwrap();
    config.number = 4;
    config.interfaces[0].alt_settings[0].interface_number = 2;
    config.interfaces[0].alt_settings[0].setting_number = 5;
    let shape = match_shape(&info).unwrap();
    assert_eq!(shape.config_value, 4);
    assert_eq!(shape.interface_number, 2);
    assert_eq!(shape.alternate_setting, 5);
}

#[test]
fn two_configurations_are_no_match() {
    let mut info = meter();
    info.num_configurations = 2;
    assert_eq!(match_shape(&info), None);
    let config = whitelist("vendor_0x173a_device_0x21d5", true);
    assert!(check_device(&info, &opened(Some("Roche"), Some("Meter")), &config).is_none());
}

#[test]
fn an_unread_configuration_is_no_match() {
    let mut info = meter();
    info.first_config = None;
    assert_eq!(match_shape(&info), None);
}

#[test]
fn two_interfaces_or_none_are_no_match() {
    let mut info = meter();
    info.first_config.as_mut().unwrap().interfaces.push(InterfaceInfo { alt_settings: vec![] });
    assert_eq!(match_shape(&info), None);
    let mut info = meter();
    info.first_config.as_mut().unwrap().interfaces.clear();
    assert_eq!(match_shape(&info), None);
}

#[test]
fn two_alternate_settings_or_none_are_no_match() {
    let mut info = meter();
    info.first_config.as_mut().unwrap().interfaces[0].alt_settings.push(AltSettingInfo {
        interface_number: 0,
        setting_number: 1,
        endpoints: vec![endpoint(0x81, Direction::In), endpoint(0x02, Direction::Out)],
    });
    assert_eq!(match_shape(&info), None);
    let mut info = meter();
    info.first_config.as_mut().unwrap().interfaces[0].alt_settings.clear();
    assert_eq!(match_shape(&info), None);
}

#[test]
fn one_or_three_endpoints_are_no_match() {
    let info = device_with(vec![endpoint(0x81, Direction::In)]);
    assert_eq!(match_shape(&info), None);
    let info = device_with(vec![
        endpoint(0x81, Direction::In),
        endpoint(0x02, Direction::Out),
        endpoint(0x83, Direction::In),
    ]);
    assert_eq!(match_shape(&info), None);
    assert_eq!(match_shape(&device_with(vec![])), None);
}

#[test]
fn two_bulk_in_endpoints_are_no_match() {
    let info = device_with(vec![endpoint(0x81, Direction::In), endpoint(0x82, Direction::In)]);
    assert_eq!(match_shape(&info), None);
    let info = device_with(vec![endpoint(0x01, Direction::Out), endpoint(0x02, Direction::Out)]);
    assert_eq!(match_shape(&info), None);
}

#[test]
fn interrupt_endpoints_are_no_match() {
    let mut input = endpoint(0x81, Direction::In);
    input.transfer_type = TransferType::Interrupt;
    let info = device_with(vec![input, endpoint(0x02, Direction::Out)]);
    assert_eq!(match_shape(&info), None);
    let mut output = endpoint(0x02, Direction::Out);
    output.transfer_type = TransferType::Isochronous;
    let info = device_with(vec![endpoint(0x81, Direction::In), output]);
    assert_eq!(match_shape(&info), None);
}

#[test]
fn another_packet_size_is_no_match() {
    let mut input = endpoint(0x81, Direction::In);
    input.max_packet_size = 512;
    let info = device_with(vec![input, endpoint(0x02, Direction::Out)]);
    assert_eq!(match_shape(&info), None);
    let mut output = endpoint(0x02, Direction::Out);
    output.max_packet_size = 8;
    let info = device_with(vec![endpoint(0x81, Direction::In), output]);
    assert_eq!(match_shape(&info), None);
}

#[test]
fn a_whitelisted_meter_is_a_candidate() {
    let config = whitelist("vendor_0x173a_device_0x21d5", true);
    let device = check_device(&meter(), &opened(Some("Roche"), Some("Accu-Chek")), &config).unwrap();
    assert_eq!(device.vendor_id, 0x173a);
    assert_eq!(device.product_id, 0x21d5);
    assert_eq!(device.vendor, "Roche");
    assert_eq!(device.product, "Accu-Chek");
    assert_eq!(device.bus_number, 3);
    assert_eq!(device.device_address, 11);
    assert_eq!(device.config_value, 1);
    assert_eq!(device.interface_number, 0);
    assert_eq!(device.alternate_setting, 0);
    assert_eq!(device.send_endpoint, 0x02);
    assert_eq!(device.receive_endpoint, 0x81);
}

#[test]
fn unread_strings_become_unknown() {
    let config = whitelist("vendor_0x173a_device_0x21d5", true);
    let device = check_device(&meter(), &opened(None, Some("Accu-Chek")), &config).unwrap();
    assert_eq!(device.vendor, "Unknown");
    assert_eq!(device.product, "Accu-Chek");
    let device = check_device(&meter(), &opened(Some("Roche"), None), &config).unwrap();
    assert_eq!(device.vendor, "Roche");
    assert_eq!(device.product, "Unknown");
}

#[test]
fn a_device_off_the_whitelist_is_no_candidate() {
    let probe = opened(Some("Roche"), Some("Accu-Chek"));
    assert!(check_device(&meter(), &probe, &Config::default()).is_none());
    let disabled = whitelist("vendor_0x173a_device_0x21d5", false);
    assert!(check_device(&meter(), &probe, &disabled).is_none());
    let other = whitelist("vendor_0x173a_device_0x21d7", true);
    assert!(check_device(&meter(), &probe, &other).is_none());
    let capitals = whitelist("vendor_0x173A_device_0x21D5", true);
    assert!(check_device(&meter(), &probe, &capitals).is_none());
}

#[test]
fn a_device_that_cannot_be_opened_is_no_candidate() {
    let config = whitelist("vendor_0x173a_device_0x21d5", true);
    assert!(check_device(&meter(), &OpenProbe::OpenFailed, &config).is_none());
}

#[test]
fn a_device_without_a_string_index_is_a_candidate_with_unknown_strings() {
    let config = whitelist("vendor_0x173a_device_0x21d5", true);
    let mut info = meter();
    info.manufacturer_string_index = None;
    let device = check_device(&info, &opened(None, Some("Accu-Chek")), &config).unwrap();
    assert_eq!(device.vendor, "Unknown");
    assert_eq!(device.product, "Accu-Chek");
    let mut info = meter();
    info.product_string_index = None;
    let device = check_device(&info, &opened(Some("Roche"), None), &config).unwrap();
    assert_eq!(device.vendor, "Roche");
    assert_eq!(device.product, "Unknown");
    let mut info = meter();
    info.manufacturer_string_index = None;
    info.product_string_index = None;
    let device = check_device(&info, &opened(None, None), &config).unwrap();
    assert_eq!(device.vendor, "Unknown");
    assert_eq!(device.product, "Unknown");
    assert_eq!(device.send_endpoint, 0x02);
    assert_eq!(device.receive_endpoint, 0x81);
    // The whitelist still decides.
    assert!(check_device(&info, &opened(None, None), &Config::default()).is_none());
}

#[test]
fn whitelist_keys_are_four_lower_case_hex_digits() {
    let config = whitelist("vendor_0x000b_device_0xabcd", true);
    assert!(config.is_device_valid(0x000b, 0xabcd));
    assert!(!config.is_device_valid(0x00b0, 0xabcd));
    assert!(!config.is_device_valid(0x000b, 0xabce));
    assert!(!Config::default().is_device_valid(0x000b, 0xabcd));
    assert!(!whitelist("vendor_0x000b_device_0xabcd", false).is_device_valid(0x000b, 0xabcd));
    assert!(!whitelist("vendor_0xb_device_0xabcd", true).is_device_valid(0x000b, 0xabcd));
}

#[test]
fn select_device_takes_the_first_by_default() {
    assert_eq!(select_device(1, None).unwrap(), 0);
    assert_eq!(select_device(3, None).unwrap(), 0);
    assert_eq!(select_device(3, Some(2)).unwrap(), 2);
    assert_eq!(select_device(3, Some(0)).unwrap(), 0);
}

#[test]
fn select_device_fails_without_candidates() {
    assert!(matches!(select_device(0, None), Err(AccuChekError::NoDeviceFound)));
    assert!(matches!(select_device(0, Some(0)), Err(AccuChekError::NoDeviceFound)));
    assert!(matches!(select_device(0, Some(4)), Err(AccuChekError::NoDeviceFound)));
}

#[test]
fn select_device_refuses_an_index_out_of_range() {
    assert!(matches!(select_device(3, Some(3)), Err(AccuChekError::InvalidDeviceIndex(3))));
    assert!(matches!(select_device(1, Some(9)), Err(AccuChekError::InvalidDeviceIndex(9))));
}

#[test]
fn show_describes_the_device() {
    let device = AccuChekDevice {
        vendor_id: 0x173a,
        product_id: 0x21d5,
        vendor: "Roche".to_string(),
        product: "Accu-Chek".to_string(),
        bus_number: 3,
        device_address: 11,
        config_value: 1,
        interface_number: 0,
        alternate_setting: 2,
        send_endpoint: 2,
        receive_endpoint: 129,
    };
    let expected = "Selecting Accu-Chek device #0::\n\
        \n    bus number:    3\n\
        \n    dev address:   11\n\
        \n    cfg value:     1\n\
        \n    alt setting:   2\n\
        \n    alt interface number: 0\n\
        \n    vendor:        (0x173a) Roche\n\
        \n    product:       (0x21d5) Accu-Chek\n\
        \n    sndEndPnt:     2\n\
        \n    rcvEndPnt:     129";
    assert_eq!(device.show("Selecting Accu-Chek device #0:"), expected);
}

#[test]
fn request_type_sets_direction_type_and_recipient() {
    assert_eq!(request_type(Direction::In, RequestType::Standard, Recipient::Device), 0x80);
    assert_eq!(request_type(Direction::Out, RequestType::Standard, Recipient::Device), 0x00);
    assert_eq!(request_type(Direction::Out, RequestType::Class, Recipient::Interface), 0x21);
    assert_eq!(request_type(Direction::In, RequestType::Vendor, Recipient::Endpoint), 0xC2);
    assert_eq!(request_type(Direction::In, RequestType::Reserved, Recipient::Other), 0xE3);
}
