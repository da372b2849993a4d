//! Matching attached USB devices against the shape of the meter.
//!
//! The caller enumerates the devices and copies what their descriptors say
//! into a `DeviceInfo` each. `match_shape` judges the descriptors alone; for a
//! device that passes, the caller opens it to read its two strings, and
//! `check_device` then decides with the whitelist whether it is a candidate.

use crate::config::Config;
use crate::error::{fails_with, AccuChekError, ErrorView};
use crate::text::{decimal, hex_padded, push_decimal, push_hex_padded, push_text};
use crate::usb::{Direction, TransferType, BULK_PACKET_SIZE};
use vstd::prelude::*;

verus! {

/// A device that passed the matcher.
#[derive(Debug)]
pub struct AccuChekDevice {
    pub vendor_id: u16,
    pub product_id: u16,
    /// The manufacturer string, or `Unknown` where it could not be read.
    pub vendor: String,
    /// The product string, or `Unknown` where it could not be read.
    pub product: String,
    pub bus_number: u8,
    pub device_address: u8,
    pub config_value: u8,
    pub interface_number: u8,
    pub alternate_setting: u8,
    /// Address of the bulk endpoint from host to device.
    pub send_endpoint: u8,
    /// Address of the bulk endpoint from device to host.
    pub receive_endpoint: u8,
}

/// An `AccuChekDevice` with its strings as sequences of characters.
pub struct DeviceView {
    pub vendor_id: u16,
    pub product_id: u16,
    pub vendor: Seq<char>,
    pub product: Seq<char>,
    pub bus_number: u8,
    pub device_address: u8,
    pub config_value: u8,
    pub interface_number: u8,
    pub alternate_setting: u8,
    pub send_endpoint: u8,
    pub receive_endpoint: u8,
}

impl View for AccuChekDevice {
    type V = DeviceView;

    open spec fn view(&self) -> DeviceView {
        DeviceView {
            vendor_id: self.vendor_id,
            product_id: self.product_id,
            vendor: self.vendor@,
            product: self.product@,
            bus_number: self.bus_number,
            device_address: self.device_address,
            config_value: self.config_value,
            interface_number: self.interface_number,
            alternate_setting: self.alternate_setting,
            send_endpoint: self.send_endpoint,
            receive_endpoint: self.receive_endpoint,
        }
    }
}

impl DeviceView {
    /// The description of the device under the heading `msg`: one field to a
    /// line, the lines set apart by empty lines.
    pub open spec fn show_text(self, msg: Seq<char>) -> Seq<char> {
        msg + ":\n\n    bus number:    "@ + decimal(self.bus_number as nat)
            + "\n\n    dev address:   "@ + decimal(self.device_address as nat)
            + "\n\n    cfg value:     "@ + decimal(self.config_value as nat)
            + "\n\n    alt setting:   "@ + decimal(self.alternate_setting as nat)
            + "\n\n    alt interface number: "@ + decimal(self.interface_number as nat)
            + "\n\n    vendor:        (0x"@ + hex_padded(self.vendor_id as nat, false, 4) + ") "@
            + self.vendor + "\n\n    product:       (0x"@ + hex_padded(
            self.product_id as nat,
            false,
            4,
        ) + ") "@ + self.product + "\n\n    sndEndPnt:     "@ + decimal(self.send_endpoint as nat)
            + "\n\n    rcvEndPnt:     "@ + decimal(self.receive_endpoint as nat)
    }
}

impl AccuChekDevice {
    /// Describes the device under the heading `msg`.
    pub fn show(&self, msg: &str) -> (text: String)
        ensures
            text@ == self@.show_text(msg@),
    {
        let mut text = String::new();
        push_text(&mut text, msg);
        push_text(&mut text, ":\n\n    bus number:    ");
        push_decimal(&mut text, self.bus_number as u64);
        push_text(&mut text, "\n\n    dev address:   ");
        push_decimal(&mut text, self.device_address as u64);
        push_text(&mut text, "\n\n    cfg value:     ");
        push_decimal(&mut text, self.config_value as u64);
        push_text(&mut text, "\n\n    alt setting:   ");
        push_decimal(&mut text, self.alternate_setting as u64);
        push_text(&mut text, "\n\n    alt interface number: ");
        push_decimal(&mut text, self.interface_number as u64);
        push_text(&mut text, "\n\n    vendor:        (0x");
        push_hex_padded(&mut text, self.vendor_id as u64, false, 4);
        push_text(&mut text, ") ");
        push_text(&mut text, self.vendor.as_str());
        push_text(&mut text, "\n\n    product:       (0x");
        push_hex_padded(&mut text, self.product_id as u64, false, 4);
        push_text(&mut text, ") ");
        push_text(&mut text, self.product.as_str());
        push_text(&mut text, "\n\n    sndEndPnt:     ");
        push_decimal(&mut text, self.send_endpoint as u64);
        push_text(&mut text, "\n\n    rcvEndPnt:     ");
        push_decimal(&mut text, self.receive_endpoint as u64);
        text
    }
}

/// What an endpoint descriptor says.
#[derive(Debug, Clone, Copy, PartialEq, Eq, Structural)]
pub struct EndpointInfo {
    pub address: u8,
    pub max_packet_size: u16,
    pub transfer_type: TransferType,
    pub direction: Direction,
}

/// What an interface descriptor says: one alternate setting of an interface,
/// with its endpoints.
#[derive(Debug)]
pub struct AltSettingInfo {
    pub interface_number: u8,
    pub setting_number: u8,
    pub endpoints: Vec<EndpointInfo>,
}

/// An interface with its alternate settings.
#[derive(Debug)]
pub struct InterfaceInfo {
    pub alt_settings: Vec<AltSettingInfo>,
}

/// What a configuration descriptor says.
#[derive(Debug)]
pub struct ConfigInfo {
    /// The value that selects this configuration.
    pub number: u8,
    pub interfaces: Vec<InterfaceInfo>,
}

/// What the descriptors of an enumerated device say.
#[derive(Debug)]
pub struct DeviceInfo {
    pub vendor_id: u16,
    pub product_id: u16,
    pub bus_number: u8,
    pub address: u8,
    /// The number of configurations that the device descriptor reports.
    pub num_configurations: u8,
    /// Index of the manufacturer string, where the device has one.
    pub manufacturer_string_index: Option<u8>,
    /// Index of the product string, where the device has one.
    pub product_string_index: Option<u8>,
    /// The first configuration, or `None` where it could not be read.
    pub first_config: Option<ConfigInfo>,
}

/// The outcome of opening a device to read its manufacturer and product
/// strings. A string is `None` where the device names none or where it could
/// not be read.
#[derive(Debug)]
pub enum OpenProbe {
    OpenFailed,
    Opened { vendor: Option<String>, product: Option<String> },
}

/// What the matcher retains of a device whose descriptors have the shape of
/// the meter.
#[derive(Debug, Clone, Copy, PartialEq, Eq, Structural)]
pub struct ShapeMatch {
    pub config_value: u8,
    pub interface_number: u8,
    pub alternate_setting: u8,
    pub send_endpoint: u8,
    pub receive_endpoint: u8,
}

impl EndpointInfo {
    /// The endpoint is a bulk endpoint of the meter's packet size in the
    /// given direction.
    pub open spec fn is_bulk(self, direction: Direction) -> bool {
        self.max_packet_size == 64 && self.transfer_type == TransferType::Bulk && self.direction
            == direction
    }
}

/// The address of the last endpoint in the list that is a bulk endpoint of the
/// meter's packet size in the given direction.
pub open spec fn last_bulk(endpoints: Seq<EndpointInfo>, direction: Direction) -> Option<u8>
    decreases endpoints.len(),
{
    if endpoints.len() == 0 {
        None
    } else if endpoints.last().is_bulk(direction) {
        Some(endpoints.last().address)
    } else {
        last_bulk(endpoints.drop_last(), direction)
    }
}

/// The judgement of the descriptors alone: the device reports no more than
/// one configuration, its first configuration was read and has one interface,
/// that interface has one alternate setting, the setting has exactly two
/// endpoints, and among them are a bulk endpoint of 64 bytes for each
/// direction.
pub open spec fn shape_of(info: DeviceInfo) -> Option<ShapeMatch> {
    if info.num_configurations > 1 {
        None
    } else {
        match info.first_config {
            None => None,
            Some(config) => if config.interfaces@.len() != 1 {
                None
            } else if config.interfaces@[0].alt_settings@.len() != 1 {
                None
            } else {
                let setting = config.interfaces@[0].alt_settings@[0];
                if setting.endpoints@.len() != 2 {
                    None
                } else {
                    match (
                        last_bulk(setting.endpoints@, Direction::In),
                        last_bulk(setting.endpoints@, Direction::Out),
                    ) {
                        (Some(receive), Some(send)) => Some(
                            ShapeMatch {
                                config_value: config.number,
                                interface_number: setting.interface_number,
                                alternate_setting: setting.setting_number,
                                send_endpoint: send,
                                receive_endpoint: receive,
                            },
                        ),
                        _ => None,
                    }
                }
            },
        }
    }
}

fn find_bulk(endpoints: &Vec<EndpointInfo>, direction: Direction) -> (found: Option<u8>)
    ensures
        found == last_bulk(endpoints@, direction),
{
    let mut found: Option<u8> = None;
    let mut i: usize = 0;
    while i < endpoints.len()
        invariant
            i <= endpoints@.len(),
            found == last_bulk(endpoints@.take(i as int), direction),
        decreases endpoints@.len() - i,
    {
        let endpoint = endpoints[i];
        assert(endpoints@.take(i + 1).drop_last() =~= endpoints@.take(i as int));
        if endpoint.max_packet_size == BULK_PACKET_SIZE && endpoint.transfer_type
            == TransferType::Bulk && endpoint.direction == direction {
            found = Some(endpoint.address);
        }
        i = i + 1;
    }
    assert(endpoints@.take(i as int) =~= endpoints@);
    found
}

/// Judges the descriptors of a device alone, without opening it.
pub fn match_shape(info: &DeviceInfo) -> (shape: Option<ShapeMatch>)
    ensures
        shape == shape_of(*info),
{
    if info.num_configurations > 1 {
        return None;
    }
    let config = match &info.first_config {
        Some(config) => config,
        None => {
            return None;
        },
    };
    if config.interfaces.len() != 1 {
        return None;
    }
    let interface = &config.interfaces[0];
    if interface.alt_settings.len() != 1 {
        return None;
    }
    let setting = &interface.alt_settings[0];
    if setting.endpoints.len() != 2 {
        return None;
    }
    let receive = find_bulk(&setting.endpoints, Direction::In);
    let send = find_bulk(&setting.endpoints, Direction::Out);
    match (receive, send) {
        (Some(receive_endpoint), Some(send_endpoint)) => Some(
            ShapeMatch {
                config_value: config.number,
                interface_number: setting.interface_number,
                alternate_setting: setting.setting_number,
                send_endpoint,
                receive_endpoint,
            },
        ),
        _ => None,
    }
}

/// No endpoint of a direction that is absent from the list is found.
proof fn lemma_last_bulk_needs_direction(endpoints: Seq<EndpointInfo>, direction: Direction)
    requires
        forall|i: int| 0 <= i < endpoints.len() ==> endpoints[i].direction != direction,
    ensures
        last_bulk(endpoints, direction) is None,
    decreases endpoints.len(),
{
    if endpoints.len() > 0 {
        lemma_last_bulk_needs_direction(endpoints.drop_last(), direction);
    }
}

/// A device that reports more than one configuration is no match, whatever
/// else its descriptors say.
pub proof fn lemma_many_configurations_rejected(info: DeviceInfo)
    requires
        info.num_configurations > 1,
    ensures
        shape_of(info) is None,
{
}

/// A device whose endpoints all point the same way is no match: where no
/// endpoint is of one of the two directions, that direction's bulk endpoint is
/// missing.
pub proof fn lemma_one_direction_rejected(info: DeviceInfo, missing: Direction)
    requires
        info.first_config matches Some(config) && config.interfaces@.len() == 1
            && config.interfaces@[0].alt_settings@.len() == 1 && (forall|i: int|
            0 <= i < config.interfaces@[0].alt_settings@[0].endpoints@.len()
                ==> config.interfaces@[0].alt_settings@[0].endpoints@[i].direction != missing),
    ensures
        shape_of(info) is None,
{
    let endpoints = info.first_config->0.interfaces@[0].alt_settings@[0].endpoints@;
    lemma_last_bulk_needs_direction(endpoints, missing);
}

/// A device with one configuration, one interface, one alternate setting and
/// two endpoints, one a bulk endpoint of 64 bytes into the host and the other
/// one out of it, in either order, has the shape of the meter, and the match
/// holds the addresses of those two endpoints.
pub proof fn lemma_meter_shape_accepted(info: DeviceInfo)
    requires
        info.num_configurations <= 1,
        info.first_config matches Some(config) && config.interfaces@.len() == 1
            && config.interfaces@[0].alt_settings@.len() == 1
            && config.interfaces@[0].alt_settings@[0].endpoints@.len() == 2 && ({
            let a = config.interfaces@[0].alt_settings@[0].endpoints@[0];
            let b = config.interfaces@[0].alt_settings@[0].endpoints@[1];
            ||| a.is_bulk(Direction::In) && b.is_bulk(Direction::Out)
            ||| a.is_bulk(Direction::Out) && b.is_bulk(Direction::In)
        }),
    ensures
        shape_of(info) matches Some(shape) && ({
            let config = info.first_config->0;
            let setting = config.interfaces@[0].alt_settings@[0];
            let a = setting.endpoints@[0];
            let b = setting.endpoints@[1];
            &&& shape.config_value == config.number
            &&& shape.interface_number == setting.interface_number
            &&& shape.alternate_setting == setting.setting_number
            &&& shape.receive_endpoint == if a.is_bulk(Direction::In) {
                a.address
            } else {
                b.address
            }
            &&& shape.send_endpoint == if a.is_bulk(Direction::Out) {
                a.address
            } else {
                b.address
            }
        }),
{
    let endpoints = info.first_config->0.interfaces@[0].alt_settings@[0].endpoints@;
    reveal_with_fuel(last_bulk, 3);
    assert(endpoints.drop_last().last() == endpoints[0]);
}

/// A device of the meter's shape that could be opened is a candidate exactly
/// if it is on the whitelist, whether or not its strings could be read.
pub proof fn lemma_whitelist_decides(info: DeviceInfo, probe: OpenProbe, config: Config)
    requires
        shape_of(info) is Some,
        probe is Opened,
    ensures
        candidate_of(info, probe, config) is Some <==> config.allows(
            info.vendor_id,
            info.product_id,
        ),
{
}

/// No device is rejected for a string: a candidate whose manufacturer or
/// product string is missing carries the text `Unknown` in its place.
pub proof fn lemma_missing_string_is_unknown(info: DeviceInfo, probe: OpenProbe, config: Config)
    requires
        shape_of(info) is Some,
        probe is Opened,
        config.allows(info.vendor_id, info.product_id),
    ensures
        candidate_of(info, probe, config) matches Some(device) && ({
            &&& probe->vendor is None ==> device.vendor == unknown_text()
            &&& probe->product is None ==> device.product == unknown_text()
            &&& probe->vendor matches Some(text) ==> device.vendor == text@
            &&& probe->product matches Some(text) ==> device.product == text@
        }),
{
}

/// The text that stands for a string that is missing.
pub open spec fn unknown_text() -> Seq<char> {
    "Unknown"@
}

/// A string that was read, or the text that stands for a missing one.
pub open spec fn read_or_unknown(text: Option<String>) -> Seq<char> {
    match text {
        Some(s) => s@,
        None => unknown_text(),
    }
}

/// The candidate that a device makes: its descriptors have the shape of the
/// meter, it could be opened, and the whitelist allows its vendor and product
/// pair. Its strings are those that were read; a missing one is no ground to
/// reject it.
pub open spec fn candidate_of(info: DeviceInfo, probe: OpenProbe, config: Config) -> Option<
    DeviceView,
> {
    match (shape_of(info), probe) {
        (Some(shape), OpenProbe::Opened { vendor, product }) => if config.allows(
            info.vendor_id,
            info.product_id,
        ) {
            Some(
                DeviceView {
                    vendor_id: info.vendor_id,
                    product_id: info.product_id,
                    vendor: read_or_unknown(vendor),
                    product: read_or_unknown(product),
                    bus_number: info.bus_number,
                    device_address: info.address,
                    config_value: shape.config_value,
                    interface_number: shape.interface_number,
                    alternate_setting: shape.alternate_setting,
                    send_endpoint: shape.send_endpoint,
                    receive_endpoint: shape.receive_endpoint,
                },
            )
        } else {
            None
        },
        _ => None,
    }
}

fn text_or_unknown(text: &Option<String>) -> (out: String)
    ensures
        out@ == read_or_unknown(*text),
{
    match text {
        Some(s) => s.clone(),
        None => String::from_str("Unknown"),
    }
}

/// Decides whether a device is a candidate, from its descriptors, the
/// outcome of opening it for its strings, and the whitelist.
pub fn check_device(info: &DeviceInfo, probe: &OpenProbe, config: &Config) -> (device: Option<
    AccuChekDevice,
>)
    ensures
        match device {
            Some(d) => candidate_of(*info, *probe, *config) == Some(d@),
            None => candidate_of(*info, *probe, *config) is None,
        },
{
    let shape = match match_shape(info) {
        Some(shape) => shape,
        None => {
            return None;
        },
    };
    let (vendor, product) = match probe {
        OpenProbe::OpenFailed => {
            return None;
        },
        OpenProbe::Opened { vendor, product } => (vendor, product),
    };
    if !config.is_device_valid(info.vendor_id, info.product_id) {
        return None;
    }
    let vendor = text_or_unknown(vendor);
    let product = text_or_unknown(product);
    Some(
        AccuChekDevice {
            vendor_id: info.vendor_id,
            product_id: info.product_id,
            vendor,
            product,
            bus_number: info.bus_number,
            device_address: info.address,
            config_value: shape.config_value,
            interface_number: shape.interface_number,
            alternate_setting: shape.alternate_setting,
            send_endpoint: shape.send_endpoint,
            receive_endpoint: shape.receive_endpoint,
        },
    )
}

/// The index of the device to download from among `count` candidates: the
/// index asked for, or the first candidate where none was asked for.
pub fn select_device(count: usize, device_index: Option<usize>) -> (result: Result<
    usize,
    AccuChekError,
>)
    ensures
        count == 0 ==> fails_with(result, ErrorView::NoDeviceFound),
        count > 0 ==> match device_index {
            Some(index) => if index < count {
                result == Ok::<usize, AccuChekError>(index)
            } else {
                fails_with(result, ErrorView::InvalidDeviceIndex(index))
            },
            None => result == Ok::<usize, AccuChekError>(0),
        },
{
    if count == 0 {
        return Err(AccuChekError::NoDeviceFound);
    }
    let selected_index = match device_index {
        Some(index) => index,
        None => 0,
    };
    if selected_index >= count {
        return Err(AccuChekError::InvalidDeviceIndex(selected_index));
    }
    Ok(selected_index)
}

} // verus!
