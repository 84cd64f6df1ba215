//! The device configuration: its fields, their defaults, and the rules a
//! configuration must meet before it is uploaded.
//!
//! The functions `get_default_*` give the value that a field takes when a
//! configuration does not name it, and the functions `is_default_*` tell
//! whether a field holds that value.

use vstd::prelude::*;
use vstd::utf8::encode_utf8;
use crate::error::ConfigError;
use crate::error::ConfigErrorView;
use crate::error::Error;
use crate::error::ErrorView;
use crate::text::endpoint;
use crate::text::field_end;
use crate::text::find_byte;
use crate::text::ipv4;
use crate::text::parse_endpoint;
use crate::text::parse_ipv4;
use crate::text::parse_unsigned;
use crate::text::str_eq;
use crate::text::unsigned;
use crate::text::SLASH;

verus! {

pub const SCREEN_WIDTH: u16 = 1920;
pub const SCREEN_HEIGHT: u16 = 1080;
pub const REVERSED_WHEEL: bool = false;
pub const BRIGHTNESS: u8 = 30;
pub const POLLING_RATE: u16 = 200;
pub const JIGGLE_INTERVAL: u16 = 60;
pub const USB_VID: u16 = 0x0d0a;
pub const USB_PID: u16 = 0xc0de;
pub const USB_MANUFACTURER: &'static str = "0d0a.com";
pub const LANDING_URL: &'static str = "https://0d0a.com";
pub const USB_PRODUCT: &'static str = "Esparrier KVM";
pub const USB_SERIAL_NUMBER: &'static str = "88888888";
pub const WATCHDOG_TIMEOUT: u32 = 15;

/// Longest `ssid`, in bytes.
pub const MAX_SSID_LEN: usize = 32;
/// Longest `password`, `server`, `screen_name`, `manufacturer`, `product`
/// and `serial_number`, in bytes.
pub const MAX_STRING_LEN: usize = 64;
/// Longest `landing_url`, in bytes.
pub const MAX_URL_LEN: usize = 255;
/// Largest `screen_width` and `screen_height`.
pub const MAX_SCREEN_SIZE: usize = 32767;
/// Largest `brightness`.
pub const MAX_BRIGHTNESS: usize = 100;

/// The configuration of a device.
#[derive(Clone, Debug, PartialEq, Eq)]
pub struct EsparrierConfig {
    // These fields must be set
    pub ssid: String,
    pub password: String,
    pub server: String,
    pub screen_name: String,
    // Screen configuration
    pub screen_width: u16,
    pub screen_height: u16,
    pub flip_wheel: bool,
    pub polling_rate: u16,
    pub jiggle_interval: u16,
    // LED configuration
    pub brightness: u8,
    // Network configuration
    pub ip_addr: Option<String>,
    pub dns_server: Vec<String>,
    pub gateway: Option<String>,
    // USB HID configuration
    pub vid: u16,
    pub pid: u16,
    pub manufacturer: String,
    pub product: String,
    pub serial_number: String,
    pub landing_url: String,
    // Misc internal fields
    pub watchdog_timeout: u32,
}

/// Mathematical model of an [`EsparrierConfig`].
pub struct EsparrierConfigView {
    pub ssid: Seq<char>,
    pub password: Seq<char>,
    pub server: Seq<char>,
    pub screen_name: Seq<char>,
    pub screen_width: u16,
    pub screen_height: u16,
    pub flip_wheel: bool,
    pub polling_rate: u16,
    pub jiggle_interval: u16,
    pub brightness: u8,
    pub ip_addr: Option<Seq<char>>,
    pub dns_server: Seq<Seq<char>>,
    pub gateway: Option<Seq<char>>,
    pub vid: u16,
    pub pid: u16,
    pub manufacturer: Seq<char>,
    pub product: Seq<char>,
    pub serial_number: Seq<char>,
    pub landing_url: Seq<char>,
    pub watchdog_timeout: u32,
}

impl View for EsparrierConfig {
    type V = EsparrierConfigView;

    open spec fn view(&self) -> EsparrierConfigView {
        EsparrierConfigView {
            ssid: self.ssid@,
            password: self.password@,
            server: self.server@,
            screen_name: self.screen_name@,
            screen_width: self.screen_width,
            screen_height: self.screen_height,
            flip_wheel: self.flip_wheel,
            polling_rate: self.polling_rate,
            jiggle_interval: self.jiggle_interval,
            brightness: self.brightness,
            ip_addr: match self.ip_addr {
                Some(text) => Some(text@),
                None => None,
            },
            dns_server: self.dns_server.deep_view(),
            gateway: match self.gateway {
                Some(text) => Some(text@),
                None => None,
            },
            vid: self.vid,
            pid: self.pid,
            manufacturer: self.manufacturer@,
            product: self.product@,
            serial_number: self.serial_number@,
            landing_url: self.landing_url@,
            watchdog_timeout: self.watchdog_timeout,
        }
    }
}

impl EsparrierConfigView {
    /// The configuration in which every string and list is empty, every
    /// number zero and every switch off.
    pub open spec fn blank() -> EsparrierConfigView {
        EsparrierConfigView {
            ssid: Seq::empty(),
            password: Seq::empty(),
            server: Seq::empty(),
            screen_name: Seq::empty(),
            screen_width: 0,
            screen_height: 0,
            flip_wheel: false,
            polling_rate: 0,
            jiggle_interval: 0,
            brightness: 0,
            ip_addr: None,
            dns_server: Seq::empty(),
            gateway: None,
            vid: 0,
            pid: 0,
            manufacturer: Seq::empty(),
            product: Seq::empty(),
            serial_number: Seq::empty(),
            landing_url: Seq::empty(),
            watchdog_timeout: 0,
        }
    }
}

impl Default for EsparrierConfig {
    /// The blank configuration. It is not the configuration of defaults:
    /// those are what the `get_default_*` functions give, field by field.
    fn default() -> (c: EsparrierConfig)
        ensures
            c@ == EsparrierConfigView::blank(),
    {
        let c = EsparrierConfig {
            ssid: String::new(),
            password: String::new(),
            server: String::new(),
            screen_name: String::new(),
            screen_width: 0,
            screen_height: 0,
            flip_wheel: false,
            polling_rate: 0,
            jiggle_interval: 0,
            brightness: 0,
            ip_addr: None,
            dns_server: Vec::new(),
            gateway: None,
            vid: 0,
            pid: 0,
            manufacturer: String::new(),
            product: String::new(),
            serial_number: String::new(),
            landing_url: String::new(),
            watchdog_timeout: 0,
        };
        assert(c@.dns_server =~= Seq::<Seq<char>>::empty());
        c
    }
}

/// Whether `value` is a required string of at most `max_len` bytes.
pub open spec fn string_ok(value: Seq<char>, max_len: nat) -> bool {
    value.len() > 0 && encode_utf8(value).len() <= max_len
}

/// Whether `value` is an `IPv4:port` endpoint.
pub open spec fn endpoint_ok(value: Seq<char>) -> bool {
    endpoint(encode_utf8(value)) is Some
}

/// Whether `value` is an IPv4 address.
pub open spec fn address_ok(value: Seq<char>) -> bool {
    ipv4(encode_utf8(value)) is Some
}

/// Whether every entry of `values` is an IPv4 address.
pub open spec fn addresses_ok(values: Seq<Seq<char>>) -> bool {
    forall|i: int| 0 <= i < values.len() ==> address_ok(#[trigger] values[i])
}

/// Whether `value` has a `/` in it and an IPv4 address before the first one.
pub open spec fn cidr_address_ok(value: Seq<char>) -> bool {
    let bytes = encode_utf8(value);
    let slash = field_end(bytes, 0, SLASH);
    slash < bytes.len() && ipv4(bytes.subrange(0, slash)) is Some
}

/// Whether what follows the first `/` of `value` is a prefix length: a
/// decimal number of at most 255.
pub open spec fn cidr_prefix_ok(value: Seq<char>) -> bool {
    let bytes = encode_utf8(value);
    let slash = field_end(bytes, 0, SLASH);
    unsigned(bytes.subrange(slash + 1, bytes.len() as int), 255) is Some
}

/// What is wrong with the required string `value` of the field `name`.
pub open spec fn string_violation(value: Seq<char>, name: Seq<char>, max_len: nat) -> Option<
    ConfigErrorView,
> {
    if value.len() == 0 {
        Some(ConfigErrorView::FieldEmpty(name))
    } else if encode_utf8(value).len() > max_len {
        Some(ConfigErrorView::FieldTooLong(name))
    } else {
        None
    }
}

/// What is wrong with the number `value` of the field `name`, which is to
/// lie between 1 and `max`.
pub open spec fn range_violation(value: nat, name: Seq<char>, max: nat) -> Option<ConfigErrorView> {
    if value < 1 || value > max {
        Some(ConfigErrorView::FieldOutOfRange(name, 1, max))
    } else {
        None
    }
}

/// What is wrong with the CIDR address `value` of the field `name`.
pub open spec fn cidr_violation(value: Seq<char>, name: Seq<char>) -> Option<ConfigErrorView> {
    if !cidr_address_ok(value) {
        Some(ConfigErrorView::InvalidIpAddress(name))
    } else if !cidr_prefix_ok(value) {
        Some(ConfigErrorView::InvalidIpCidrPrefix(name))
    } else {
        None
    }
}

/// The first of two findings.
pub open spec fn or_else(first: Option<ConfigErrorView>, second: Option<ConfigErrorView>) -> Option<
    ConfigErrorView,
> {
    if first is Some {
        first
    } else {
        second
    }
}

impl EsparrierConfigView {
    /// What validation finds wrong with the identity of the network and the
    /// server.
    pub open spec fn connection_violation(self) -> Option<ConfigErrorView> {
        or_else(
            string_violation(self.ssid, "ssid"@, MAX_SSID_LEN as nat),
            or_else(
                string_violation(self.password, "password"@, MAX_STRING_LEN as nat),
                or_else(
                    string_violation(self.server, "server"@, MAX_STRING_LEN as nat),
                    if !endpoint_ok(self.server) {
                        Some(ConfigErrorView::InvalidEndpoint("server"@))
                    } else {
                        None
                    },
                ),
            ),
        )
    }

    /// What validation finds wrong with the screen and the LED.
    pub open spec fn screen_violation(self) -> Option<ConfigErrorView> {
        or_else(
            string_violation(self.screen_name, "screen_name"@, MAX_STRING_LEN as nat),
            or_else(
                range_violation(self.screen_width as nat, "screen_width"@, MAX_SCREEN_SIZE as nat),
                or_else(
                    range_violation(
                        self.screen_height as nat,
                        "screen_height"@,
                        MAX_SCREEN_SIZE as nat,
                    ),
                    range_violation(self.brightness as nat, "brightness"@, MAX_BRIGHTNESS as nat),
                ),
            ),
        )
    }

    /// What validation finds wrong with the device's own address.
    pub open spec fn ip_addr_violation(self) -> Option<ConfigErrorView> {
        match self.ip_addr {
            Some(text) => cidr_violation(text, "ip_addr"@),
            None => None,
        }
    }

    /// What validation finds wrong with the name servers.
    pub open spec fn dns_violation(self) -> Option<ConfigErrorView> {
        if !addresses_ok(self.dns_server) {
            Some(ConfigErrorView::InvalidIpAddress("dns_server"@))
        } else {
            None
        }
    }

    /// What validation finds wrong with the gateway.
    pub open spec fn gateway_violation(self) -> Option<ConfigErrorView> {
        match self.gateway {
            Some(text) if !address_ok(text) => Some(ConfigErrorView::InvalidIpAddress("gateway"@)),
            _ => None,
        }
    }

    /// What validation finds wrong with the static network settings.
    pub open spec fn network_violation(self) -> Option<ConfigErrorView> {
        or_else(
            self.ip_addr_violation(),
            or_else(self.dns_violation(), self.gateway_violation()),
        )
    }

    /// What validation finds wrong with the USB identity.
    pub open spec fn identity_violation(self) -> Option<ConfigErrorView> {
        or_else(
            string_violation(self.manufacturer, "manufacturer"@, MAX_STRING_LEN as nat),
            or_else(
                string_violation(self.product, "product"@, MAX_STRING_LEN as nat),
                or_else(
                    string_violation(self.serial_number, "serial_number"@, MAX_STRING_LEN as nat),
                    if encode_utf8(self.landing_url).len() > MAX_URL_LEN {
                        Some(ConfigErrorView::FieldTooLong("landing_url"@))
                    } else {
                        None
                    },
                ),
            ),
        )
    }

    /// The first rule that the configuration breaks, in the order in which
    /// validation goes through the fields; `None` if it breaks none.
    pub open spec fn violation(self) -> Option<ConfigErrorView> {
        or_else(
            self.connection_violation(),
            or_else(
                self.screen_violation(),
                or_else(self.network_violation(), self.identity_violation()),
            ),
        )
    }

    /// The rules that a configuration must meet before it is uploaded.
    pub open spec fn valid(self) -> bool {
        &&& string_ok(self.ssid, MAX_SSID_LEN as nat)
        &&& string_ok(self.password, MAX_STRING_LEN as nat)
        &&& string_ok(self.server, MAX_STRING_LEN as nat)
        &&& endpoint_ok(self.server)
        &&& string_ok(self.screen_name, MAX_STRING_LEN as nat)
        &&& 1 <= self.screen_width <= MAX_SCREEN_SIZE
        &&& 1 <= self.screen_height <= MAX_SCREEN_SIZE
        &&& 1 <= self.brightness <= MAX_BRIGHTNESS
        &&& self.ip_addr matches Some(text) ==> cidr_address_ok(text) && cidr_prefix_ok(text)
        &&& addresses_ok(self.dns_server)
        &&& self.gateway matches Some(text) ==> address_ok(text)
        &&& string_ok(self.manufacturer, MAX_STRING_LEN as nat)
        &&& string_ok(self.product, MAX_STRING_LEN as nat)
        &&& string_ok(self.serial_number, MAX_STRING_LEN as nat)
        &&& encode_utf8(self.landing_url).len() <= MAX_URL_LEN
    }
}

/// Validation finds something wrong with a configuration exactly when the
/// configuration breaks a rule.
pub proof fn violation_iff_invalid(c: EsparrierConfigView)
    ensures
        c.violation() is None <==> c.valid(),
{
}

/// The strings that a configuration must hold, in the order in which
/// validation goes through them.
pub enum RequiredString {
    Ssid,
    Password,
    Server,
    ScreenName,
    Manufacturer,
    Product,
    SerialNumber,
}

impl RequiredString {
    /// The name of the field.
    pub open spec fn name(self) -> Seq<char> {
        match self {
            RequiredString::Ssid => "ssid"@,
            RequiredString::Password => "password"@,
            RequiredString::Server => "server"@,
            RequiredString::ScreenName => "screen_name"@,
            RequiredString::Manufacturer => "manufacturer"@,
            RequiredString::Product => "product"@,
            RequiredString::SerialNumber => "serial_number"@,
        }
    }

    /// The largest number of bytes that the field may hold.
    pub open spec fn max_len(self) -> nat {
        match self {
            RequiredString::Ssid => MAX_SSID_LEN as nat,
            _ => MAX_STRING_LEN as nat,
        }
    }
}

impl EsparrierConfigView {
    /// What the field `field` holds.
    pub open spec fn required(self, field: RequiredString) -> Seq<char> {
        match field {
            RequiredString::Ssid => self.ssid,
            RequiredString::Password => self.password,
            RequiredString::Server => self.server,
            RequiredString::ScreenName => self.screen_name,
            RequiredString::Manufacturer => self.manufacturer,
            RequiredString::Product => self.product,
            RequiredString::SerialNumber => self.serial_number,
        }
    }

    /// What validation finds wrong before it comes to the field `field`.
    pub open spec fn violation_before(self, field: RequiredString) -> Option<ConfigErrorView> {
        let ssid = string_violation(self.ssid, "ssid"@, MAX_SSID_LEN as nat);
        let password = string_violation(self.password, "password"@, MAX_STRING_LEN as nat);
        let before_identity = or_else(
            self.connection_violation(),
            or_else(self.screen_violation(), self.network_violation()),
        );
        let manufacturer = string_violation(
            self.manufacturer,
            "manufacturer"@,
            MAX_STRING_LEN as nat,
        );
        let product = string_violation(self.product, "product"@, MAX_STRING_LEN as nat);
        match field {
            RequiredString::Ssid => None,
            RequiredString::Password => ssid,
            RequiredString::Server => or_else(ssid, password),
            RequiredString::ScreenName => self.connection_violation(),
            RequiredString::Manufacturer => before_identity,
            RequiredString::Product => or_else(before_identity, manufacturer),
            RequiredString::SerialNumber => or_else(before_identity, or_else(manufacturer, product)),
        }
    }
}

/// A configuration with an empty required string is invalid. Validation
/// reports the field as empty unless it finds something wrong before it
/// comes to the field.
pub proof fn empty_string_is_reported(c: EsparrierConfigView, field: RequiredString)
    requires
        c.required(field).len() == 0,
    ensures
        !c.valid(),
        c.violation() is Some,
        c.violation_before(field) is None ==> c.violation() == Some(
            ConfigErrorView::FieldEmpty(field.name()),
        ),
{
}

/// A configuration with a required string that is longer than its field
/// allows is invalid. Validation reports the field as too long unless it
/// finds something wrong before it comes to the field.
pub proof fn long_string_is_reported(c: EsparrierConfigView, field: RequiredString)
    requires
        encode_utf8(c.required(field)).len() > field.max_len(),
    ensures
        !c.valid(),
        c.violation() is Some,
        c.violation_before(field) is None && c.required(field).len() > 0 ==> c.violation() == Some(
            ConfigErrorView::FieldTooLong(field.name()),
        ),
{
}

/// A landing URL of more than 255 bytes is reported as too long if nothing
/// else is wrong.
pub proof fn long_landing_url_is_reported(c: EsparrierConfigView)
    requires
        encode_utf8(c.landing_url).len() > MAX_URL_LEN,
    ensures
        !c.valid(),
        c.violation_before(RequiredString::SerialNumber) is None && string_violation(
            c.serial_number,
            "serial_number"@,
            MAX_STRING_LEN as nat,
        ) is None ==> c.violation() == Some(ConfigErrorView::FieldTooLong("landing_url"@)),
{
}

/// A screen width outside 1 to 32767 makes a configuration invalid, and is
/// reported with the field's name and range unless validation finds
/// something wrong before it comes to the field. The same holds of the
/// screen height and, with the range 1 to 100, of the brightness.
pub proof fn out_of_range_is_reported(c: EsparrierConfigView)
    ensures
        c.screen_width < 1 || c.screen_width > MAX_SCREEN_SIZE ==> {
            &&& !c.valid()
            &&& c.connection_violation() is None && string_violation(
                c.screen_name,
                "screen_name"@,
                MAX_STRING_LEN as nat,
            ) is None ==> c.violation() == Some(
                ConfigErrorView::FieldOutOfRange("screen_width"@, 1, MAX_SCREEN_SIZE as nat),
            )
        },
        c.screen_height < 1 || c.screen_height > MAX_SCREEN_SIZE ==> {
            &&& !c.valid()
            &&& c.connection_violation() is None && string_violation(
                c.screen_name,
                "screen_name"@,
                MAX_STRING_LEN as nat,
            ) is None && 1 <= c.screen_width <= MAX_SCREEN_SIZE ==> c.violation() == Some(
                ConfigErrorView::FieldOutOfRange("screen_height"@, 1, MAX_SCREEN_SIZE as nat),
            )
        },
        c.brightness < 1 || c.brightness > MAX_BRIGHTNESS ==> {
            &&& !c.valid()
            &&& c.connection_violation() is None && string_violation(
                c.screen_name,
                "screen_name"@,
                MAX_STRING_LEN as nat,
            ) is None && 1 <= c.screen_width <= MAX_SCREEN_SIZE && 1 <= c.screen_height
                <= MAX_SCREEN_SIZE ==> c.violation() == Some(
                ConfigErrorView::FieldOutOfRange("brightness"@, 1, MAX_BRIGHTNESS as nat),
            )
        },
{
}

/// A server that is not an `IPv4:port` endpoint makes a configuration
/// invalid, and is reported as an invalid endpoint if the server is a
/// string of the right size and nothing is wrong with the fields before it.
pub proof fn bad_endpoint_is_reported(c: EsparrierConfigView)
    requires
        !endpoint_ok(c.server),
    ensures
        !c.valid(),
        c.violation_before(RequiredString::Server) is None && string_ok(
            c.server,
            MAX_STRING_LEN as nat,
        ) ==> c.violation() == Some(ConfigErrorView::InvalidEndpoint("server"@)),
{
}

/// A device address without a `/`, or with something else than an IPv4
/// address before the `/`, makes a configuration invalid, and is reported
/// as an invalid address unless validation finds something wrong before it
/// comes to the field.
pub proof fn bad_cidr_address_is_reported(c: EsparrierConfigView, text: Seq<char>)
    requires
        c.ip_addr == Some(text),
        !cidr_address_ok(text),
    ensures
        !c.valid(),
        c.connection_violation() is None && c.screen_violation() is None ==> c.violation() == Some(
            ConfigErrorView::InvalidIpAddress("ip_addr"@),
        ),
{
}

/// A device address with an IPv4 address before the `/` and something else
/// than a prefix length after it makes a configuration invalid, and is
/// reported as an invalid prefix unless validation finds something wrong
/// before it comes to the field.
pub proof fn bad_cidr_prefix_is_reported(c: EsparrierConfigView, text: Seq<char>)
    requires
        c.ip_addr == Some(text),
        cidr_address_ok(text),
        !cidr_prefix_ok(text),
    ensures
        !c.valid(),
        c.connection_violation() is None && c.screen_violation() is None ==> c.violation() == Some(
            ConfigErrorView::InvalidIpCidrPrefix("ip_addr"@),
        ),
{
}

/// A name server or a gateway that is not an IPv4 address makes a
/// configuration invalid.
pub proof fn bad_address_is_invalid(c: EsparrierConfigView)
    requires
        !addresses_ok(c.dns_server) || (c.gateway matches Some(text) && !address_ok(text)),
    ensures
        !c.valid(),
        c.violation() is Some,
{
}

/// Checks a required string field.
fn validate_string(value: &str, name: &str, max_len: usize) -> (r: Result<(), Error>)
    ensures
        match string_violation(value@, name@, max_len as nat) {
            Some(v) => r matches Err(e) && e@ == ErrorView::ConfigError(v),
            None => r is Ok,
        },
{
    if value.is_empty() {
        Err(Error::ConfigError(ConfigError::FieldEmpty(name.to_owned())))
    } else if value.as_bytes().len() > max_len {
        Err(Error::ConfigError(ConfigError::FieldTooLong(name.to_owned())))
    } else {
        Ok(())
    }
}

/// Checks a numeric field that is to lie between 1 and `max`.
fn validate_range(value: usize, name: &str, max: usize) -> (r: Result<(), Error>)
    ensures
        match range_violation(value as nat, name@, max as nat) {
            Some(v) => r matches Err(e) && e@ == ErrorView::ConfigError(v),
            None => r is Ok,
        },
{
    if value < 1 || value > max {
        Err(Error::ConfigError(ConfigError::FieldOutOfRange(name.to_owned(), 1, max)))
    } else {
        Ok(())
    }
}

/// Checks a field that holds an address in CIDR notation.
fn validate_cidr(value: &str, name: &str) -> (r: Result<(), Error>)
    ensures
        match cidr_violation(value@, name@) {
            Some(v) => r matches Err(e) && e@ == ErrorView::ConfigError(v),
            None => r is Ok,
        },
{
    let bytes = value.as_bytes();
    let slash = find_byte(bytes, 0, SLASH);
    if slash >= bytes.len() {
        return Err(Error::ConfigError(ConfigError::InvalidIpAddress(name.to_owned())));
    }
    if parse_ipv4(vstd::slice::slice_subrange(bytes, 0, slash)).is_none() {
        return Err(Error::ConfigError(ConfigError::InvalidIpAddress(name.to_owned())));
    }
    if parse_unsigned(vstd::slice::slice_subrange(bytes, slash + 1, bytes.len()), 255).is_none() {
        return Err(Error::ConfigError(ConfigError::InvalidIpCidrPrefix(name.to_owned())));
    }
    Ok(())
}

/// Tells whether `value` is an IPv4 address.
fn is_address(value: &str) -> (ok: bool)
    ensures
        ok == address_ok(value@),
{
    parse_ipv4(value.as_bytes()).is_some()
}

impl EsparrierConfig {
    /// Checks the configuration against the rules that the device imposes.
    ///
    /// The fields are gone through in a fixed order and the first broken
    /// rule is reported, with the name of the field that breaks it.
    pub fn validate(&self) -> (r: Result<(), Error>)
        ensures
            r is Ok <==> self@.valid(),
            match self@.violation() {
                Some(v) => r matches Err(e) && e@ == ErrorView::ConfigError(v),
                None => r is Ok,
            },
    {
        proof {
            violation_iff_invalid(self@);
        }
        match self.validate_connection() {
            Err(e) => {
                return Err(e);
            },
            Ok(()) => {},
        }
        match self.validate_screen() {
            Err(e) => {
                return Err(e);
            },
            Ok(()) => {},
        }
        match self.validate_network() {
            Err(e) => {
                return Err(e);
            },
            Ok(()) => {},
        }
        self.validate_identity()
    }

    fn validate_connection(&self) -> (r: Result<(), Error>)
        ensures
            match self@.connection_violation() {
                Some(v) => r matches Err(e) && e@ == ErrorView::ConfigError(v),
                None => r is Ok,
            },
    {
        match validate_string(self.ssid.as_str(), "ssid", MAX_SSID_LEN) {
            Err(e) => {
                return Err(e);
            },
            Ok(()) => {},
        }
        match validate_string(self.password.as_str(), "password", MAX_STRING_LEN) {
            Err(e) => {
                return Err(e);
            },
            Ok(()) => {},
        }
        match validate_string(self.server.as_str(), "server", MAX_STRING_LEN) {
            Err(e) => {
                return Err(e);
            },
            Ok(()) => {},
        }
        if parse_endpoint(self.server.as_str().as_bytes()).is_none() {
            return Err(Error::ConfigError(ConfigError::InvalidEndpoint("server".to_owned())));
        }
        Ok(())
    }

    fn validate_screen(&self) -> (r: Result<(), Error>)
        ensures
            match self@.screen_violation() {
                Some(v) => r matches Err(e) && e@ == ErrorView::ConfigError(v),
                None => r is Ok,
            },
    {
        match validate_string(self.screen_name.as_str(), "screen_name", MAX_STRING_LEN) {
            Err(e) => {
                return Err(e);
            },
            Ok(()) => {},
        }
        match validate_range(self.screen_width as usize, "screen_width", MAX_SCREEN_SIZE) {
            Err(e) => {
                return Err(e);
            },
            Ok(()) => {},
        }
        match validate_range(self.screen_height as usize, "screen_height", MAX_SCREEN_SIZE) {
            Err(e) => {
                return Err(e);
            },
            Ok(()) => {},
        }
        validate_range(self.brightness as usize, "brightness", MAX_BRIGHTNESS)
    }

    fn validate_network(&self) -> (r: Result<(), Error>)
        ensures
            match self@.network_violation() {
                Some(v) => r matches Err(e) && e@ == ErrorView::ConfigError(v),
                None => r is Ok,
            },
    {
        match &self.ip_addr {
            Some(text) => {
                match validate_cidr(text.as_str(), "ip_addr") {
                    Err(e) => {
                        return Err(e);
                    },
                    Ok(()) => {},
                }
            },
            None => {},
        }
        match self.validate_dns() {
            Err(e) => {
                return Err(e);
            },
            Ok(()) => {},
        }
        match &self.gateway {
            Some(text) => {
                if !is_address(text.as_str()) {
                    return Err(
                        Error::ConfigError(ConfigError::InvalidIpAddress("gateway".to_owned())),
                    );
                }
            },
            None => {},
        }
        Ok(())
    }

    fn validate_dns(&self) -> (r: Result<(), Error>)
        ensures
            match self@.dns_violation() {
                Some(v) => r matches Err(e) && e@ == ErrorView::ConfigError(v),
                None => r is Ok,
            },
    {
        let mut i: usize = 0;
        while i < self.dns_server.len()
            invariant
                i <= self.dns_server@.len(),
                forall|j: int| 0 <= j < i ==> address_ok(#[trigger] self@.dns_server[j]),
            decreases self.dns_server@.len() - i,
        {
            if !is_address(self.dns_server[i].as_str()) {
                assert(!address_ok(self@.dns_server[i as int]));
                return Err(
                    Error::ConfigError(ConfigError::InvalidIpAddress("dns_server".to_owned())),
                );
            }
            i = i + 1;
        }
        Ok(())
    }

    fn validate_identity(&self) -> (r: Result<(), Error>)
        ensures
            match self@.identity_violation() {
                Some(v) => r matches Err(e) && e@ == ErrorView::ConfigError(v),
                None => r is Ok,
            },
    {
        match validate_string(self.manufacturer.as_str(), "manufacturer", MAX_STRING_LEN) {
            Err(e) => {
                return Err(e);
            },
            Ok(()) => {},
        }
        match validate_string(self.product.as_str(), "product", MAX_STRING_LEN) {
            Err(e) => {
                return Err(e);
            },
            Ok(()) => {},
        }
        match validate_string(self.serial_number.as_str(), "serial_number", MAX_STRING_LEN) {
            Err(e) => {
                return Err(e);
            },
            Ok(()) => {},
        }
        // The landing URL can be empty
        if self.landing_url.as_str().as_bytes().len() > MAX_URL_LEN {
            return Err(Error::ConfigError(ConfigError::FieldTooLong("landing_url".to_owned())));
        }
        Ok(())
    }
}

/// The value that the screen width takes when the configuration does not name it.
pub fn get_default_screen_width() -> (v: u16)
    ensures
        v == SCREEN_WIDTH,
{
    SCREEN_WIDTH
}

/// The value that the screen height takes when the configuration does not name it.
pub fn get_default_screen_height() -> (v: u16)
    ensures
        v == SCREEN_HEIGHT,
{
    SCREEN_HEIGHT
}

/// The value that the polling rate takes when the configuration does not name it.
pub fn get_default_polling_rate() -> (v: u16)
    ensures
        v == POLLING_RATE,
{
    POLLING_RATE
}

/// Whether `polling_rate` is the default of the polling rate, which the wire form leaves
/// out.
pub fn is_default_polling_rate(polling_rate: &u16) -> (b: bool)
    ensures
        b == (*polling_rate == POLLING_RATE),
{
    *polling_rate == POLLING_RATE
}

/// The value that the jiggle interval takes when the configuration does not name it.
pub fn get_default_jiggle_interval() -> (v: u16)
    ensures
        v == JIGGLE_INTERVAL,
{
    JIGGLE_INTERVAL
}

/// Whether `jiggle_interval` is the default of the jiggle interval, which the wire form leaves
/// out.
pub fn is_default_jiggle_interval(jiggle_interval: &u16) -> (b: bool)
    ensures
        b == (*jiggle_interval == JIGGLE_INTERVAL),
{
    *jiggle_interval == JIGGLE_INTERVAL
}

/// The value that the LED brightness takes when the configuration does not name it.
pub fn get_default_brightness() -> (v: u8)
    ensures
        v == BRIGHTNESS,
{
    BRIGHTNESS
}

/// The value that the USB vendor identifier takes when the configuration does not name it.
pub fn get_default_vid() -> (v: u16)
    ensures
        v == USB_VID,
{
    USB_VID
}

/// Whether `vid` is the default of the USB vendor identifier, which the wire form leaves
/// out.
pub fn is_default_vid(vid: &u16) -> (b: bool)
    ensures
        b == (*vid == USB_VID),
{
    *vid == USB_VID
}

/// The value that the USB product identifier takes when the configuration does not name it.
pub fn get_default_pid() -> (v: u16)
    ensures
        v == USB_PID,
{
    USB_PID
}

/// Whether `pid` is the default of the USB product identifier, which the wire form leaves
/// out.
pub fn is_default_pid(pid: &u16) -> (b: bool)
    ensures
        b == (*pid == USB_PID),
{
    *pid == USB_PID
}

/// The value that the USB manufacturer string takes when the configuration does not name it.
pub fn get_default_manufacturer() -> (v: String)
    ensures
        v@ == USB_MANUFACTURER@,
{
    USB_MANUFACTURER.to_owned()
}

/// Whether `manufacturer` is the default of the USB manufacturer string, which the wire form leaves
/// out.
pub fn is_default_manufacturer(manufacturer: &String) -> (b: bool)
    ensures
        b == (manufacturer@ == USB_MANUFACTURER@),
{
    str_eq(manufacturer.as_str(), USB_MANUFACTURER)
}

/// The value that the USB product string takes when the configuration does not name it.
pub fn get_default_product() -> (v: String)
    ensures
        v@ == USB_PRODUCT@,
{
    USB_PRODUCT.to_owned()
}

/// Whether `product` is the default of the USB product string, which the wire form leaves
/// out.
pub fn is_default_product(product: &String) -> (b: bool)
    ensures
        b == (product@ == USB_PRODUCT@),
{
    str_eq(product.as_str(), USB_PRODUCT)
}

/// The value that the USB serial number takes when the configuration does not name it.
pub fn get_default_serial_number() -> (v: String)
    ensures
        v@ == USB_SERIAL_NUMBER@,
{
    USB_SERIAL_NUMBER.to_owned()
}

/// Whether `serial_number` is the default of the USB serial number, which the wire form leaves
/// out.
pub fn is_default_serial_number(serial_number: &String) -> (b: bool)
    ensures
        b == (serial_number@ == USB_SERIAL_NUMBER@),
{
    str_eq(serial_number.as_str(), USB_SERIAL_NUMBER)
}

/// The value that the landing URL takes when the configuration does not name it.
pub fn get_default_landing_url() -> (v: String)
    ensures
        v@ == LANDING_URL@,
{
    LANDING_URL.to_owned()
}

/// Whether `landing_url` is the default of the landing URL, which the wire form leaves
/// out.
pub fn is_default_landing_url(landing_url: &String) -> (b: bool)
    ensures
        b == (landing_url@ == LANDING_URL@),
{
    str_eq(landing_url.as_str(), LANDING_URL)
}

/// The value that the watchdog timeout takes when the configuration does not name it.
pub fn get_default_watchdog_timeout() -> (v: u32)
    ensures
        v == WATCHDOG_TIMEOUT,
{
    WATCHDOG_TIMEOUT
}

/// Whether `watchdog_timeout` is the default of the watchdog timeout, which the wire form leaves
/// out.
pub fn is_default_watchdog_timeout(watchdog_timeout: &u32) -> (b: bool)
    ensures
        b == (*watchdog_timeout == WATCHDOG_TIMEOUT),
{
    *watchdog_timeout == WATCHDOG_TIMEOUT
}

} // verus!
