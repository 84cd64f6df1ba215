//! The configuration as a document: the fields that go on the wire.
//!
//! On the wire a configuration is a JSON object. A field that holds its
//! default is left out of the object, and a field that the object lacks takes
//! its default. A [`ConfigDocument`] is such an object, field by field: what
//! is `None` is absent. Turning the document into text and back is left to
//! the caller.

use vstd::prelude::*;
use crate::config::get_default_brightness;
use crate::config::get_default_jiggle_interval;
use crate::config::get_default_landing_url;
use crate::config::get_default_manufacturer;
use crate::config::get_default_pid;
use crate::config::get_default_polling_rate;
use crate::config::get_default_product;
use crate::config::get_default_screen_height;
use crate::config::get_default_screen_width;
use crate::config::get_default_serial_number;
use crate::config::get_default_vid;
use crate::config::get_default_watchdog_timeout;
use crate::config::is_default_jiggle_interval;
use crate::config::is_default_landing_url;
use crate::config::is_default_manufacturer;
use crate::config::is_default_pid;
use crate::config::is_default_polling_rate;
use crate::config::is_default_product;
use crate::config::is_default_serial_number;
use crate::config::is_default_vid;
use crate::config::is_default_watchdog_timeout;
use crate::config::EsparrierConfig;
use crate::config::EsparrierConfigView;
use crate::config::BRIGHTNESS;
use crate::config::JIGGLE_INTERVAL;
use crate::config::LANDING_URL;
use crate::config::POLLING_RATE;
use crate::config::REVERSED_WHEEL;
use crate::config::SCREEN_HEIGHT;
use crate::config::SCREEN_WIDTH;
use crate::config::USB_MANUFACTURER;
use crate::config::USB_PID;
use crate::config::USB_PRODUCT;
use crate::config::USB_SERIAL_NUMBER;
use crate::config::USB_VID;
use crate::config::WATCHDOG_TIMEOUT;
use crate::error::Error;
use crate::error::ErrorView;

verus! {

/// The fields of a configuration that go on the wire. A field that is `None`
/// is absent.
#[derive(Clone, Debug, Default, PartialEq, Eq)]
pub struct ConfigDocument {
    pub ssid: Option<String>,
    pub password: Option<String>,
    pub server: Option<String>,
    pub screen_name: Option<String>,
    pub screen_width: Option<u16>,
    pub screen_height: Option<u16>,
    pub flip_wheel: Option<bool>,
    pub polling_rate: Option<u16>,
    pub jiggle_interval: Option<u16>,
    pub brightness: Option<u8>,
    pub ip_addr: Option<String>,
    pub dns_server: Option<Vec<String>>,
    pub gateway: Option<String>,
    pub vid: Option<u16>,
    pub pid: Option<u16>,
    pub manufacturer: Option<String>,
    pub product: Option<String>,
    pub serial_number: Option<String>,
    pub landing_url: Option<String>,
    pub watchdog_timeout: Option<u32>,
}

/// Mathematical model of a [`ConfigDocument`].
pub struct ConfigDocumentView {
    pub ssid: Option<Seq<char>>,
    pub password: Option<Seq<char>>,
    pub server: Option<Seq<char>>,
    pub screen_name: Option<Seq<char>>,
    pub screen_width: Option<u16>,
    pub screen_height: Option<u16>,
    pub flip_wheel: Option<bool>,
    pub polling_rate: Option<u16>,
    pub jiggle_interval: Option<u16>,
    pub brightness: Option<u8>,
    pub ip_addr: Option<Seq<char>>,
    pub dns_server: Option<Seq<Seq<char>>>,
    pub gateway: Option<Seq<char>>,
    pub vid: Option<u16>,
    pub pid: Option<u16>,
    pub manufacturer: Option<Seq<char>>,
    pub product: Option<Seq<char>>,
    pub serial_number: Option<Seq<char>>,
    pub landing_url: Option<Seq<char>>,
    pub watchdog_timeout: Option<u32>,
}

impl View for ConfigDocument {
    type V = ConfigDocumentView;

    open spec fn view(&self) -> ConfigDocumentView {
        ConfigDocumentView {
            ssid: match self.ssid {
                Some(text) => Some(text@),
                None => None,
            },
            password: match self.password {
                Some(text) => Some(text@),
                None => None,
            },
            server: match self.server {
                Some(text) => Some(text@),
                None => None,
            },
            screen_name: match self.screen_name {
                Some(text) => Some(text@),
                None => None,
            },
            screen_width: self.screen_width,
            screen_height: self.screen_height,
            flip_wheel: self.flip_wheel,
            polling_rate: self.polling_rate,
            jiggle_interval: self.jiggle_interval,
            brightness: self.brightness,
            ip_addr: match self.ip_addr {
                Some(text) => Some(text@),
                None => None,
            },
            dns_server: match self.dns_server {
                Some(list) => Some(list.deep_view()),
                None => None,
            },
            gateway: match self.gateway {
                Some(text) => Some(text@),
                None => None,
            },
            vid: self.vid,
            pid: self.pid,
            manufacturer: match self.manufacturer {
                Some(text) => Some(text@),
                None => None,
            },
            product: match self.product {
                Some(text) => Some(text@),
                None => None,
            },
            serial_number: match self.serial_number {
                Some(text) => Some(text@),
                None => None,
            },
            landing_url: match self.landing_url {
                Some(text) => Some(text@),
                None => None,
            },
            watchdog_timeout: self.watchdog_timeout,
        }
    }
}

/// The field as it goes on the wire: absent if `value` is the default.
pub open spec fn emitted<T>(value: T, default: T) -> Option<T> {
    if value == default {
        None
    } else {
        Some(value)
    }
}

/// The value of a field on the wire: the default if the field is absent.
pub open spec fn filled<T>(field: Option<T>, default: T) -> T {
    match field {
        Some(value) => value,
        None => default,
    }
}

impl EsparrierConfigView {
    /// The configuration of defaults: what the empty document stands for.
    pub open spec fn defaults() -> EsparrierConfigView {
        EsparrierConfigView {
            ssid: Seq::empty(),
            password: Seq::empty(),
            server: Seq::empty(),
            screen_name: Seq::empty(),
            screen_width: SCREEN_WIDTH,
            screen_height: SCREEN_HEIGHT,
            flip_wheel: REVERSED_WHEEL,
            polling_rate: POLLING_RATE,
            jiggle_interval: JIGGLE_INTERVAL,
            brightness: BRIGHTNESS,
            ip_addr: None,
            dns_server: Seq::empty(),
            gateway: None,
            vid: USB_VID,
            pid: USB_PID,
            manufacturer: USB_MANUFACTURER@,
            product: USB_PRODUCT@,
            serial_number: USB_SERIAL_NUMBER@,
            landing_url: LANDING_URL@,
            watchdog_timeout: WATCHDOG_TIMEOUT,
        }
    }

    /// The document of the configuration: every field that differs from its
    /// default, and no other.
    pub open spec fn document(self) -> ConfigDocumentView {
        let d = EsparrierConfigView::defaults();
        ConfigDocumentView {
            ssid: emitted(self.ssid, d.ssid),
            password: emitted(self.password, d.password),
            server: emitted(self.server, d.server),
            screen_name: emitted(self.screen_name, d.screen_name),
            screen_width: emitted(self.screen_width, d.screen_width),
            screen_height: emitted(self.screen_height, d.screen_height),
            flip_wheel: emitted(self.flip_wheel, d.flip_wheel),
            polling_rate: emitted(self.polling_rate, d.polling_rate),
            jiggle_interval: emitted(self.jiggle_interval, d.jiggle_interval),
            brightness: emitted(self.brightness, d.brightness),
            ip_addr: self.ip_addr,
            dns_server: emitted(self.dns_server, d.dns_server),
            gateway: self.gateway,
            vid: emitted(self.vid, d.vid),
            pid: emitted(self.pid, d.pid),
            manufacturer: emitted(self.manufacturer, d.manufacturer),
            product: emitted(self.product, d.product),
            serial_number: emitted(self.serial_number, d.serial_number),
            landing_url: emitted(self.landing_url, d.landing_url),
            watchdog_timeout: emitted(self.watchdog_timeout, d.watchdog_timeout),
        }
    }
}

impl ConfigDocumentView {
    /// The configuration that the document stands for: every field that is
    /// present, and the default of every field that is absent.
    pub open spec fn config(self) -> EsparrierConfigView {
        let d = EsparrierConfigView::defaults();
        EsparrierConfigView {
            ssid: filled(self.ssid, d.ssid),
            password: filled(self.password, d.password),
            server: filled(self.server, d.server),
            screen_name: filled(self.screen_name, d.screen_name),
            screen_width: filled(self.screen_width, d.screen_width),
            screen_height: filled(self.screen_height, d.screen_height),
            flip_wheel: filled(self.flip_wheel, d.flip_wheel),
            polling_rate: filled(self.polling_rate, d.polling_rate),
            jiggle_interval: filled(self.jiggle_interval, d.jiggle_interval),
            brightness: filled(self.brightness, d.brightness),
            ip_addr: self.ip_addr,
            dns_server: filled(self.dns_server, d.dns_server),
            gateway: self.gateway,
            vid: filled(self.vid, d.vid),
            pid: filled(self.pid, d.pid),
            manufacturer: filled(self.manufacturer, d.manufacturer),
            product: filled(self.product, d.product),
            serial_number: filled(self.serial_number, d.serial_number),
            landing_url: filled(self.landing_url, d.landing_url),
            watchdog_timeout: filled(self.watchdog_timeout, d.watchdog_timeout),
        }
    }
}

/// Round trip: the document of a configuration stands for that
/// configuration.
pub proof fn document_round_trip(c: EsparrierConfigView)
    ensures
        c.document().config() == c,
{
}

/// Default omission: a field is absent from the document of a configuration
/// if it equals its default, and present with its value otherwise.
pub proof fn document_omits_defaults(c: EsparrierConfigView)
    ensures
        c.document().ssid is None <==> c.ssid == EsparrierConfigView::defaults().ssid,
        c.document().ssid matches Some(value) ==> value == c.ssid,
        c.document().password is None <==> c.password == EsparrierConfigView::defaults().password,
        c.document().password matches Some(value) ==> value == c.password,
        c.document().server is None <==> c.server == EsparrierConfigView::defaults().server,
        c.document().server matches Some(value) ==> value == c.server,
        c.document().screen_name is None <==> c.screen_name == EsparrierConfigView::defaults().screen_name,
        c.document().screen_name matches Some(value) ==> value == c.screen_name,
        c.document().screen_width is None <==> c.screen_width == EsparrierConfigView::defaults().screen_width,
        c.document().screen_width matches Some(value) ==> value == c.screen_width,
        c.document().screen_height is None <==> c.screen_height == EsparrierConfigView::defaults().screen_height,
        c.document().screen_height matches Some(value) ==> value == c.screen_height,
        c.document().flip_wheel is None <==> c.flip_wheel == EsparrierConfigView::defaults().flip_wheel,
        c.document().flip_wheel matches Some(value) ==> value == c.flip_wheel,
        c.document().polling_rate is None <==> c.polling_rate == EsparrierConfigView::defaults().polling_rate,
        c.document().polling_rate matches Some(value) ==> value == c.polling_rate,
        c.document().jiggle_interval is None <==> c.jiggle_interval == EsparrierConfigView::defaults().jiggle_interval,
        c.document().jiggle_interval matches Some(value) ==> value == c.jiggle_interval,
        c.document().brightness is None <==> c.brightness == EsparrierConfigView::defaults().brightness,
        c.document().brightness matches Some(value) ==> value == c.brightness,
        c.document().ip_addr == c.ip_addr,
        c.document().dns_server is None <==> c.dns_server == EsparrierConfigView::defaults().dns_server,
        c.document().dns_server matches Some(value) ==> value == c.dns_server,
        c.document().gateway == c.gateway,
        c.document().vid is None <==> c.vid == EsparrierConfigView::defaults().vid,
        c.document().vid matches Some(value) ==> value == c.vid,
        c.document().pid is None <==> c.pid == EsparrierConfigView::defaults().pid,
        c.document().pid matches Some(value) ==> value == c.pid,
        c.document().manufacturer is None <==> c.manufacturer == EsparrierConfigView::defaults().manufacturer,
        c.document().manufacturer matches Some(value) ==> value == c.manufacturer,
        c.document().product is None <==> c.product == EsparrierConfigView::defaults().product,
        c.document().product matches Some(value) ==> value == c.product,
        c.document().serial_number is None <==> c.serial_number == EsparrierConfigView::defaults().serial_number,
        c.document().serial_number matches Some(value) ==> value == c.serial_number,
        c.document().landing_url is None <==> c.landing_url == EsparrierConfigView::defaults().landing_url,
        c.document().landing_url matches Some(value) ==> value == c.landing_url,
        c.document().watchdog_timeout is None <==> c.watchdog_timeout == EsparrierConfigView::defaults().watchdog_timeout,
        c.document().watchdog_timeout matches Some(value) ==> value == c.watchdog_timeout,
{
}

/// Redaction: a document without a password stands for a configuration, the
/// one with the empty password; and the empty password never goes into a
/// document.
pub proof fn password_may_be_missing(d: ConfigDocumentView, c: EsparrierConfigView)
    ensures
        d.password is None ==> d.config().password == Seq::<char>::empty(),
        c.password.len() == 0 <==> c.document().password is None,
{
    assert(c.password.len() == 0 <==> c.password =~= Seq::<char>::empty());
}

/// The document of the configuration of defaults is empty.
pub proof fn empty_document_is_defaults()
    ensures
        EsparrierConfigView::defaults().document() == (ConfigDocumentView {
            ssid: None,
            password: None,
            server: None,
            screen_name: None,
            screen_width: None,
            screen_height: None,
            flip_wheel: None,
            polling_rate: None,
            jiggle_interval: None,
            brightness: None,
            ip_addr: None,
            dns_server: None,
            gateway: None,
            vid: None,
            pid: None,
            manufacturer: None,
            product: None,
            serial_number: None,
            landing_url: None,
            watchdog_timeout: None,
        }),
{
}

/// Copies a list of strings.
fn clone_strings(list: &Vec<String>) -> (copy: Vec<String>)
    ensures
        copy.deep_view() == list.deep_view(),
{
    let mut copy: Vec<String> = Vec::new();
    let mut i: usize = 0;
    while i < list.len()
        invariant
            i <= list@.len(),
            copy@.len() == i,
            forall|j: int| 0 <= j < i ==> (#[trigger] copy@[j])@ == list@[j]@,
        decreases list@.len() - i,
    {
        copy.push(list[i].clone());
        i = i + 1;
    }
    assert(copy.deep_view() =~~= list.deep_view());
    copy
}

/// The string field as it goes on the wire.
fn emit_string(value: &String, is_default: bool) -> (field: Option<String>)
    ensures
        field is None <==> is_default,
        field matches Some(text) ==> text@ == value@,
{
    if is_default {
        None
    } else {
        Some(value.clone())
    }
}

impl EsparrierConfig {
    /// Makes the document of the configuration: the fields that differ from
    /// their defaults.
    pub fn to_document(&self) -> (doc: ConfigDocument)
        ensures
            doc@ == self@.document(),
    {
        let doc = ConfigDocument {
            ssid: emit_string(&self.ssid, self.ssid.as_str().is_empty()),
            password: emit_string(&self.password, self.password.as_str().is_empty()),
            server: emit_string(&self.server, self.server.as_str().is_empty()),
            screen_name: emit_string(&self.screen_name, self.screen_name.as_str().is_empty()),
            screen_width: if self.screen_width == SCREEN_WIDTH {
                None
            } else {
                Some(self.screen_width)
            },
            screen_height: if self.screen_height == SCREEN_HEIGHT {
                None
            } else {
                Some(self.screen_height)
            },
            flip_wheel: if self.flip_wheel == REVERSED_WHEEL {
                None
            } else {
                Some(self.flip_wheel)
            },
            polling_rate: if is_default_polling_rate(&self.polling_rate) {
                None
            } else {
                Some(self.polling_rate)
            },
            jiggle_interval: if is_default_jiggle_interval(&self.jiggle_interval) {
                None
            } else {
                Some(self.jiggle_interval)
            },
            brightness: if self.brightness == BRIGHTNESS {
                None
            } else {
                Some(self.brightness)
            },
            ip_addr: match &self.ip_addr {
                Some(text) => Some(text.clone()),
                None => None,
            },
            dns_server: if self.dns_server.len() == 0 {
                None
            } else {
                Some(clone_strings(&self.dns_server))
            },
            gateway: match &self.gateway {
                Some(text) => Some(text.clone()),
                None => None,
            },
            vid: if is_default_vid(&self.vid) {
                None
            } else {
                Some(self.vid)
            },
            pid: if is_default_pid(&self.pid) {
                None
            } else {
                Some(self.pid)
            },
            manufacturer: emit_string(&self.manufacturer, is_default_manufacturer(&self.manufacturer)),
            product: emit_string(&self.product, is_default_product(&self.product)),
            serial_number: emit_string(&self.serial_number, is_default_serial_number(&self.serial_number)),
            landing_url: emit_string(&self.landing_url, is_default_landing_url(&self.landing_url)),
            watchdog_timeout: if is_default_watchdog_timeout(&self.watchdog_timeout) {
                None
            } else {
                Some(self.watchdog_timeout)
            },
        };
        proof {
            let d = EsparrierConfigView::defaults();
            assert(self@.ssid.len() == 0 <==> self@.ssid =~= d.ssid);
            assert(self@.password.len() == 0 <==> self@.password =~= d.password);
            assert(self@.server.len() == 0 <==> self@.server =~= d.server);
            assert(self@.screen_name.len() == 0 <==> self@.screen_name =~= d.screen_name);
            assert(self@.dns_server.len() == 0 <==> self@.dns_server =~= d.dns_server);
            assert(self.dns_server@.len() == self@.dns_server.len());
        }
        doc
    }

    /// Makes the document to upload. Only a configuration that passes
    /// validation has one; for any other the first broken rule is reported,
    /// and nothing is to be sent.
    pub fn upload_document(&self) -> (r: Result<ConfigDocument, Error>)
        ensures
            r is Ok <==> self@.valid(),
            r matches Ok(doc) ==> doc@ == self@.document(),
            r matches Err(e) ==> self@.violation() matches Some(v) && e@ == ErrorView::ConfigError(
                v,
            ),
    {
        match self.validate() {
            Ok(_) => Ok(self.to_document()),
            Err(e) => Err(e),
        }
    }

    /// Makes the configuration that the document stands for: absent fields
    /// take their defaults.
    pub fn from_document(doc: ConfigDocument) -> (config: EsparrierConfig)
        ensures
            config@ == doc@.config(),
    {
        let config = EsparrierConfig {
            ssid: fill_string(doc.ssid, String::new()),
            password: fill_string(doc.password, String::new()),
            server: fill_string(doc.server, String::new()),
            screen_name: fill_string(doc.screen_name, String::new()),
            screen_width: fill(doc.screen_width, get_default_screen_width()),
            screen_height: fill(doc.screen_height, get_default_screen_height()),
            flip_wheel: fill(doc.flip_wheel, REVERSED_WHEEL),
            polling_rate: fill(doc.polling_rate, get_default_polling_rate()),
            jiggle_interval: fill(doc.jiggle_interval, get_default_jiggle_interval()),
            brightness: fill(doc.brightness, get_default_brightness()),
            ip_addr: doc.ip_addr,
            dns_server: fill_strings(doc.dns_server),
            gateway: doc.gateway,
            vid: fill(doc.vid, get_default_vid()),
            pid: fill(doc.pid, get_default_pid()),
            manufacturer: fill_string(doc.manufacturer, get_default_manufacturer()),
            product: fill_string(doc.product, get_default_product()),
            serial_number: fill_string(doc.serial_number, get_default_serial_number()),
            landing_url: fill_string(doc.landing_url, get_default_landing_url()),
            watchdog_timeout: fill(doc.watchdog_timeout, get_default_watchdog_timeout()),
        };
        config
    }
}

/// The value of a field: the default if the field is absent.
fn fill<T: Copy>(field: Option<T>, default: T) -> (value: T)
    ensures
        value == filled(field, default),
{
    match field {
        Some(value) => value,
        None => default,
    }
}

/// The value of a string field: the default if the field is absent.
fn fill_string(field: Option<String>, default: String) -> (value: String)
    ensures
        value@ == filled(
            match field {
                Some(text) => Some(text@),
                None => None,
            },
            default@,
        ),
{
    match field {
        Some(value) => value,
        None => default,
    }
}

/// The value of a list field: the empty list if the field is absent.
fn fill_strings(field: Option<Vec<String>>) -> (value: Vec<String>)
    ensures
        value.deep_view() == filled(
            match field {
                Some(list) => Some(list.deep_view()),
                None => None,
            },
            Seq::<Seq<char>>::empty(),
        ),
{
    match field {
        Some(value) => value,
        None => {
            let value: Vec<String> = Vec::new();
            assert(value.deep_view() =~= Seq::<Seq<char>>::empty());
            value
        },
    }
}

} // verus!
