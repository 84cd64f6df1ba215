//! Host-side protocol engine for the Esparrier KVM USB device.
//!
//! The crate holds everything about the device protocol that can be decided
//! without touching the bus: the command and response codec, the device state
//! and configuration model with its validation rules and its wire document,
//! the packet framing of configuration transfers, the firmware upload state
//! machine with its CRC-32, and the rules by which a device, its interface
//! and its endpoints are selected and waited for. Callers own the transport:
//! they send the packets that the functions here produce and hand back the
//! packets that the device returns.
//!
//! Every function is verified against a contract over a mathematical model
//! of its arguments and results; the laws that relate several functions are
//! stated as public proof functions next to them.

pub mod codec;
pub mod config;
pub mod crc;
pub mod discovery;
pub mod document;
pub mod error;
pub mod hotplug;
pub mod ota;
pub mod release;
pub mod state;
pub mod text;
pub mod transfer;

pub use crate::codec::Command;
pub use crate::codec::PACKET_SIZE;
pub use crate::config::get_default_brightness;
pub use crate::config::get_default_jiggle_interval;
pub use crate::config::get_default_landing_url;
pub use crate::config::get_default_manufacturer;
pub use crate::config::get_default_pid;
pub use crate::config::get_default_polling_rate;
pub use crate::config::get_default_product;
pub use crate::config::get_default_screen_height;
pub use crate::config::get_default_screen_width;
pub use crate::config::get_default_serial_number;
pub use crate::config::get_default_vid;
pub use crate::config::get_default_watchdog_timeout;
pub use crate::config::is_default_jiggle_interval;
pub use crate::config::is_default_landing_url;
pub use crate::config::is_default_manufacturer;
pub use crate::config::is_default_pid;
pub use crate::config::is_default_polling_rate;
pub use crate::config::is_default_product;
pub use crate::config::is_default_serial_number;
pub use crate::config::is_default_vid;
pub use crate::config::is_default_watchdog_timeout;
pub use crate::config::EsparrierConfig;
pub use crate::config::BRIGHTNESS;
pub use crate::config::JIGGLE_INTERVAL;
pub use crate::config::LANDING_URL;
pub use crate::config::POLLING_RATE;
pub use crate::config::REVERSED_WHEEL;
pub use crate::config::SCREEN_HEIGHT;
pub use crate::config::SCREEN_WIDTH;
pub use crate::config::USB_MANUFACTURER;
pub use crate::config::USB_PID;
pub use crate::config::USB_PRODUCT;
pub use crate::config::USB_SERIAL_NUMBER;
pub use crate::config::USB_VID;
pub use crate::config::WATCHDOG_TIMEOUT;
pub use crate::crc::crc32;
pub use crate::discovery::bus_id_matches;
pub use crate::discovery::DeviceFilter;
pub use crate::discovery::DeviceIdentity;
pub use crate::document::ConfigDocument;
pub use crate::error::ConfigError;
pub use crate::error::Error;
pub use crate::ota::OtaSession;
pub use crate::ota::OtaStep;
pub use crate::release::match_firmware_kind;
pub use crate::release::Asset;
pub use crate::release::FirmwareKind;
pub use crate::release::GithubRelease;
pub use crate::state::model_id_to_name;
pub use crate::state::EsparrierState;
pub use crate::state::FeatureFlag;
