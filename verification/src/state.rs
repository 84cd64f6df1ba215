//! The device state snapshot and the model registry.

use vstd::prelude::*;
use vstd::string::StringExecFns;
use crate::text::append_decimal;
use crate::text::decimal_text;

verus! {

/// Length of a state report, opcode included.
pub const STATE_REPORT_LEN: usize = 14;

/// A capability bit in the feature flags of a state report.
#[derive(Copy, Clone, Debug, Hash, PartialEq, Eq, Structural)]
pub enum FeatureFlag {
    Led,
    SmartLed,
    Graphics,
    Ota,
    Clipboard,
}

impl FeatureFlag {
    /// The bit that stands for this capability.
    pub open spec fn bit(self) -> u8 {
        match self {
            FeatureFlag::Led => 0x01,
            FeatureFlag::SmartLed => 0x02,
            FeatureFlag::Graphics => 0x04,
            FeatureFlag::Ota => 0x40,
            FeatureFlag::Clipboard => 0x80,
        }
    }

    /// Returns the bit that stands for this capability.
    pub fn mask(self) -> (m: u8)
        ensures
            m == self.bit(),
    {
        match self {
            FeatureFlag::Led => 0x01,
            FeatureFlag::SmartLed => 0x02,
            FeatureFlag::Graphics => 0x04,
            FeatureFlag::Ota => 0x40,
            FeatureFlag::Clipboard => 0x80,
        }
    }
}

/// What the device reports about itself.
#[derive(Clone, Copy, Debug, PartialEq, Eq)]
pub struct EsparrierState {
    pub version_major: u8,
    pub version_minor: u8,
    pub version_patch: u8,
    pub feature_flags: u8,
    /// The four octets of the device's IPv4 address, first octet first.
    pub ip_address: [u8; 4],
    pub ip_prefix: u8,
    pub server_connected: bool,
    pub active: bool,
    pub keep_awake: bool,
    pub model_id: u8,
}

impl EsparrierState {
    /// Whether `self` is what the report `bytes` says, field by field.
    pub open spec fn decodes(&self, bytes: Seq<u8>) -> bool {
        &&& self.version_major == bytes[1]
        &&& self.version_minor == bytes[2]
        &&& self.version_patch == bytes[3]
        &&& self.feature_flags == bytes[4]
        &&& self.ip_address@ == bytes.subrange(5, 9)
        &&& self.ip_prefix == bytes[9]
        &&& self.server_connected == (bytes[10] != 0)
        &&& self.active == (bytes[11] != 0)
        &&& self.keep_awake == (bytes[12] != 0)
        &&& self.model_id == bytes[13]
    }

    /// Reads the fields of a state report. The first byte, the opcode, is not
    /// looked at.
    pub fn from_bytes(bytes: &[u8]) -> (state: Self)
        requires
            bytes@.len() >= STATE_REPORT_LEN,
        ensures
            state.decodes(bytes@),
    {
        let state = EsparrierState {
            version_major: bytes[1],
            version_minor: bytes[2],
            version_patch: bytes[3],
            feature_flags: bytes[4],
            ip_address: [bytes[5], bytes[6], bytes[7], bytes[8]],
            ip_prefix: bytes[9],
            server_connected: bytes[10] != 0,
            active: bytes[11] != 0,
            keep_awake: bytes[12] != 0,
            model_id: bytes[13],
        };
        assert(state.ip_address@ =~= bytes@.subrange(5, 9));
        state
    }

    /// Whether the capability `flag` is set in the feature flags.
    pub open spec fn supports(&self, flag: FeatureFlag) -> bool {
        self.feature_flags & flag.bit() != 0
    }

    /// Checks if a specific feature flag is set.
    pub fn has_feature(&self, flag: FeatureFlag) -> (set: bool)
        ensures
            set == self.supports(flag),
    {
        self.feature_flags & flag.mask() != 0
    }

    /// Checks if the firmware accepts firmware updates over USB.
    pub fn has_ota_support(&self) -> (set: bool)
        ensures
            set == self.supports(FeatureFlag::Ota),
            set == (self.feature_flags & 0x40 != 0),
    {
        self.has_feature(FeatureFlag::Ota)
    }

    /// The firmware version as `(major, minor, patch)`.
    pub fn version(&self) -> (v: (u8, u8, u8))
        ensures
            v == (self.version_major, self.version_minor, self.version_patch),
    {
        (self.version_major, self.version_minor, self.version_patch)
    }

    /// The firmware version in the form `major.minor.patch`.
    pub open spec fn version_text(&self) -> Seq<char> {
        decimal_text(self.version_major as nat) + "."@ + decimal_text(self.version_minor as nat)
            + "."@ + decimal_text(self.version_patch as nat)
    }

    /// The firmware version as text, such as `0.7.0`.
    pub fn version_string(&self) -> (text: String)
        ensures
            text@ == self.version_text(),
    {
        let mut text = String::new();
        append_decimal(&mut text, self.version_major as usize);
        text.append(".");
        append_decimal(&mut text, self.version_minor as usize);
        text.append(".");
        append_decimal(&mut text, self.version_patch as usize);
        text
    }

    /// The asset-name slug of the device's model, if the model is known.
    pub fn model_name(&self) -> (name: Option<&'static str>)
        ensures
            name is Some == model_slug(self.model_id) is Some,
            name matches Some(slug) ==> model_slug(self.model_id) == Some(slug@),
    {
        model_id_to_name(self.model_id)
    }
}

/// The model registry: the asset-name slug of each known model identifier.
pub open spec fn model_slug(model_id: u8) -> Option<Seq<char>> {
    if model_id == 1 {
        Some("m5atoms3-lite"@)
    } else if model_id == 2 {
        Some("m5atoms3"@)
    } else if model_id == 3 {
        Some("m5atoms3r"@)
    } else if model_id == 4 {
        Some("devkitc-1_0"@)
    } else if model_id == 5 {
        Some("devkitc-1_1"@)
    } else if model_id == 6 {
        Some("xiao-esp32s3"@)
    } else if model_id == 7 {
        Some("esp32-s3-eth"@)
    } else if model_id == 255 {
        Some("generic"@)
    } else {
        None
    }
}

/// Maps a model identifier to the slug under which firmware for that model is
/// published. Unknown identifiers give `None`.
pub fn model_id_to_name(model_id: u8) -> (name: Option<&'static str>)
    ensures
        name is Some == model_slug(model_id) is Some,
        name matches Some(slug) ==> model_slug(model_id) == Some(slug@),
{
    match model_id {
        1 => Some("m5atoms3-lite"),
        2 => Some("m5atoms3"),
        3 => Some("m5atoms3r"),
        4 => Some("devkitc-1_0"),
        5 => Some("devkitc-1_1"),
        6 => Some("xiao-esp32s3"),
        7 => Some("esp32-s3-eth"),
        255 => Some("generic"),
        _ => None,
    }
}

} // verus!
