//! Error kinds of the protocol engine.

use vstd::prelude::*;
use vstd::string::StringExecFns;
use crate::text::append_decimal;
use crate::text::decimal_text;

verus! {

/// A configuration field that fails validation. Every variant names the field.
#[derive(Debug, Clone, PartialEq, Eq)]
pub enum ConfigError {
    /// A required string field is empty.
    FieldEmpty(String),
    /// A string field is longer than the device accepts.
    FieldTooLong(String),
    /// A numeric field lies outside the inclusive range given by the two bounds.
    FieldOutOfRange(String, usize, usize),
    /// The field is not an `IPv4:port` endpoint.
    InvalidEndpoint(String),
    /// The field is not an IPv4 address.
    InvalidIpAddress(String),
    /// The prefix length of a CIDR address is not a number from 0 to 255.
    InvalidIpCidrPrefix(String),
}

/// Mathematical model of a [`ConfigError`].
pub enum ConfigErrorView {
    FieldEmpty(Seq<char>),
    FieldTooLong(Seq<char>),
    FieldOutOfRange(Seq<char>, nat, nat),
    InvalidEndpoint(Seq<char>),
    InvalidIpAddress(Seq<char>),
    InvalidIpCidrPrefix(Seq<char>),
}

impl ConfigErrorView {
    /// The sentence that tells a user what is wrong.
    pub open spec fn message(self) -> Seq<char> {
        match self {
            ConfigErrorView::FieldEmpty(name) => "Config field '"@ + name + "' is empty"@,
            ConfigErrorView::FieldTooLong(name) => "Config field '"@ + name + "' is too long"@,
            ConfigErrorView::FieldOutOfRange(name, min, max) => "Config field '"@ + name
                + "' is out of range ["@ + decimal_text(min) + ".."@ + decimal_text(max) + "]"@,
            ConfigErrorView::InvalidEndpoint(name) => "Config field '"@ + name
                + "' is invalid endpoint"@,
            ConfigErrorView::InvalidIpAddress(name) => "Config field '"@ + name
                + "' is invalid IP address"@,
            ConfigErrorView::InvalidIpCidrPrefix(name) => "Config field '"@ + name
                + "' has invalid IPv4 CIDR prefix"@,
        }
    }
}

impl ConfigError {
    /// The sentence that tells a user what is wrong.
    pub fn message(&self) -> (text: String)
        ensures
            text@ == self@.message(),
    {
        let mut text = "Config field '".to_owned();
        match self {
            ConfigError::FieldEmpty(name) => {
                text.append(name.as_str());
                text.append("' is empty");
            },
            ConfigError::FieldTooLong(name) => {
                text.append(name.as_str());
                text.append("' is too long");
            },
            ConfigError::FieldOutOfRange(name, min, max) => {
                text.append(name.as_str());
                text.append("' is out of range [");
                append_decimal(&mut text, *min);
                text.append("..");
                append_decimal(&mut text, *max);
                text.append("]");
            },
            ConfigError::InvalidEndpoint(name) => {
                text.append(name.as_str());
                text.append("' is invalid endpoint");
            },
            ConfigError::InvalidIpAddress(name) => {
                text.append(name.as_str());
                text.append("' is invalid IP address");
            },
            ConfigError::InvalidIpCidrPrefix(name) => {
                text.append(name.as_str());
                text.append("' has invalid IPv4 CIDR prefix");
            },
        }
        text
    }
}

impl View for ConfigError {
    type V = ConfigErrorView;

    open spec fn view(&self) -> ConfigErrorView {
        match *self {
            ConfigError::FieldEmpty(name) => ConfigErrorView::FieldEmpty(name@),
            ConfigError::FieldTooLong(name) => ConfigErrorView::FieldTooLong(name@),
            ConfigError::FieldOutOfRange(name, min, max) => ConfigErrorView::FieldOutOfRange(
                name@,
                min as nat,
                max as nat,
            ),
            ConfigError::InvalidEndpoint(name) => ConfigErrorView::InvalidEndpoint(name@),
            ConfigError::InvalidIpAddress(name) => ConfigErrorView::InvalidIpAddress(name@),
            ConfigError::InvalidIpCidrPrefix(name) => ConfigErrorView::InvalidIpCidrPrefix(name@),
        }
    }
}

/// Everything that can go wrong between the host and the device.
///
/// The variants that report a failure of the transport carry the transport's
/// own description of it.
#[derive(Debug, Clone, PartialEq, Eq)]
pub enum Error {
    /// No matching device was found.
    DeviceNotFound,
    /// The device lacks the vendor interface of the KVM firmware.
    UnknownDevice,
    /// Another process holds the interface.
    DeviceBusy,
    /// The operating system refused the claim of the interface.
    PermissionDenied,
    /// Reading or writing a file or stream failed.
    Io(String),
    /// The active configuration descriptor could not be read.
    ActiveConfiguration(String),
    /// The USB stack reported an error.
    Usb(String),
    /// A bulk transfer completed with a status other than success.
    TransferFailed(String),
    /// A response had the wrong opcode or length.
    InvalidResponse,
    /// Serialisation or deserialisation failed.
    FormatError(String),
    /// A configuration field failed validation.
    ConfigError(ConfigError),
    /// The firmware on the device cannot be updated over USB.
    OtaNotSupported,
    /// The firmware upload failed.
    OtaError(String),
}

/// Mathematical model of an [`Error`].
pub enum ErrorView {
    DeviceNotFound,
    UnknownDevice,
    DeviceBusy,
    PermissionDenied,
    Io(Seq<char>),
    ActiveConfiguration(Seq<char>),
    Usb(Seq<char>),
    TransferFailed(Seq<char>),
    InvalidResponse,
    FormatError(Seq<char>),
    ConfigError(ConfigErrorView),
    OtaNotSupported,
    OtaError(Seq<char>),
}

impl ErrorView {
    /// The sentence that tells a user what went wrong.
    pub open spec fn message(self) -> Seq<char> {
        match self {
            ErrorView::DeviceNotFound => "Device not found"@,
            ErrorView::UnknownDevice => "Unknown device"@,
            ErrorView::DeviceBusy => "Device busy"@,
            ErrorView::PermissionDenied => "Permission denied"@,
            ErrorView::Io(text) => text,
            ErrorView::ActiveConfiguration(text) => text,
            ErrorView::Usb(text) => "USB error: "@ + text,
            ErrorView::TransferFailed(text) => "Transfer failed "@ + text,
            ErrorView::InvalidResponse => "Invalid response"@,
            ErrorView::FormatError(text) => "Format error, "@ + text,
            ErrorView::ConfigError(inner) => inner.message(),
            ErrorView::OtaNotSupported => "OTA not supported by this firmware"@,
            ErrorView::OtaError(text) => "OTA error: "@ + text,
        }
    }
}

impl Error {
    /// The sentence that tells a user what went wrong.
    pub fn message(&self) -> (text: String)
        ensures
            text@ == self@.message(),
    {
        match self {
            Error::DeviceNotFound => "Device not found".to_owned(),
            Error::UnknownDevice => "Unknown device".to_owned(),
            Error::DeviceBusy => "Device busy".to_owned(),
            Error::PermissionDenied => "Permission denied".to_owned(),
            Error::Io(text) => text.clone(),
            Error::ActiveConfiguration(text) => text.clone(),
            Error::Usb(text) => "USB error: ".to_owned().concat(text.as_str()),
            Error::TransferFailed(text) => "Transfer failed ".to_owned().concat(text.as_str()),
            Error::InvalidResponse => "Invalid response".to_owned(),
            Error::FormatError(text) => "Format error, ".to_owned().concat(text.as_str()),
            Error::ConfigError(inner) => inner.message(),
            Error::OtaNotSupported => "OTA not supported by this firmware".to_owned(),
            Error::OtaError(text) => "OTA error: ".to_owned().concat(text.as_str()),
        }
    }
}

impl View for Error {
    type V = ErrorView;

    open spec fn view(&self) -> ErrorView {
        match *self {
            Error::DeviceNotFound => ErrorView::DeviceNotFound,
            Error::UnknownDevice => ErrorView::UnknownDevice,
            Error::DeviceBusy => ErrorView::DeviceBusy,
            Error::PermissionDenied => ErrorView::PermissionDenied,
            Error::Io(text) => ErrorView::Io(text@),
            Error::ActiveConfiguration(text) => ErrorView::ActiveConfiguration(text@),
            Error::Usb(text) => ErrorView::Usb(text@),
            Error::TransferFailed(text) => ErrorView::TransferFailed(text@),
            Error::InvalidResponse => ErrorView::InvalidResponse,
            Error::FormatError(text) => ErrorView::FormatError(text@),
            Error::ConfigError(inner) => ErrorView::ConfigError(inner@),
            Error::OtaNotSupported => ErrorView::OtaNotSupported,
            Error::OtaError(text) => ErrorView::OtaError(text@),
        }
    }
}

} // verus!
