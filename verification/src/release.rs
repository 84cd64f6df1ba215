//! Choosing firmware from a published release: which asset belongs to a
//! device model, and which file of the asset's archive is the image to
//! upload.

use vstd::prelude::*;
use vstd::utf8::encode_utf8;
use crate::text::contains;
use crate::text::ends_with;
use crate::text::has_prefix;
use crate::text::has_suffix;
use crate::text::occurs_in;
use crate::text::starts_with;

verus! {

/// A file attached to a release.
#[derive(Clone, Debug, PartialEq, Eq)]
pub struct Asset {
    pub name: String,
    pub browser_download_url: String,
}

/// A published release.
#[derive(Clone, Debug, PartialEq, Eq)]
pub struct GithubRelease {
    pub tag_name: String,
    pub assets: Vec<Asset>,
}

/// The boards for which firmware is published, and `Custom` for firmware
/// that is built by hand and never published.
#[allow(non_camel_case_types)]
#[derive(Clone, Copy, Debug, PartialEq, Eq, Hash, Structural)]
pub enum FirmwareKind {
    Generic,
    M5AtomS3Lite,
    M5AtomS3,
    M5AtomS3R,
    XiaoESP32S3,
    DevKitC1_0,
    DevKitC1_1,
    Custom,
}

impl FirmwareKind {
    /// How the names of the assets for this kind of firmware begin; `None`
    /// for a kind that has no assets.
    pub open spec fn asset_prefix(self) -> Option<Seq<char>> {
        match self {
            FirmwareKind::Generic => Some("esparrier-generic-v"@),
            FirmwareKind::M5AtomS3Lite => Some("esparrier-m5atoms3-lite-v"@),
            FirmwareKind::M5AtomS3 => Some("esparrier-m5atoms3-v"@),
            FirmwareKind::M5AtomS3R => Some("esparrier-m5atoms3r-v"@),
            FirmwareKind::XiaoESP32S3 => Some("esparrier-xiao-esp32s3-v"@),
            FirmwareKind::DevKitC1_0 => Some("esparrier-devkitc-1_0-v"@),
            FirmwareKind::DevKitC1_1 => Some("esparrier-devkitc-1_1-v"@),
            FirmwareKind::Custom => None,
        }
    }
}

/// Whether the text `s` begins with the text `prefix`.
pub open spec fn text_has_prefix(s: Seq<char>, prefix: Seq<char>) -> bool {
    has_prefix(encode_utf8(s), encode_utf8(prefix))
}

/// Tells whether `asset` holds firmware of the kind `kind`.
pub fn match_firmware_kind(asset: &Asset, kind: FirmwareKind) -> (yes: bool)
    ensures
        yes == match kind.asset_prefix() {
            Some(prefix) => text_has_prefix(asset.name@, prefix),
            None => false,
        },
{
    let name = asset.name.as_str().as_bytes();
    match kind {
        FirmwareKind::Generic => starts_with(name, "esparrier-generic-v".as_bytes()),
        FirmwareKind::M5AtomS3Lite => starts_with(name, "esparrier-m5atoms3-lite-v".as_bytes()),
        FirmwareKind::M5AtomS3 => starts_with(name, "esparrier-m5atoms3-v".as_bytes()),
        FirmwareKind::M5AtomS3R => starts_with(name, "esparrier-m5atoms3r-v".as_bytes()),
        FirmwareKind::XiaoESP32S3 => starts_with(name, "esparrier-xiao-esp32s3-v".as_bytes()),
        FirmwareKind::DevKitC1_0 => starts_with(name, "esparrier-devkitc-1_0-v".as_bytes()),
        FirmwareKind::DevKitC1_1 => starts_with(name, "esparrier-devkitc-1_1-v".as_bytes()),
        FirmwareKind::Custom => false,
    }
}

/// How the names of the assets for the model with slug `model` begin:
/// `esparrier-`, the slug, and `-v`.
pub open spec fn model_asset_prefix(model: Seq<char>) -> Seq<u8> {
    encode_utf8("esparrier-"@) + encode_utf8(model) + encode_utf8("-v"@)
}

/// Whether an asset of the name `name` is the firmware archive for the model
/// with slug `model`.
pub open spec fn is_model_asset(name: Seq<char>, model: Seq<char>) -> bool {
    has_prefix(encode_utf8(name), model_asset_prefix(model)) && has_suffix(
        encode_utf8(name),
        encode_utf8(".tar.gz"@),
    )
}

/// Appends `part` to `out`.
fn append_bytes(out: &mut Vec<u8>, part: &[u8])
    ensures
        final(out)@ == old(out)@ + part@,
{
    let mut i: usize = 0;
    while i < part.len()
        invariant
            i <= part@.len(),
            out@ == old(out)@ + part@.take(i as int),
        decreases part@.len() - i,
    {
        out.push(part[i]);
        i = i + 1;
    }
    assert(part@.take(i as int) == part@);
}

impl GithubRelease {
    /// Finds the firmware archive for the model with slug `model_name`: the
    /// position of the first asset whose name begins with `esparrier-`, the
    /// slug and `-v`, and ends with `.tar.gz`.
    pub fn find_asset(&self, model_name: &str) -> (found: Option<usize>)
        ensures
            match found {
                Some(at) => {
                    &&& at < self.assets@.len()
                    &&& is_model_asset(self.assets@[at as int].name@, model_name@)
                    &&& forall|j: int|
                        0 <= j < at ==> !is_model_asset(
                            (#[trigger] self.assets@[j]).name@,
                            model_name@,
                        )
                },
                None => forall|j: int|
                    0 <= j < self.assets@.len() ==> !is_model_asset(
                        (#[trigger] self.assets@[j]).name@,
                        model_name@,
                    ),
            },
    {
        let mut prefix: Vec<u8> = Vec::new();
        append_bytes(&mut prefix, "esparrier-".as_bytes());
        append_bytes(&mut prefix, model_name.as_bytes());
        append_bytes(&mut prefix, "-v".as_bytes());
        let mut i: usize = 0;
        while i < self.assets.len()
            invariant
                i <= self.assets@.len(),
                prefix@ == model_asset_prefix(model_name@),
                forall|j: int|
                    0 <= j < i ==> !is_model_asset((#[trigger] self.assets@[j]).name@, model_name@),
            decreases self.assets@.len() - i,
        {
            let name = self.assets[i].name.as_str().as_bytes();
            if starts_with(name, prefix.as_slice()) && ends_with(name, ".tar.gz".as_bytes()) {
                return Some(i);
            }
            i = i + 1;
        }
        None
    }
}

/// Whether the archive entry at `path` is the image to upload: a `.bin`
/// file that is neither the bootloader, nor the partition table, nor the
/// merged flash image.
pub open spec fn firmware_entry(path: Seq<char>) -> bool {
    let bytes = encode_utf8(path);
    &&& has_suffix(bytes, encode_utf8(".bin"@))
    &&& !occurs_in(bytes, encode_utf8("bootloader"@))
    &&& !occurs_in(bytes, encode_utf8("partition"@))
    &&& !occurs_in(bytes, encode_utf8("merged"@))
}

/// Tells whether the archive entry at `path` is the image to upload.
pub fn is_firmware_entry(path: &str) -> (yes: bool)
    ensures
        yes == firmware_entry(path@),
{
    let bytes = path.as_bytes();
    ends_with(bytes, ".bin".as_bytes()) && !contains(bytes, "bootloader".as_bytes()) && !contains(
        bytes,
        "partition".as_bytes(),
    ) && !contains(bytes, "merged".as_bytes())
}

} // verus!
