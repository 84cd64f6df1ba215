use esparrier_config::match_firmware_kind;
use esparrier_config::release::is_firmware_entry;
use esparrier_config::Asset;
use esparrier_config::FirmwareKind;
use esparrier_config::GithubRelease;

fn asset(name: &str) -> Asset {
    Asset { name: name.to_string(), browser_download_url: format!("https://example.invalid/{}", name) }
}

fn release() -> GithubRelease {
    GithubRelease {
        tag_name: "v0.7.0".to_string(),
        assets: vec![
            asset("esparrier-generic-v0.7.0.tar.gz"),
            asset("esparrier-m5atoms3-lite-v0.7.0.tar.gz"),
            asset("esparrier-m5atoms3-v0.7.0.zip"),
            asset("esparrier-m5atoms3-v0.7.0.tar.gz"),
            asset("esparrier-m5atoms3r-v0.7.0.tar.gz"),
            asset("esparrier-xiao-esp32s3-v0.7.0.tar.gz"),
            asset("esparrier-xiao-esp32s3-v0.7.0-debug.tar.gz"),
        ],
    }
}

#[test]
fn assets_are_matched_by_their_prefix() {
    let kinds = [
        (FirmwareKind::Generic, "esparrier-generic-v0.7.0.tar.gz"),
        (FirmwareKind::M5AtomS3Lite, "esparrier-m5atoms3-lite-v0.7.0.tar.gz"),
        (FirmwareKind::M5AtomS3, "esparrier-m5atoms3-v0.7.0.tar.gz"),
        (FirmwareKind::M5AtomS3R, "esparrier-m5atoms3r-v0.7.0.tar.gz"),
        (FirmwareKind::XiaoESP32S3, "esparrier-xiao-esp32s3-v0.7.0.tar.gz"),
        (FirmwareKind::DevKitC1_0, "esparrier-devkitc-1_0-v0.7.0.tar.gz"),
        (FirmwareKind::DevKitC1_1, "esparrier-devkitc-1_1-v0.7.0.tar.gz"),
    ];
    for (kind, name) in kinds {
        for (other, _) in kinds {
            assert_eq!(match_firmware_kind(&asset(name), other), kind == other, "{} {:?}", name, other);
        }
        assert!(!match_firmware_kind(&asset(name), FirmwareKind::Custom));
    }
}

#[test]
fn prefix_must_be_whole() {
    assert!(!match_firmware_kind(&asset("esparrier-generic-"), FirmwareKind::Generic));
    assert!(!match_firmware_kind(&asset("Esparrier-generic-v1"), FirmwareKind::Generic));
    assert!(!match_firmware_kind(&asset(" esparrier-generic-v1"), FirmwareKind::Generic));
    assert!(!match_firmware_kind(&asset(""), FirmwareKind::Generic));
    assert!(match_firmware_kind(&asset("esparrier-generic-v"), FirmwareKind::Generic));
}

#[test]
fn asset_of_a_model_is_found() {
    let r = release();
    assert_eq!(r.find_asset("generic"), Some(0));
    assert_eq!(r.find_asset("m5atoms3-lite"), Some(1));
    assert_eq!(r.find_asset("m5atoms3"), Some(3));
    assert_eq!(r.find_asset("m5atoms3r"), Some(4));
    assert_eq!(r.find_asset("xiao-esp32s3"), Some(5));
}

#[test]
fn model_without_asset_is_not_found() {
    let r = release();
    assert_eq!(r.find_asset("devkitc-1_0"), None);
    assert_eq!(r.find_asset("esp32-s3-eth"), None);
    assert_eq!(r.find_asset(""), None);
    assert_eq!(r.find_asset("m5atoms"), None);
    let empty = GithubRelease { tag_name: "v1".to_string(), assets: Vec::new() };
    assert_eq!(empty.find_asset("generic"), None);
}

#[test]
fn firmware_entry_is_a_bin_file() {
    assert!(is_firmware_entry("esparrier-m5atoms3-v0.7.0/esparrier-m5atoms3.bin"));
    assert!(is_firmware_entry("esparrier.bin"));
    assert!(is_firmware_entry(".bin"));
}

#[test]
fn other_entries_are_passed_over() {
    assert!(!is_firmware_entry("esparrier/bootloader.bin"));
    assert!(!is_firmware_entry("esparrier/partition-table.bin"));
    assert!(!is_firmware_entry("esparrier/partitions.bin"));
    assert!(!is_firmware_entry("esparrier/merged-esparrier.bin"));
    assert!(!is_firmware_entry("merged/esparrier.bin"));
    assert!(!is_firmware_entry("esparrier/README.md"));
    assert!(!is_firmware_entry("esparrier.bin.sha256"));
    assert!(!is_firmware_entry("esparrier.BIN"));
    assert!(!is_firmware_entry("bin"));
    assert!(!is_firmware_entry(""));
}
