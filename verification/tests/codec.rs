use esparrier_config::codec::expect_ok;
use esparrier_config::codec::frame;
use esparrier_config::codec::read_le32;
use esparrier_config::codec::split_packets;
use esparrier_config::Command;
use esparrier_config::Error;
use esparrier_config::PACKET_SIZE;

#[test]
fn one_byte_commands() {
    assert_eq!(Command::GetState.encode(), b"s");
    assert_eq!(Command::ReadConfig.encode(), b"r");
    assert_eq!(Command::CommitConfig.encode(), b"c");
    assert_eq!(Command::Reboot.encode(), b"b");
    assert_eq!(Command::OtaAbort.encode(), b"A");
    assert_eq!(Command::OtaProgress.encode(), b"P");
}

#[test]
fn write_config_command() {
    assert_eq!(Command::WriteConfig { num_blocks: 3 }.encode(), [b'w', 3]);
    assert_eq!(Command::WriteConfig { num_blocks: 255 }.encode(), [b'w', 255]);
}

#[test]
fn keep_awake_command() {
    assert_eq!(Command::KeepAwake { enable: true }.encode(), [b'k', 1]);
    assert_eq!(Command::KeepAwake { enable: false }.encode(), [b'k', 0]);
}

#[test]
fn ota_start_command_is_little_endian() {
    let bytes = Command::OtaStart { size: 0x0001_F40, crc: 0xCBF4_3926 }.encode();
    assert_eq!(bytes, [b'O', 0x40, 0x1F, 0x00, 0x00, 0x26, 0x39, 0xF4, 0xCB]);
    assert_eq!(bytes.len(), 9);
}

#[test]
fn ota_data_command_is_little_endian() {
    let bytes = Command::OtaData { packets: 64, length: 4096 }.encode();
    assert_eq!(bytes, [b'D', 64, 0x00, 0x10]);
    let bytes = Command::OtaData { packets: 61, length: 3904 }.encode();
    assert_eq!(bytes, [b'D', 61, 0x40, 0x0F]);
}

#[test]
fn packets_are_padded_with_zeros() {
    let packet = Command::KeepAwake { enable: true }.packet();
    assert_eq!(packet.len(), PACKET_SIZE);
    assert_eq!(&packet[..2], [b'k', 1]);
    assert!(packet[2..].iter().all(|b| *b == 0));
}

#[test]
fn frame_fills_up_to_a_packet() {
    assert_eq!(frame(&[]), vec![0u8; 64]);
    let full: Vec<u8> = (1..=64).collect();
    assert_eq!(frame(&full), full);
    let framed = frame(&[7, 8, 9]);
    assert_eq!(framed.len(), 64);
    assert_eq!(&framed[..3], [7, 8, 9]);
    assert!(framed[3..].iter().all(|b| *b == 0));
}

#[test]
fn read_le32_reads_low_byte_first() {
    assert_eq!(read_le32(0x78, 0x56, 0x34, 0x12), 0x1234_5678);
    assert_eq!(read_le32(0xFF, 0xFF, 0xFF, 0xFF), u32::MAX);
    assert_eq!(read_le32(0, 0, 0, 0), 0);
}

#[test]
fn acknowledgement_is_exactly_one_byte() {
    assert_eq!(expect_ok(b"o"), Ok(()));
    assert_eq!(expect_ok(b""), Err(Error::InvalidResponse));
    assert_eq!(expect_ok(b"oo"), Err(Error::InvalidResponse));
    assert_eq!(expect_ok(b"e"), Err(Error::InvalidResponse));
    assert_eq!(expect_ok(&[b'o', 0]), Err(Error::InvalidResponse));
}

#[test]
fn data_is_split_into_packets() {
    let data: Vec<u8> = (0..130u32).map(|i| (i % 251) as u8 + 1).collect();
    let packets = split_packets(&data);
    assert_eq!(packets.len(), 3);
    assert_eq!(packets[0], &data[..64]);
    assert_eq!(packets[1], &data[64..128]);
    assert_eq!(packets[2].len(), 64);
    assert_eq!(&packets[2][..2], &data[128..]);
    assert!(packets[2][2..].iter().all(|b| *b == 0));
}

#[test]
fn split_of_nothing_is_no_packet() {
    assert!(split_packets(&[]).is_empty());
}

#[test]
fn split_of_whole_packets_adds_none() {
    let data = vec![9u8; 128];
    let packets = split_packets(&data);
    assert_eq!(packets.len(), 2);
    assert_eq!(packets[0], vec![9u8; 64]);
    assert_eq!(packets[1], vec![9u8; 64]);
    assert_eq!(split_packets(&[1]).len(), 1);
    assert_eq!(split_packets(&vec![1u8; 65]).len(), 2);
}
