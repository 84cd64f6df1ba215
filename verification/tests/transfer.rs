use esparrier_config::transfer::retain_text;
use esparrier_config::transfer::write_config_packets;
use esparrier_config::transfer::ConfigReader;
use esparrier_config::transfer::ConfigStep;
use esparrier_config::Error;

fn read_all(header: &[u8], blocks: &[Vec<u8>]) -> Result<Vec<u8>, Error> {
    let mut step = ConfigReader::begin(header);
    let mut next = 0;
    loop {
        match step {
            ConfigStep::Read(reader) => {
                step = reader.accept(&blocks[next]);
                next += 1;
            }
            ConfigStep::Done(text) => {
                assert_eq!(next, blocks.len());
                return Ok(text);
            }
            ConfigStep::Failed(e) => return Err(e),
        }
    }
}

#[test]
fn header_must_be_opcode_and_count() {
    assert!(matches!(ConfigReader::begin(b""), ConfigStep::Failed(Error::InvalidResponse)));
    assert!(matches!(ConfigReader::begin(b"r"), ConfigStep::Failed(Error::InvalidResponse)));
    assert!(matches!(ConfigReader::begin(&[b'r', 2, 0]), ConfigStep::Failed(Error::InvalidResponse)));
    assert!(matches!(ConfigReader::begin(&[b's', 2]), ConfigStep::Failed(Error::InvalidResponse)));
    assert!(matches!(ConfigReader::begin(&[b'o', 0]), ConfigStep::Failed(Error::InvalidResponse)));
}

#[test]
fn header_announces_the_blocks() {
    match ConfigReader::begin(&[b'r', 2]) {
        ConfigStep::Read(reader) => assert_eq!(reader.remaining(), 2),
        _ => panic!("expected to read on"),
    }
    match ConfigReader::begin(&[b'r', 255]) {
        ConfigStep::Read(reader) => assert_eq!(reader.remaining(), 255),
        _ => panic!("expected to read on"),
    }
}

#[test]
fn no_blocks_give_no_text() {
    assert_eq!(read_all(&[b'r', 0], &[]), Ok(Vec::new()));
}

#[test]
fn reader_counts_down() {
    let step = ConfigReader::begin(&[b'r', 3]);
    let ConfigStep::Read(reader) = step else { panic!("expected to read on") };
    let ConfigStep::Read(reader) = reader.accept(b"ab") else { panic!("expected to read on") };
    assert_eq!(reader.remaining(), 2);
    let ConfigStep::Read(reader) = reader.accept(b"cd") else { panic!("expected to read on") };
    assert_eq!(reader.remaining(), 1);
    let ConfigStep::Done(text) = reader.accept(b"ef") else { panic!("expected the text") };
    assert_eq!(text, b"abcdef");
}

#[test]
fn two_blocks_are_put_together() {
    let json = br#"{"ssid":"some-wifi","server":"192.168.2.59:24800","screen_name":"SAW","pid":4}"#;
    assert_eq!(json.len(), 78);
    let mut first = json[..63].to_vec();
    first.push(0);
    let mut second = json[63..].to_vec();
    second.resize(64, 0);
    let text = read_all(&[b'r', 2], &[first, second]).unwrap();
    assert_eq!(text, json);
}

#[test]
fn one_trailing_zero_is_stripped_and_the_rest_filtered() {
    let text = read_all(&[b'r', 1], &[vec![b'a', 0, b'b', 0, 0]]).unwrap();
    assert_eq!(text, b"ab");
}

#[test]
fn reserved_bytes_are_dropped() {
    let block = vec![b'{', 0xF4, 0xF5, 0xFF, b'}', 0xF6, 0x7F, 0x80, 0xF3];
    let text = read_all(&[b'r', 1], &[block]).unwrap();
    assert_eq!(text, [b'{', 0xF4, b'}', 0x7F, 0x80, 0xF3]);
}

#[test]
fn retain_text_keeps_text_bytes() {
    assert_eq!(retain_text(&vec![]), Vec::<u8>::new());
    assert_eq!(retain_text(&vec![0, 0, 0]), Vec::<u8>::new());
    assert_eq!(retain_text(&vec![1, 0, 0xF4, 0xF5, 2]), vec![1, 0xF4, 2]);
}

#[test]
fn empty_blocks_add_nothing() {
    let text = read_all(&[b'r', 3], &[vec![], b"x".to_vec(), vec![0]]).unwrap();
    assert_eq!(text, b"x");
}

#[test]
fn configuration_of_130_bytes_goes_out_in_three_blocks() {
    let payload: Vec<u8> = (0..130u32).map(|i| b'a' + (i % 26) as u8).collect();
    let packets = write_config_packets(&payload);
    assert_eq!(packets.len(), 4);
    assert!(packets.iter().all(|p| p.len() == 64));
    assert_eq!(&packets[0][..2], [b'w', 3]);
    assert!(packets[0][2..].iter().all(|b| *b == 0));
    assert_eq!(packets[1], &payload[..64]);
    assert_eq!(packets[2], &payload[64..128]);
    assert_eq!(&packets[3][..2], &payload[128..]);
    assert!(packets[3][2..].iter().all(|b| *b == 0));
}

#[test]
fn empty_configuration_goes_out_as_header_alone() {
    let packets = write_config_packets(&[]);
    assert_eq!(packets.len(), 1);
    assert_eq!(&packets[0][..2], [b'w', 0]);
}

#[test]
fn block_count_is_one_byte() {
    let payload = vec![b'x'; 255 * 64];
    let packets = write_config_packets(&payload);
    assert_eq!(packets.len(), 256);
    assert_eq!(&packets[0][..2], [b'w', 255]);
    let payload = vec![b'x'; 256 * 64 + 1];
    let packets = write_config_packets(&payload);
    assert_eq!(packets.len(), 258);
    assert_eq!(&packets[0][..2], [b'w', 1]);
}

#[test]
fn what_is_written_can_be_read_back() {
    let payload: Vec<u8> = br#"{"ssid":"a","password":"b","server":"1.2.3.4:5","screen_name":"c","dns_server":["8.8.8.8"]}"#.to_vec();
    let packets = write_config_packets(&payload);
    let header = [b'r', packets[0][1]];
    let text = read_all(&header, &packets[1..]).unwrap();
    assert_eq!(text, payload);
}
