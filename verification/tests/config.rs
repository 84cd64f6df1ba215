use esparrier_config::ConfigError;
use esparrier_config::Error;
use esparrier_config::EsparrierConfig;

fn valid() -> EsparrierConfig {
    EsparrierConfig {
        ssid: "some-wifi".to_string(),
        password: "magic-word".to_string(),
        server: "192.168.2.59:24800".to_string(),
        screen_name: "SAW".to_string(),
        screen_width: 5120,
        screen_height: 2880,
        flip_wheel: true,
        polling_rate: 200,
        jiggle_interval: 60,
        brightness: 10,
        ip_addr: None,
        dns_server: Vec::new(),
        gateway: None,
        vid: 0x0d0a,
        pid: 4,
        manufacturer: "0d0a.com".to_string(),
        product: "Esparrier KVM".to_string(),
        serial_number: "88888888".to_string(),
        landing_url: "https://0d0a.com".to_string(),
        watchdog_timeout: 15,
    }
}

fn rejected(config: &EsparrierConfig) -> ConfigError {
    match config.validate() {
        Err(Error::ConfigError(e)) => e,
        other => panic!("expected a configuration error, got {:?}", other),
    }
}

fn name(field: &str) -> String {
    field.to_string()
}

#[test]
fn valid_configuration_passes() {
    assert_eq!(valid().validate(), Ok(()));
}

#[test]
fn valid_configuration_with_static_network_passes() {
    let mut c = valid();
    c.ip_addr = Some("10.0.0.1/24".to_string());
    c.gateway = Some("10.0.0.254".to_string());
    c.dns_server = vec!["8.8.8.8".to_string(), "1.1.1.1".to_string()];
    assert_eq!(c.validate(), Ok(()));
}

#[test]
fn blank_configuration_is_rejected_for_its_ssid() {
    assert_eq!(rejected(&EsparrierConfig::default()), ConfigError::FieldEmpty(name("ssid")));
}

#[test]
fn empty_required_strings_are_rejected() {
    let mut c = valid();
    c.ssid = String::new();
    assert_eq!(rejected(&c), ConfigError::FieldEmpty(name("ssid")));
    let mut c = valid();
    c.password = String::new();
    assert_eq!(rejected(&c), ConfigError::FieldEmpty(name("password")));
    let mut c = valid();
    c.server = String::new();
    assert_eq!(rejected(&c), ConfigError::FieldEmpty(name("server")));
    let mut c = valid();
    c.screen_name = String::new();
    assert_eq!(rejected(&c), ConfigError::FieldEmpty(name("screen_name")));
    let mut c = valid();
    c.manufacturer = String::new();
    assert_eq!(rejected(&c), ConfigError::FieldEmpty(name("manufacturer")));
    let mut c = valid();
    c.product = String::new();
    assert_eq!(rejected(&c), ConfigError::FieldEmpty(name("product")));
    let mut c = valid();
    c.serial_number = String::new();
    assert_eq!(rejected(&c), ConfigError::FieldEmpty(name("serial_number")));
}

#[test]
fn over_long_strings_are_rejected() {
    let mut c = valid();
    c.ssid = "s".repeat(33);
    assert_eq!(rejected(&c), ConfigError::FieldTooLong(name("ssid")));
    let mut c = valid();
    c.password = "p".repeat(65);
    assert_eq!(rejected(&c), ConfigError::FieldTooLong(name("password")));
    let mut c = valid();
    c.server = format!("{}:1", "1".repeat(70));
    assert_eq!(rejected(&c), ConfigError::FieldTooLong(name("server")));
    let mut c = valid();
    c.screen_name = "n".repeat(65);
    assert_eq!(rejected(&c), ConfigError::FieldTooLong(name("screen_name")));
    let mut c = valid();
    c.manufacturer = "m".repeat(65);
    assert_eq!(rejected(&c), ConfigError::FieldTooLong(name("manufacturer")));
    let mut c = valid();
    c.product = "p".repeat(65);
    assert_eq!(rejected(&c), ConfigError::FieldTooLong(name("product")));
    let mut c = valid();
    c.serial_number = "8".repeat(65);
    assert_eq!(rejected(&c), ConfigError::FieldTooLong(name("serial_number")));
    let mut c = valid();
    c.landing_url = "u".repeat(256);
    assert_eq!(rejected(&c), ConfigError::FieldTooLong(name("landing_url")));
}

#[test]
fn strings_of_full_length_pass() {
    let mut c = valid();
    c.ssid = "s".repeat(32);
    c.password = "p".repeat(64);
    c.screen_name = "n".repeat(64);
    c.manufacturer = "m".repeat(64);
    c.product = "p".repeat(64);
    c.serial_number = "8".repeat(64);
    c.landing_url = "u".repeat(255);
    assert_eq!(c.validate(), Ok(()));
}

#[test]
fn length_is_counted_in_bytes() {
    let mut c = valid();
    // 11 letters of three bytes each
    c.ssid = "\u{20AC}".repeat(11);
    assert_eq!(rejected(&c), ConfigError::FieldTooLong(name("ssid")));
    c.ssid = "\u{20AC}".repeat(10);
    assert_eq!(c.validate(), Ok(()));
}

#[test]
fn landing_url_may_be_empty() {
    let mut c = valid();
    c.landing_url = String::new();
    assert_eq!(c.validate(), Ok(()));
}

#[test]
fn screen_width_out_of_range_is_rejected() {
    let mut c = valid();
    c.screen_width = 0;
    assert_eq!(rejected(&c), ConfigError::FieldOutOfRange(name("screen_width"), 1, 32767));
    c.screen_width = 33000;
    assert_eq!(rejected(&c), ConfigError::FieldOutOfRange(name("screen_width"), 1, 32767));
    c.screen_width = 32768;
    assert_eq!(rejected(&c), ConfigError::FieldOutOfRange(name("screen_width"), 1, 32767));
}

#[test]
fn screen_height_out_of_range_is_rejected() {
    let mut c = valid();
    c.screen_height = 0;
    assert_eq!(rejected(&c), ConfigError::FieldOutOfRange(name("screen_height"), 1, 32767));
    c.screen_height = 65535;
    assert_eq!(rejected(&c), ConfigError::FieldOutOfRange(name("screen_height"), 1, 32767));
}

#[test]
fn brightness_out_of_range_is_rejected() {
    let mut c = valid();
    c.brightness = 0;
    assert_eq!(rejected(&c), ConfigError::FieldOutOfRange(name("brightness"), 1, 100));
    c.brightness = 101;
    assert_eq!(rejected(&c), ConfigError::FieldOutOfRange(name("brightness"), 1, 100));
}

#[test]
fn numbers_at_the_ends_of_their_ranges_pass() {
    let mut c = valid();
    c.screen_width = 1;
    c.screen_height = 32767;
    c.brightness = 100;
    assert_eq!(c.validate(), Ok(()));
    c.screen_width = 32767;
    c.screen_height = 1;
    c.brightness = 1;
    assert_eq!(c.validate(), Ok(()));
}

#[test]
fn server_that_is_no_endpoint_is_rejected() {
    let mut c = valid();
    c.server = "not-an-endpoint".to_string();
    assert_eq!(rejected(&c), ConfigError::InvalidEndpoint(name("server")));
}

#[test]
fn malformed_endpoints_are_rejected() {
    for server in [
        "192.168.2.59",
        "192.168.2.59:",
        ":24800",
        "192.168.2.59:65536",
        "192.168.2.59:-1",
        "192.168.2.59:+80",
        "192.168.2.59:80 ",
        " 192.168.2.59:80",
        "192.168.2:80",
        "192.168.2.59.1:80",
        "192.168.2.256:80",
        "192.168.02.59:80",
        "192.168.2.59:80:80",
        "example.com:80",
        "[::1]:80",
        "1.2.3.4:8o",
    ] {
        let mut c = valid();
        c.server = server.to_string();
        assert_eq!(
            rejected(&c),
            ConfigError::InvalidEndpoint(name("server")),
            "{}",
            server
        );
    }
}

#[test]
fn well_formed_endpoints_pass() {
    for server in [
        "0.0.0.0:0",
        "255.255.255.255:65535",
        "10.0.0.1:080",
        "10.0.0.1:0000000000000000000000000000000000000000000000024800",
        "1.2.3.4:1",
    ] {
        let mut c = valid();
        c.server = server.to_string();
        assert_eq!(c.validate(), Ok(()), "{}", server);
    }
}

#[test]
fn ip_addr_without_slash_is_rejected() {
    let mut c = valid();
    c.ip_addr = Some("10.0.0.1".to_string());
    assert_eq!(rejected(&c), ConfigError::InvalidIpAddress(name("ip_addr")));
}

#[test]
fn ip_addr_with_bad_address_is_rejected() {
    for ip in ["/24", "10.0.0/24", "10.0.0.256/24", "ten/24", "", "10.0.0.1 /24", "010.0.0.1/8"] {
        let mut c = valid();
        c.ip_addr = Some(ip.to_string());
        assert_eq!(rejected(&c), ConfigError::InvalidIpAddress(name("ip_addr")), "{}", ip);
    }
}

#[test]
fn ip_addr_with_bad_prefix_is_rejected() {
    for ip in ["10.0.0.1/abc", "10.0.0.1/", "10.0.0.1/256", "10.0.0.1/-1", "10.0.0.1/24/", "10.0.0.1/2 4", "10.0.0.1//24", "10.0.0.1/+"] {
        let mut c = valid();
        c.ip_addr = Some(ip.to_string());
        assert_eq!(rejected(&c), ConfigError::InvalidIpCidrPrefix(name("ip_addr")), "{}", ip);
    }
}

#[test]
fn ip_addr_with_any_byte_sized_prefix_passes() {
    for ip in ["10.0.0.1/0", "10.0.0.1/32", "10.0.0.1/255", "10.0.0.1/+24", "10.0.0.1/024"] {
        let mut c = valid();
        c.ip_addr = Some(ip.to_string());
        assert_eq!(c.validate(), Ok(()), "{}", ip);
    }
}

#[test]
fn bad_dns_server_is_rejected() {
    let mut c = valid();
    c.dns_server = vec!["8.8.8.8".to_string(), "dns.example".to_string()];
    assert_eq!(rejected(&c), ConfigError::InvalidIpAddress(name("dns_server")));
    c.dns_server = vec!["8.8.8".to_string()];
    assert_eq!(rejected(&c), ConfigError::InvalidIpAddress(name("dns_server")));
    c.dns_server = vec![String::new()];
    assert_eq!(rejected(&c), ConfigError::InvalidIpAddress(name("dns_server")));
}

#[test]
fn bad_gateway_is_rejected() {
    let mut c = valid();
    c.gateway = Some("10.0.0.1/24".to_string());
    assert_eq!(rejected(&c), ConfigError::InvalidIpAddress(name("gateway")));
    c.gateway = Some("1.2.3.4.".to_string());
    assert_eq!(rejected(&c), ConfigError::InvalidIpAddress(name("gateway")));
}

#[test]
fn the_first_broken_rule_is_reported() {
    let mut c = valid();
    c.ssid = "s".repeat(40);
    c.password = String::new();
    c.screen_width = 0;
    assert_eq!(rejected(&c), ConfigError::FieldTooLong(name("ssid")));
    c.ssid = "ok".to_string();
    assert_eq!(rejected(&c), ConfigError::FieldEmpty(name("password")));
    c.password = "ok".to_string();
    assert_eq!(rejected(&c), ConfigError::FieldOutOfRange(name("screen_width"), 1, 32767));
    c.screen_width = 1;
    c.gateway = Some("x".to_string());
    c.ip_addr = Some("y".to_string());
    c.dns_server = vec!["z".to_string()];
    c.landing_url = "u".repeat(300);
    assert_eq!(rejected(&c), ConfigError::InvalidIpAddress(name("ip_addr")));
    c.ip_addr = None;
    assert_eq!(rejected(&c), ConfigError::InvalidIpAddress(name("dns_server")));
    c.dns_server.clear();
    assert_eq!(rejected(&c), ConfigError::InvalidIpAddress(name("gateway")));
    c.gateway = None;
    assert_eq!(rejected(&c), ConfigError::FieldTooLong(name("landing_url")));
}

#[test]
fn server_length_is_checked_before_its_form() {
    let mut c = valid();
    c.server = "x".repeat(65);
    assert_eq!(rejected(&c), ConfigError::FieldTooLong(name("server")));
    c.server = "x".repeat(64);
    assert_eq!(rejected(&c), ConfigError::InvalidEndpoint(name("server")));
}
