use udp_capture::config::{parse_port, Config, ConfigError, ARGUMENT_COUNT};

fn words(list: &[&str]) -> Vec<String> {
    list.iter().map(|word| word.to_string()).collect()
}

#[test]
fn port_of_plain_digits() {
    assert_eq!(parse_port("0"), Some(0));
    assert_eq!(parse_port("80"), Some(80));
    assert_eq!(parse_port("12060"), Some(12060));
    assert_eq!(parse_port("65535"), Some(65535));
}

#[test]
fn port_with_sign_or_leading_zeros() {
    assert_eq!(parse_port("+80"), Some(80));
    assert_eq!(parse_port("00080"), Some(80));
    assert_eq!(parse_port("+000"), Some(0));
    assert_eq!(parse_port("0000000000000000000000000000065535"), Some(65535));
}

#[test]
fn port_out_of_range() {
    assert_eq!(parse_port("65536"), None);
    assert_eq!(parse_port("70000"), None);
    assert_eq!(parse_port("99999999999999999999999999999999999999999999"), None);
}

#[test]
fn port_that_is_no_number() {
    assert_eq!(parse_port(""), None);
    assert_eq!(parse_port("+"), None);
    assert_eq!(parse_port("-"), None);
    assert_eq!(parse_port("-1"), None);
    assert_eq!(parse_port("-0"), None);
    assert_eq!(parse_port("++1"), None);
    assert_eq!(parse_port("1+"), None);
    assert_eq!(parse_port(" 80"), None);
    assert_eq!(parse_port("80 "), None);
    assert_eq!(parse_port("8 0"), None);
    assert_eq!(parse_port("0x50"), None);
    assert_eq!(parse_port("80.0"), None);
    assert_eq!(parse_port("eighty"), None);
    assert_eq!(parse_port("٨٠"), None);
    assert_eq!(parse_port("8é"), None);
}

#[test]
fn port_agrees_with_the_standard_library() {
    let samples = [
        "", "+", "-", "0", "1", "9", "10", "+10", "-10", "010", "65535", "65536", "+65535",
        "655350", "6553", "12060", " 1", "1 ", "1_000", "1e3", "+-1", "++1", "٣", "１２",
        "4294967296", "18446744073709551616", "00000", "+0", "-0", "/", ":", "a",
    ];
    for text in samples {
        assert_eq!(parse_port(text), text.parse::<u16>().ok(), "port text {:?}", text);
    }
    for port in [0u16, 1, 9, 10, 99, 100, 1023, 1024, 12060, 65534, 65535] {
        assert_eq!(parse_port(&port.to_string()), Some(port));
    }
}

#[test]
fn valid_command_line() {
    let args = words(&["udpdump", "127.0.0.1", "12060", "captures"]);
    let config = Config::from_args(&args, Some("127.0.0.1".to_string()));
    assert_eq!(
        config,
        Ok(Config {
            bind_address: "127.0.0.1".to_string(),
            bind_port: 12060,
            output_dir: "captures".to_string(),
        })
    );
}

#[test]
fn the_address_is_kept_in_canonical_form() {
    let args = words(&["udpdump", "0:0:0:0:0:0:0:1", "+7", "out/dir"]);
    let config = Config::from_args(&args, Some("::1".to_string())).unwrap();
    assert_eq!(config.bind_address, "::1");
    assert_eq!(config.bind_port, 7);
    assert_eq!(config.output_dir, "out/dir");
}

#[test]
fn wrong_number_of_arguments() {
    assert_eq!(ARGUMENT_COUNT, 4);
    for list in [
        &[][..],
        &["udpdump"][..],
        &["udpdump", "127.0.0.1"][..],
        &["udpdump", "127.0.0.1", "12060"][..],
        &["udpdump", "127.0.0.1", "12060", "out", "more"][..],
    ] {
        let args = words(list);
        assert_eq!(
            Config::from_args(&args, Some("127.0.0.1".to_string())),
            Err(ConfigError::WrongArgumentCount)
        );
        assert_eq!(Config::from_args(&args, None), Err(ConfigError::WrongArgumentCount));
    }
}

#[test]
fn invalid_address() {
    let args = words(&["udpdump", "localhost", "12060", "out"]);
    assert_eq!(Config::from_args(&args, None), Err(ConfigError::InvalidAddress));
}

#[test]
fn invalid_port() {
    let args = words(&["udpdump", "127.0.0.1", "65536", "out"]);
    assert_eq!(
        Config::from_args(&args, Some("127.0.0.1".to_string())),
        Err(ConfigError::InvalidPort)
    );
}

#[test]
fn the_address_is_checked_before_the_port() {
    let args = words(&["udpdump", "nowhere", "port", "out"]);
    assert_eq!(Config::from_args(&args, None), Err(ConfigError::InvalidAddress));
}

#[test]
fn port_agrees_with_the_standard_library_on_short_texts() {
    let alphabet = ['+', '-', '0', '1', '5', '6', '9', ' ', 'a'];
    let mut texts = vec![String::new()];
    let mut checked = 0usize;
    for _ in 0..5 {
        let mut longer = Vec::new();
        for text in &texts {
            for c in alphabet {
                let mut next = text.clone();
                next.push(c);
                assert_eq!(parse_port(&next), next.parse::<u16>().ok(), "port text {:?}", next);
                checked += 1;
                longer.push(next);
            }
        }
        texts = longer;
    }
    assert_eq!(checked, 9 + 81 + 729 + 6561 + 59049);
}

#[test]
fn port_agrees_with_the_standard_library_around_the_limit() {
    for n in 65000u32..66000 {
        let text = n.to_string();
        assert_eq!(parse_port(&text), text.parse::<u16>().ok());
        let signed = format!("+{}", n);
        assert_eq!(parse_port(&signed), signed.parse::<u16>().ok());
        let padded = format!("000{}", n);
        assert_eq!(parse_port(&padded), padded.parse::<u16>().ok());
    }
}
