use admission::config::{
    decode_hex_to_arc_array, hex_digit, hex_pair, Config, ConfigError, HexError, RawConfig,
};

fn raw(iv: String) -> RawConfig {
    RawConfig {
        db_url: "ws://db:8000".to_string(),
        db_ns: "ns".to_string(),
        db_db: "db".to_string(),
        db_user: "".to_string(),
        db_pass: "".to_string(),
        rocket_secret_key: "0123456789abcdef0123456789abcdef".to_string(),
        redis_url: "redis://redis".to_string(),
        minio_url: "http://minio:9000".to_string(),
        minio_root_user: "root".to_string(),
        minio_root_password: "password".to_string(),
        minio_img_hash_iv: iv,
    }
}

#[test]
fn hex_text_of_the_right_length_is_read() {
    let mut text = String::new();
    for i in 0..256u32 {
        text.push_str(&format!("{:02x}", i));
    }
    let bytes = decode_hex_to_arc_array(&text).unwrap();
    for i in 0..256usize {
        assert_eq!(bytes[i] as usize, i);
    }
    let upper = text.to_uppercase();
    assert_eq!(decode_hex_to_arc_array(&upper), Ok(bytes));
}

#[test]
fn hex_text_of_another_length_is_refused() {
    assert_eq!(decode_hex_to_arc_array(""), Err(HexError::WrongLength));
    assert_eq!(decode_hex_to_arc_array(&"0".repeat(511)), Err(HexError::WrongLength));
    assert_eq!(decode_hex_to_arc_array(&"0".repeat(513)), Err(HexError::WrongLength));
    assert_eq!(decode_hex_to_arc_array(&"é".repeat(512)), Err(HexError::WrongLength));
}

#[test]
fn first_bad_pair_is_reported() {
    let mut text = "00".repeat(256);
    text.replace_range(14..16, "0g");
    text.replace_range(20..22, "zz");
    assert_eq!(decode_hex_to_arc_array(&text), Err(HexError::InvalidDigit(7)));
    let text = "é".repeat(256);
    assert_eq!(decode_hex_to_arc_array(&text), Err(HexError::InvalidDigit(0)));
    let mut text = "00".repeat(256);
    text.replace_range(510..512, " 1");
    assert_eq!(decode_hex_to_arc_array(&text), Err(HexError::InvalidDigit(255)));
}

#[test]
fn pair_reads_as_the_integer_parser_reads_it() {
    let pairs = ["00", "ff", "FF", "a0", "0A", "+f", "+0", "7F", "-1", "f+", "++", " 1", "1 ", "0x", "g0"];
    for pair in pairs {
        let b = pair.as_bytes();
        assert_eq!(hex_pair(b[0], b[1]), u8::from_str_radix(pair, 16).ok());
    }
    assert_eq!(hex_pair(b'+', b'f'), Some(15));
    assert_eq!(hex_pair(b'a', b'0'), Some(160));
    assert_eq!(hex_digit(b'/'), None);
    assert_eq!(hex_digit(b':'), None);
    assert_eq!(hex_digit(b'G'), None);
    assert_eq!(hex_digit(b'`'), None);
    assert_eq!(hex_digit(b'9'), Some(9));
    assert_eq!(hex_digit(b'F'), Some(15));
}

#[test]
fn hex_errors_in_words() {
    assert_eq!(HexError::WrongLength.message(), "Hex string must be exactly 512 characters");
    assert_eq!(
        HexError::InvalidDigit(0).message(),
        "Invalid hex at position 0: invalid digit found in string"
    );
    assert_eq!(
        HexError::InvalidDigit(7).message(),
        "Invalid hex at position 7: invalid digit found in string"
    );
    assert_eq!(
        HexError::InvalidDigit(255).message(),
        "Invalid hex at position 255: invalid digit found in string"
    );
    assert_eq!(
        HexError::InvalidDigit(1090).message(),
        "Invalid hex at position 1090: invalid digit found in string"
    );
}

#[test]
fn complete_settings_are_taken_over() {
    let config = Config::from_raw(raw("ab".repeat(256))).unwrap();
    assert_eq!(config.db_url, "ws://db:8000");
    assert_eq!(config.db_ns, "ns");
    assert_eq!(config.db_db, "db");
    assert_eq!(config.db_user, "");
    assert_eq!(config.db_pass, "");
    assert_eq!(config.rocket_secret_key, "0123456789abcdef0123456789abcdef");
    assert_eq!(config.redis_url, "redis://redis");
    assert_eq!(config.minio_url, "http://minio:9000");
    assert_eq!(config.minio_root_user, "root");
    assert_eq!(config.minio_root_password, "password");
    assert_eq!(config.minio_img_hash_iv, [0xabu8; 256]);
}

#[test]
fn incomplete_settings_are_refused_first() {
    let mut r = raw("zz".to_string());
    r.db_url = String::new();
    assert_eq!(Config::from_raw(r), Err(ConfigError::Incomplete));
    let mut r = raw("ab".repeat(256));
    r.rocket_secret_key = "0123456789abcdef0123456789abcde".to_string();
    assert!(!r.is_complete());
    assert_eq!(Config::from_raw(r), Err(ConfigError::Incomplete));
    for field in 0..7 {
        let mut r = raw("ab".repeat(256));
        match field {
            0 => r.db_ns = String::new(),
            1 => r.db_db = String::new(),
            2 => r.redis_url = String::new(),
            3 => r.minio_url = String::new(),
            4 => r.minio_root_user = String::new(),
            5 => r.minio_root_password = String::new(),
            _ => r.rocket_secret_key = String::new(),
        }
        assert_eq!(Config::from_raw(r), Err(ConfigError::Incomplete));
    }
}

#[test]
fn unreadable_hash_prefix_is_refused() {
    assert_eq!(
        Config::from_raw(raw("ab".to_string())),
        Err(ConfigError::HashIv(HexError::WrongLength))
    );
    let mut iv = "ab".repeat(256);
    iv.replace_range(2..4, "xy");
    assert_eq!(Config::from_raw(raw(iv)), Err(ConfigError::HashIv(HexError::InvalidDigit(1))));
}
