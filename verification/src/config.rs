//! The settings the server starts with, and the checks they must pass.
use crate::text::{push_decimal, str_byte_len, byte_len, decimal_of};
use vstd::prelude::*;
use vstd::string::StringSliceAdditionalSpecFns;

verus! {

/// The number of bytes in the secret prefix of the image hash.
pub const HASH_IV_LEN: usize = 256;

/// The least number of bytes in the key that signs cookies.
pub const SECRET_KEY_MIN_LEN: usize = 32;

/// Why a text of hexadecimal digits was not read.
#[derive(Clone, Copy, Debug, PartialEq, Eq, Structural)]
pub enum HexError {
    /// The text is not exactly twice as many bytes long as the secret prefix.
    WrongLength,
    /// The pair of digits for the byte at this position is no number.
    InvalidDigit(usize),
}

/// The value of a hexadecimal digit, small or capital.
pub open spec fn hex_digit_of(b: u8) -> Option<u8> {
    if 0x30 <= b <= 0x39 {
        Some((b - 0x30) as u8)
    } else if 0x61 <= b <= 0x66 {
        Some((b - 0x61 + 10) as u8)
    } else if 0x41 <= b <= 0x46 {
        Some((b - 0x41 + 10) as u8)
    } else {
        None
    }
}

/// The byte that two characters spell: two hexadecimal digits, or a plus
/// sign and one digit, which is how the standard parser of integers reads a
/// text of two characters in base sixteen.
pub open spec fn hex_pair_of(first: u8, second: u8) -> Option<u8> {
    match hex_digit_of(second) {
        Some(low) => if first == 0x2B {
            Some(low)
        } else {
            match hex_digit_of(first) {
                Some(high) => Some((high * 16 + low) as u8),
                None => None,
            }
        },
        None => None,
    }
}

/// The value of a hexadecimal digit, small or capital.
pub fn hex_digit(b: u8) -> (v: Option<u8>)
    ensures
        v == hex_digit_of(b),
{
    if 0x30 <= b && b <= 0x39 {
        Some(b - 0x30)
    } else if 0x61 <= b && b <= 0x66 {
        Some(b - 0x61 + 10)
    } else if 0x41 <= b && b <= 0x46 {
        Some(b - 0x41 + 10)
    } else {
        None
    }
}

/// The byte that two characters spell.
pub fn hex_pair(first: u8, second: u8) -> (v: Option<u8>)
    ensures
        v == hex_pair_of(first, second),
{
    match hex_digit(second) {
        Some(low) => {
            if first == 0x2B {
                Some(low)
            } else {
                match hex_digit(first) {
                    Some(high) => Some(high * 16 + low),
                    None => None,
                }
            }
        },
        None => None,
    }
}

/// Whether the pair of digits for byte `i` of the secret prefix reads as a
/// number.
pub open spec fn pair_reads(text: Seq<u8>, i: int) -> bool {
    hex_pair_of(text[2 * i], text[2 * i + 1]) is Some
}

/// Reads the secret prefix of the image hash from its hexadecimal form, 512
/// characters for 256 bytes. A text of another length is refused, and so is
/// one with a pair that is no number, with the position of the first such
/// pair.
pub fn decode_hex_to_arc_array(hex_str: &str) -> (r: Result<[u8; 256], HexError>)
    ensures
        hex_str.spec_bytes().len() != 2 * HASH_IV_LEN ==> r == Err::<[u8; 256], HexError>(
            HexError::WrongLength,
        ),
        hex_str.spec_bytes().len() == 2 * HASH_IV_LEN ==> match r {
            Ok(bytes) => forall|i: int|
                0 <= i < HASH_IV_LEN ==> Some(#[trigger] bytes@[i]) == hex_pair_of(
                    hex_str.spec_bytes()[2 * i],
                    hex_str.spec_bytes()[2 * i + 1],
                ),
            Err(HexError::InvalidDigit(at)) => at < HASH_IV_LEN && !pair_reads(
                hex_str.spec_bytes(),
                at as int,
            ) && forall|i: int| 0 <= i < at ==> pair_reads(hex_str.spec_bytes(), i),
            Err(HexError::WrongLength) => false,
        },
{
    let text = hex_str.as_bytes();
    if text.len() != 2 * HASH_IV_LEN {
        return Err(HexError::WrongLength);
    }
    let mut bytes: [u8; 256] = [0u8; 256];
    let mut i: usize = 0;
    while i < HASH_IV_LEN
        invariant
            i <= HASH_IV_LEN,
            text@ == hex_str.spec_bytes(),
            text@.len() == 2 * HASH_IV_LEN,
            forall|k: int| 0 <= k < i ==> pair_reads(text@, k),
            forall|k: int|
                0 <= k < i ==> Some(#[trigger] bytes@[k]) == hex_pair_of(
                    text@[2 * k],
                    text@[2 * k + 1],
                ),
        decreases HASH_IV_LEN - i,
    {
        match hex_pair(text[2 * i], text[2 * i + 1]) {
            Some(v) => {
                bytes[i] = v;
            },
            None => {
                return Err(HexError::InvalidDigit(i));
            },
        }
        i += 1;
    }
    Ok(bytes)
}

impl HexError {
    /// The error in words.
    pub open spec fn message_of(self) -> Seq<char> {
        match self {
            HexError::WrongLength => "Hex string must be exactly 512 characters"@,
            HexError::InvalidDigit(at) => "Invalid hex at position "@ + decimal_of(at as nat)
                + ": invalid digit found in string"@,
        }
    }

    /// The error in words.
    pub fn message(&self) -> (m: String)
        ensures
            m@ == self.message_of(),
    {
        match self {
            HexError::WrongLength => String::from_str("Hex string must be exactly 512 characters"),
            HexError::InvalidDigit(at) => {
                let mut m = String::from_str("Invalid hex at position ");
                push_decimal(&mut m, *at);
                m.append(": invalid digit found in string");
                m
            },
        }
    }
}

/// The settings of a running server.
#[derive(Clone, Debug, PartialEq, Eq)]
pub struct Config {
    pub db_url: String,
    pub db_ns: String,
    pub db_db: String,
    pub db_user: String,
    pub db_pass: String,
    pub rocket_secret_key: String,
    pub redis_url: String,
    pub minio_url: String,
    pub minio_root_user: String,
    pub minio_root_password: String,
    pub minio_img_hash_iv: [u8; 256],
}

/// Why the settings were refused.
#[derive(Clone, Copy, Debug, PartialEq, Eq, Structural)]
pub enum ConfigError {
    /// A setting that must not be empty is empty, or the key that signs
    /// cookies is too short.
    Incomplete,
    /// The secret prefix of the image hash does not read.
    HashIv(HexError),
}

/// The settings as they come from the environment, before any check.
#[derive(Clone, Debug, PartialEq, Eq)]
pub struct RawConfig {
    pub db_url: String,
    pub db_ns: String,
    pub db_db: String,
    pub db_user: String,
    pub db_pass: String,
    pub rocket_secret_key: String,
    pub redis_url: String,
    pub minio_url: String,
    pub minio_root_user: String,
    pub minio_root_password: String,
    pub minio_img_hash_iv: String,
}

impl RawConfig {
    /// The addresses and names that the server cannot do without are there,
    /// and the key that signs cookies is long enough.
    pub open spec fn complete(&self) -> bool {
        &&& self.db_url@.len() > 0
        &&& self.db_ns@.len() > 0
        &&& self.db_db@.len() > 0
        &&& byte_len(self.rocket_secret_key@) >= SECRET_KEY_MIN_LEN
        &&& self.redis_url@.len() > 0
        &&& self.minio_url@.len() > 0
        &&& self.minio_root_user@.len() > 0
        &&& self.minio_root_password@.len() > 0
    }

    /// Whether the settings are complete.
    pub fn is_complete(&self) -> (r: bool)
        ensures
            r == self.complete(),
    {
        !self.db_url.as_str().is_empty() && !self.db_ns.as_str().is_empty()
            && !self.db_db.as_str().is_empty() && str_byte_len(self.rocket_secret_key.as_str())
            >= SECRET_KEY_MIN_LEN && !self.redis_url.as_str().is_empty()
            && !self.minio_url.as_str().is_empty() && !self.minio_root_user.as_str().is_empty()
            && !self.minio_root_password.as_str().is_empty()
    }
}

impl Config {
    /// Checks the settings and reads the secret prefix of the image hash.
    /// Incomplete settings are refused before the prefix is looked at.
    pub fn from_raw(raw: RawConfig) -> (r: Result<Config, ConfigError>)
        ensures
            !raw.complete() ==> r == Err::<Config, ConfigError>(ConfigError::Incomplete),
            raw.complete() ==> match r {
                Ok(config) => {
                    &&& config.db_url == raw.db_url
                    &&& config.db_ns == raw.db_ns
                    &&& config.db_db == raw.db_db
                    &&& config.db_user == raw.db_user
                    &&& config.db_pass == raw.db_pass
                    &&& config.rocket_secret_key == raw.rocket_secret_key
                    &&& config.redis_url == raw.redis_url
                    &&& config.minio_url == raw.minio_url
                    &&& config.minio_root_user == raw.minio_root_user
                    &&& config.minio_root_password == raw.minio_root_password
                    &&& byte_len(raw.minio_img_hash_iv@) == 2 * HASH_IV_LEN
                    &&& forall|i: int|
                        0 <= i < HASH_IV_LEN ==> Some(#[trigger] config.minio_img_hash_iv@[i])
                            == hex_pair_of(
                            vstd::utf8::encode_utf8(raw.minio_img_hash_iv@)[2 * i],
                            vstd::utf8::encode_utf8(raw.minio_img_hash_iv@)[2 * i + 1],
                        )
                },
                Err(ConfigError::HashIv(HexError::WrongLength)) => byte_len(raw.minio_img_hash_iv@)
                    != 2 * HASH_IV_LEN,
                Err(ConfigError::HashIv(HexError::InvalidDigit(at))) => {
                    &&& byte_len(raw.minio_img_hash_iv@) == 2 * HASH_IV_LEN
                    &&& at < HASH_IV_LEN
                    &&& !pair_reads(vstd::utf8::encode_utf8(raw.minio_img_hash_iv@), at as int)
                    &&& forall|i: int|
                        0 <= i < at ==> pair_reads(
                            vstd::utf8::encode_utf8(raw.minio_img_hash_iv@),
                            i,
                        )
                },
                Err(ConfigError::Incomplete) => false,
            },
    {
        if !raw.is_complete() {
            return Err(ConfigError::Incomplete);
        }
        match decode_hex_to_arc_array(raw.minio_img_hash_iv.as_str()) {
            Ok(iv) => Ok(
                Config {
                    db_url: raw.db_url,
                    db_ns: raw.db_ns,
                    db_db: raw.db_db,
                    db_user: raw.db_user,
                    db_pass: raw.db_pass,
                    rocket_secret_key: raw.rocket_secret_key,
                    redis_url: raw.redis_url,
                    minio_url: raw.minio_url,
                    minio_root_user: raw.minio_root_user,
                    minio_root_password: raw.minio_root_password,
                    minio_img_hash_iv: iv,
                },
            ),
            Err(e) => Err(ConfigError::HashIv(e)),
        }
    }
}

} // verus!
