//! The configuration of a capture: where to listen and where to write,
//! taken from the command line.

use vstd::prelude::*;
use vstd::string::*;
use vstd::utf8::is_ascii_chars;
use crate::decimal::{all_digits, decimal_value, digit_value, is_digit};

verus! {

/// Number of command-line words of a valid invocation: the program's name,
/// the IP address, the port and the output directory.
pub const ARGUMENT_COUNT: usize = 4;

/// Why a command line is no configuration.
#[derive(Clone, Copy, Debug, PartialEq, Eq, Structural)]
pub enum ConfigError {
    /// The command line does not hold exactly three arguments.
    WrongArgumentCount,
    /// The first argument is no IP address.
    InvalidAddress,
    /// The second argument is no UDP port.
    InvalidPort,
}

/// A valid configuration.
#[derive(Debug, PartialEq, Eq)]
pub struct Config {
    /// The IP address to listen on, as text.
    pub bind_address: String,
    /// The UDP port to listen on.
    pub bind_port: u16,
    /// The directory that receives the capture files.
    pub output_dir: String,
}

/// The mathematical value of a [`Config`].
pub struct ConfigView {
    pub bind_address: Seq<char>,
    pub bind_port: u16,
    pub output_dir: Seq<char>,
}

impl View for Config {
    type V = ConfigView;

    open spec fn view(&self) -> ConfigView {
        ConfigView {
            bind_address: self.bind_address@,
            bind_port: self.bind_port,
            output_dir: self.output_dir@,
        }
    }
}

impl Clone for Config {
    fn clone(&self) -> (copy: Config)
        ensures
            copy@ == self@,
    {
        Config {
            bind_address: self.bind_address.clone(),
            bind_port: self.bind_port,
            output_dir: self.output_dir.clone(),
        }
    }
}

/// The digits of a port argument: the text without its one optional
/// leading `+`.
pub open spec fn port_digits(text: Seq<char>) -> Seq<char> {
    if text.len() > 0 && text[0] == '+' {
        text.skip(1)
    } else {
        text
    }
}

/// The port that a text stands for: an optional `+`, then one or more ASCII
/// digits whose value is at most 65535. Leading zeros are accepted; spaces,
/// a `-` and an empty text are not.
pub open spec fn port_of(text: Seq<char>) -> Option<u16> {
    let digits = port_digits(text);
    if digits.len() > 0 && all_digits(digits) && decimal_value(digits) <= u16::MAX {
        Some(decimal_value(digits) as u16)
    } else {
        None
    }
}

/// The configuration that a command line stands for. `address` is the
/// outcome of reading the first argument as an IP address: its text in
/// canonical form, or `None` where it is no address. The checks come in
/// this order: the number of arguments, the address, the port.
pub open spec fn config_of(args: Seq<String>, address: Option<String>) -> Result<
    ConfigView,
    ConfigError,
> {
    if args.len() != ARGUMENT_COUNT {
        Err(ConfigError::WrongArgumentCount)
    } else if address is None {
        Err(ConfigError::InvalidAddress)
    } else if port_of(args[2]@) is None {
        Err(ConfigError::InvalidPort)
    } else {
        Ok(
            ConfigView {
                bind_address: address->0@,
                bind_port: port_of(args[2]@)->0,
                output_dir: args[3]@,
            },
        )
    }
}

/// Reading one more digit multiplies what was read by ten and adds the digit.
proof fn lemma_value_step(s: Seq<char>, k: int)
    requires
        0 <= k < s.len(),
    ensures
        decimal_value(s.take(k + 1)) == 10 * decimal_value(s.take(k)) + digit_value(s[k]),
{
    assert(s.take(k + 1).drop_last() =~= s.take(k));
}

/// The front of a text of digits stands for no more than the whole text.
proof fn lemma_value_of_front(s: Seq<char>, k: int)
    requires
        0 <= k <= s.len(),
    ensures
        decimal_value(s.take(k)) <= decimal_value(s),
    decreases s.len() - k,
{
    if k == s.len() {
        assert(s.take(k) =~= s);
    } else {
        lemma_value_step(s, k);
        lemma_value_of_front(s, k + 1);
    }
}

/// A text with a character beyond ASCII stands for no port.
proof fn lemma_port_text_is_ascii(text: Seq<char>)
    requires
        port_of(text) is Some,
    ensures
        is_ascii_chars(text),
{
    let digits = port_digits(text);
    assert forall|i: int| 0 <= i < text.len() implies '\0' <= #[trigger] text[i] <= '\u{7f}' by {
        if text[0] == '+' {
            if i > 0 {
                assert(is_digit(digits[i - 1]));
            }
        } else {
            assert(is_digit(digits[i]));
        }
    }
}

/// Reads a UDP port: an optional `+`, then decimal digits, at most 65535.
pub fn parse_port(text: &str) -> (port: Option<u16>)
    ensures
        port == port_of(text@),
{
    if !text.is_ascii() {
        proof {
            if port_of(text@) is Some {
                lemma_port_text_is_ascii(text@);
            }
        }
        return None;
    }
    let bytes = text.as_bytes();
    proof {
        is_ascii_spec_bytes(text);
    }
    let len: usize = bytes.len();
    let start: usize = if len > 0 && bytes[0] == 43u8 { 1 } else { 0 };
    let ghost digits = port_digits(text@);
    assert(digits.len() == len - start);
    assert forall|k: int| 0 <= k < digits.len() implies (#[trigger] digits[k]) as int == bytes@[start
        + k] as int by {
        assert(digits[k] == text@[start + k]);
        assert((text@[start + k] as nat) < 128);
    }
    if start == len {
        return None;
    }
    let mut value: u32 = 0;
    let mut i: usize = start;
    while i < len
        invariant
            start <= i <= len,
            len == bytes@.len(),
            digits == port_digits(text@),
            digits.len() == len - start,
            forall|k: int|
                0 <= k < digits.len() ==> (#[trigger] digits[k]) as int == bytes@[start + k] as int,
            all_digits(digits.take(i - start)),
            value == decimal_value(digits.take(i - start)),
            value <= u16::MAX,
        decreases len - i,
    {
        let byte: u8 = bytes[i];
        let ghost k = i - start;
        assert(digits[k] as int == byte as int);
        if byte < 48 || byte > 57 {
            return None;
        }
        proof {
            lemma_value_step(digits, k);
            assert(is_digit(digits[k]));
            assert(digits.take(k + 1).drop_last() =~= digits.take(k));
            assert forall|j: int| 0 <= j < k + 1 implies is_digit(
                #[trigger] digits.take(k + 1)[j],
            ) by {
                if j < k {
                    assert(digits.take(k)[j] == digits[j]);
                }
            }
        }
        value = value * 10 + (byte - 48) as u32;
        if value > 65535 {
            proof {
                lemma_value_of_front(digits, k + 1);
            }
            return None;
        }
        i += 1;
    }
    proof {
        assert(digits.take(i - start) =~= digits);
    }
    Some(value as u16)
}

impl Config {
    /// Reads the configuration from the command line `args`, the program's
    /// name first. `address` is what came of reading `args[1]` as an IP
    /// address: its canonical text, or `None`.
    pub fn from_args(args: &Vec<String>, address: Option<String>) -> (config: Result<
        Config,
        ConfigError,
    >)
        ensures
            match config {
                Ok(c) => config_of(args@, address) == Ok::<ConfigView, ConfigError>(c@),
                Err(e) => config_of(args@, address) == Err::<ConfigView, ConfigError>(e),
            },
    {
        if args.len() != ARGUMENT_COUNT {
            return Err(ConfigError::WrongArgumentCount);
        }
        let bind_address = match address {
            Some(text) => text,
            None => {
                return Err(ConfigError::InvalidAddress);
            },
        };
        let bind_port: u16 = match parse_port(args[2].as_str()) {
            Some(port) => port,
            None => {
                return Err(ConfigError::InvalidPort);
            },
        };
        Ok(Config { bind_address, bind_port, output_dir: args[3].clone() })
    }
}

} // verus!
