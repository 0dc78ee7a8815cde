//! Application configuration assembled from externally read settings.

use crate::types::ConfigError;
use vstd::prelude::*;

verus! {

/// True of the characters a decimal number is written with.
pub open spec fn is_dec_digit(c: char) -> bool {
    '0' <= c && c <= '9'
}

/// Numeric value of a decimal digit.
pub open spec fn dec_digit_val(c: char) -> int {
    c as u32 - '0' as u32
}

/// A non-empty string of decimal digits.
pub open spec fn is_dec_string(s: Seq<char>) -> bool {
    s.len() > 0 && forall|i: int| 0 <= i < s.len() ==> is_dec_digit(#[trigger] s[i])
}

/// The number a string of decimal digits denotes.
pub open spec fn spec_dec_val(s: Seq<char>) -> int
    decreases s.len(),
{
    if s.len() == 0 {
        0
    } else {
        spec_dec_val(s.drop_last()) * 10 + dec_digit_val(s.last())
    }
}

proof fn lemma_dec_val_nonneg(s: Seq<char>)
    requires
        forall|i: int| 0 <= i < s.len() ==> is_dec_digit(#[trigger] s[i]),
    ensures
        spec_dec_val(s) >= 0,
    decreases s.len(),
{
    if s.len() > 0 {
        lemma_dec_val_nonneg(s.drop_last());
    }
}

/// Reads a network port from its decimal text. Exactly the non-empty digit
/// strings whose value fits the port width parse; leading zeros are allowed.
pub fn parse_port(s: &str) -> (r: Option<u16>)
    ensures
        r is Some <==> is_dec_string(s@) && spec_dec_val(s@) <= u16::MAX,
        r matches Some(n) ==> n as int == spec_dec_val(s@),
{
    let len = s.unicode_len();
    let mut i: usize = 0;
    let mut acc: u32 = 0;
    let mut over = false;
    while i < len
        invariant
            i <= len,
            len == s@.len(),
            forall|j: int| 0 <= j < i ==> is_dec_digit(#[trigger] s@[j]),
            !over ==> acc as int == spec_dec_val(s@.take(i as int)) && acc <= 65535,
            over ==> spec_dec_val(s@.take(i as int)) > 65535,
        decreases len - i,
    {
        let c = s.get_char(i);
        let code = c as u32;
        if code < 48 || code > 57 {
            return None;
        }
        proof {
            assert(s@.take(i as int + 1).drop_last() =~= s@.take(i as int));
            lemma_dec_val_nonneg(s@.take(i as int));
        }
        if over {
            // The value already exceeds the port width; later digits keep it there.
        } else {
            let next = acc * 10 + (code - 48);
            if next > 65535 {
                over = true;
            } else {
                acc = next;
            }
        }
        i = i + 1;
    }
    proof {
        assert(s@.take(len as int) =~= s@);
    }
    if len == 0 || over {
        None
    } else {
        Some(acc as u16)
    }
}

/// The settings the application runs with: the ledger endpoint and the port
/// to listen on.
#[derive(Debug)]
pub struct AppConfig {
    pub rpc_url: String,
    pub port: u16,
}

impl AppConfig {
    /// Assembles the configuration from the two externally read settings.
    /// Each must be present, and the port must be a decimal number within the
    /// port width; the first missing or invalid one names the failure.
    pub fn load(rpc_url: Option<String>, port: Option<String>) -> (r: Result<AppConfig, ConfigError>)
        ensures
            rpc_url is None ==> (r matches Err(e) && e == ConfigError::MissingRpcUrl),
            rpc_url is Some && port is None ==> (r matches Err(e) && e == ConfigError::MissingPort),
            rpc_url matches Some(u) ==> (port matches Some(p) ==> if is_dec_string(p@)
                && spec_dec_val(p@) <= u16::MAX {
                r matches Ok(c) && c.rpc_url@ == u@ && c.port as int == spec_dec_val(p@)
            } else {
                r matches Err(e) && e == ConfigError::InvalidPort
            }),
    {
        match rpc_url {
            None => Err(ConfigError::MissingRpcUrl),
            Some(url) => match port {
                None => Err(ConfigError::MissingPort),
                Some(port_text) => match parse_port(port_text.as_str()) {
                    None => Err(ConfigError::InvalidPort),
                    Some(n) => Ok(AppConfig { rpc_url: url, port: n }),
                },
            },
        }
    }
}

} // verus!
