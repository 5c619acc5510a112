//! Configuration values, assembled once from raw environment text and passed
//! by reference afterwards. Each reader takes the raw value of its variable as
//! an argument; nothing here touches ambient process state.

use vstd::prelude::*;
use vstd::string::StrSliceExecFns;
use crate::digits::{all_digits, digit_of, digits_val, lemma_digits_val_nonneg,
    lemma_digits_val_prefix_le, spec_digit};

verus! {

/// Why a raw configuration value was refused.
#[derive(Clone, Copy, Debug, PartialEq, Eq, Structural)]
pub enum ConfigError {
    /// The variable is not set at all.
    Missing,
    /// The variable is set to text that is empty or all whitespace.
    Empty,
    /// The variable should hold a number but does not, or the number is too
    /// large.
    NotANumber,
}

/// Every option the pipeline recognises, assembled once from the raw values
/// of its variables and passed by reference afterwards.
#[derive(Clone, Debug)]
pub struct Config {
    /// Ledger endpoint URL.
    pub rpc_endpoint: String,
    /// Locator of the authority credential.
    pub authority_keypair_path: String,
    /// Locator of the funding-asset credential.
    pub mint_keypair_path: String,
    /// Display name of the reward token.
    pub token_name: String,
    /// Symbol of the reward token.
    pub token_symbol: String,
    /// Descriptor URI for issued collectibles.
    pub token_meta_uri: String,
    /// Whether rewards settle on-chain.
    pub on_chain: bool,
    /// The streak goal, in days.
    pub streak_days: u8,
    /// Broker port of the message bus.
    pub kafka_port: String,
}

/// Whether `s` holds nothing but (ASCII) whitespace.
pub open spec fn is_blank(s: Seq<char>) -> bool {
    forall|i: int| 0 <= i < s.len() ==> is_space_char(#[trigger] s[i])
}

/// The whitespace characters `is_blank` recognises: the code points with
/// the White_Space property, as trimming treats them.
pub open spec fn is_space_char(c: char) -> bool {
    ||| c == '\u{0009}'
    ||| c == '\u{000A}'
    ||| c == '\u{000B}'
    ||| c == '\u{000C}'
    ||| c == '\u{000D}'
    ||| c == '\u{0020}'
    ||| c == '\u{0085}'
    ||| c == '\u{00A0}'
    ||| c == '\u{1680}'
    ||| c == '\u{2000}'
    ||| c == '\u{2001}'
    ||| c == '\u{2002}'
    ||| c == '\u{2003}'
    ||| c == '\u{2004}'
    ||| c == '\u{2005}'
    ||| c == '\u{2006}'
    ||| c == '\u{2007}'
    ||| c == '\u{2008}'
    ||| c == '\u{2009}'
    ||| c == '\u{200A}'
    ||| c == '\u{2028}'
    ||| c == '\u{2029}'
    ||| c == '\u{202F}'
    ||| c == '\u{205F}'
    ||| c == '\u{3000}'
}

fn space_char(c: char) -> (r: bool)
    ensures
        r == is_space_char(c),
{
    c == '\u{0009}' || c == '\u{000A}' || c == '\u{000B}' || c == '\u{000C}' || c == '\u{000D}'
        || c == '\u{0020}' || c == '\u{0085}' || c == '\u{00A0}' || c == '\u{1680}' || c
        == '\u{2000}' || c == '\u{2001}' || c == '\u{2002}' || c == '\u{2003}' || c == '\u{2004}'
        || c == '\u{2005}' || c == '\u{2006}' || c == '\u{2007}' || c == '\u{2008}' || c
        == '\u{2009}' || c == '\u{200A}' || c == '\u{2028}' || c == '\u{2029}' || c == '\u{202F}'
        || c == '\u{205F}' || c == '\u{3000}'
}

/// A required value: present and not blank, or the reason it is refused.
pub fn get_required_env(value: Option<String>) -> (r: Result<String, ConfigError>)
    ensures
        r matches Ok(v) ==> value matches Some(w) && v == w && !is_blank(v@),
        r matches Err(e) ==> (e == ConfigError::Missing && value is None) || (e
            == ConfigError::Empty && (value matches Some(w) && is_blank(w@))),
{
    match value {
        None => Err(ConfigError::Missing),
        Some(v) => {
            let n = v.as_str().unicode_len();
            let mut i: usize = 0;
            while i < n
                invariant
                    value == Some(v),
                    n == v@.len(),
                    0 <= i <= n,
                    forall|j: int| 0 <= j < i ==> is_space_char(#[trigger] v@[j]),
                decreases n - i,
            {
                if !space_char(v.as_str().get_char(i)) {
                    assert(!is_blank(v@)) by {
                        assert(!is_space_char(v@[i as int]));
                    }
                    return Ok(v);
                }
                i = i + 1;
            }
            Err(ConfigError::Empty)
        },
    }
}

/// The ledger endpoint URL, from the raw value of its variable.
pub fn get_rpc_endpoint(value: Option<String>) -> (r: Result<String, ConfigError>)
    ensures
        r matches Ok(v) ==> value matches Some(w) && v == w && !is_blank(v@),
        r is Err <==> (value is None || is_blank(value->0@)),
{
    get_required_env(value)
}

/// The reward token's display name, from the raw value of its variable.
pub fn get_token_name(value: Option<String>) -> (r: Result<String, ConfigError>)
    ensures
        r matches Ok(v) ==> value matches Some(w) && v == w && !is_blank(v@),
        r is Err <==> (value is None || is_blank(value->0@)),
{
    get_required_env(value)
}

/// The reward token's symbol, from the raw value of its variable.
pub fn get_token_symbol(value: Option<String>) -> (r: Result<String, ConfigError>)
    ensures
        r matches Ok(v) ==> value matches Some(w) && v == w && !is_blank(v@),
        r is Err <==> (value is None || is_blank(value->0@)),
{
    get_required_env(value)
}

/// The descriptor URI attached to issued collectibles, from the raw value of
/// its variable.
pub fn get_token_meta_uri(value: Option<String>) -> (r: Result<String, ConfigError>)
    ensures
        r matches Ok(v) ==> value matches Some(w) && v == w && !is_blank(v@),
        r is Err <==> (value is None || is_blank(value->0@)),
{
    get_required_env(value)
}

/// The deployment-mode flag: rewards settle on-chain exactly when the raw
/// value is the text `true` or `1`.
pub fn get_solana_on_chain(value: Option<String>) -> (r: Result<bool, ConfigError>)
    ensures
        r matches Ok(b) ==> value matches Some(w) && !is_blank(w@) && b == (w@ == "true"@ || w@
            == "1"@),
        r is Err <==> (value is None || is_blank(value->0@)),
{
    match get_required_env(value) {
        Err(e) => Err(e),
        Ok(v) => {
            let on = v == "true".to_owned() || v == "1".to_owned();
            Ok(on)
        },
    }
}

/// Whether `s` is a decimal numeral a `u8` can hold: an optional leading `+`,
/// then digits only, worth at most 255.
pub open spec fn is_u8_numeral(s: Seq<char>) -> bool {
    let t = if s.len() > 0 && s[0] == '+' {
        s.skip(1)
    } else {
        s
    };
    t.len() > 0 && all_digits(t) && digits_val(t) <= 255
}

/// The value of such a numeral.
pub open spec fn u8_numeral_val(s: Seq<char>) -> int {
    if s.len() > 0 && s[0] == '+' {
        digits_val(s.skip(1))
    } else {
        digits_val(s)
    }
}

/// Read the digits of `s` from position `from` on as a value of at most 255.
fn parse_u8_digits(s: &str, from: usize) -> (r: Result<u8, ConfigError>)
    requires
        from <= s@.len(),
    ensures
        r matches Ok(n) ==> s@.len() - from > 0 && all_digits(s@.skip(from as int)) && digits_val(
            s@.skip(from as int)) == n,
        r is Err <==> !(s@.len() - from > 0 && all_digits(s@.skip(from as int)) && digits_val(
            s@.skip(from as int)) <= 255),
        r matches Err(e) ==> e == ConfigError::NotANumber,
{
    let ghost t = s@.skip(from as int);
    let n = s.unicode_len();
    if from == n {
        return Err(ConfigError::NotANumber);
    }
    let mut acc: u16 = 0;
    let mut i: usize = from;
    while i < n
        invariant
            n == s@.len(),
            from <= i <= n,
            t == s@.skip(from as int),
            all_digits(t.take(i - from)),
            acc == digits_val(t.take(i - from)),
            acc <= 255,
        decreases n - i,
    {
        let c = s.get_char(i);
        assert(s@[i as int] == t[i - from]);
        match digit_of(c) {
            None => {
                assert(!all_digits(t)) by {
                    assert(spec_digit(t[i - from]) is None);
                }
                return Err(ConfigError::NotANumber);
            },
            Some(d) => {
                proof {
                    let p = t.take(i + 1 - from);
                    assert(p.drop_last() =~= t.take(i - from));
                    assert(p.last() == t[i - from]);
                }
                acc = acc * 10 + (d as u16);
                if acc > 255 {
                    proof {
                        assert(all_digits(t.take(i + 1 - from)));
                        if all_digits(t) && digits_val(t) <= 255 {
                            lemma_digits_val_prefix_le(t, i + 1 - from);
                        }
                    }
                    return Err(ConfigError::NotANumber);
                }
                i = i + 1;
            },
        }
    }
    assert(t.take(n - from) =~= t);
    Ok(acc as u8)
}

/// The streak goal in days, parsed from the raw value of its variable: an
/// optional leading `+` and decimal digits, as `u8` text is read.
pub fn get_solana_on_chain_streak_days(value: Option<String>) -> (r: Result<u8, ConfigError>)
    ensures
        r matches Ok(n) ==> value matches Some(w) && is_u8_numeral(w@) && n == u8_numeral_val(w@),
        r matches Err(e) ==> (e == ConfigError::Missing && value is None) || (e
            == ConfigError::Empty && (value matches Some(w) && is_blank(w@))) || (e
            == ConfigError::NotANumber && (value matches Some(w) && !is_blank(w@)
            && !is_u8_numeral(w@))),
{
    match get_required_env(value) {
        Err(e) => Err(e),
        Ok(v) => {
            let s = v.as_str();
            let n = s.unicode_len();
            let from: usize = if n > 0 && s.get_char(0) == '+' {
                1
            } else {
                0
            };
            proof {
                if from == 0 {
                    assert(s@.skip(0) =~= s@);
                }
            }
            parse_u8_digits(s, from)
        },
    }
}

/// Assemble the whole configuration from the raw values of its variables.
/// Every option is required; the first refused one is reported.
pub fn assemble_config(
    rpc_endpoint: Option<String>,
    authority_keypair_path: Option<String>,
    mint_keypair_path: Option<String>,
    token_name: Option<String>,
    token_symbol: Option<String>,
    token_meta_uri: Option<String>,
    on_chain: Option<String>,
    streak_days: Option<String>,
    kafka_port: Option<String>,
) -> (r: Result<Config, ConfigError>)
    ensures
        r matches Ok(c) ==> {
            &&& rpc_endpoint matches Some(w) && c.rpc_endpoint == w && !is_blank(w@)
            &&& authority_keypair_path matches Some(w) && c.authority_keypair_path == w
                && !is_blank(w@)
            &&& mint_keypair_path matches Some(w) && c.mint_keypair_path == w && !is_blank(w@)
            &&& token_name matches Some(w) && c.token_name == w && !is_blank(w@)
            &&& token_symbol matches Some(w) && c.token_symbol == w && !is_blank(w@)
            &&& token_meta_uri matches Some(w) && c.token_meta_uri == w && !is_blank(w@)
            &&& on_chain matches Some(w) && c.on_chain == (w@ == "true"@ || w@ == "1"@)
            &&& streak_days matches Some(w) && is_u8_numeral(w@) && c.streak_days
                == u8_numeral_val(w@)
            &&& kafka_port matches Some(w) && c.kafka_port == w && !is_blank(w@)
        },
        r is Err <==> {
            ||| rpc_endpoint is None || is_blank(rpc_endpoint->0@)
            ||| authority_keypair_path is None || is_blank(authority_keypair_path->0@)
            ||| mint_keypair_path is None || is_blank(mint_keypair_path->0@)
            ||| token_name is None || is_blank(token_name->0@)
            ||| token_symbol is None || is_blank(token_symbol->0@)
            ||| token_meta_uri is None || is_blank(token_meta_uri->0@)
            ||| on_chain is None || is_blank(on_chain->0@)
            ||| streak_days is None || !is_u8_numeral(streak_days->0@)
            ||| kafka_port is None || is_blank(kafka_port->0@)
        },
{
    let rpc_endpoint = match get_rpc_endpoint(rpc_endpoint) {
        Ok(v) => v,
        Err(e) => {
            return Err(e);
        },
    };
    let authority_keypair_path = match get_required_env(authority_keypair_path) {
        Ok(v) => v,
        Err(e) => {
            return Err(e);
        },
    };
    let mint_keypair_path = match get_required_env(mint_keypair_path) {
        Ok(v) => v,
        Err(e) => {
            return Err(e);
        },
    };
    let token_name = match get_token_name(token_name) {
        Ok(v) => v,
        Err(e) => {
            return Err(e);
        },
    };
    let token_symbol = match get_token_symbol(token_symbol) {
        Ok(v) => v,
        Err(e) => {
            return Err(e);
        },
    };
    let token_meta_uri = match get_token_meta_uri(token_meta_uri) {
        Ok(v) => v,
        Err(e) => {
            return Err(e);
        },
    };
    let on_chain = match get_solana_on_chain(on_chain) {
        Ok(v) => v,
        Err(e) => {
            return Err(e);
        },
    };
    let streak_days = match get_solana_on_chain_streak_days(streak_days) {
        Ok(v) => v,
        Err(e) => {
            return Err(e);
        },
    };
    let kafka_port = match get_required_env(kafka_port) {
        Ok(v) => v,
        Err(e) => {
            return Err(e);
        },
    };
    Ok(
        Config {
            rpc_endpoint,
            authority_keypair_path,
            mint_keypair_path,
            token_name,
            token_symbol,
            token_meta_uri,
            on_chain,
            streak_days,
            kafka_port,
        },
    )
}

} // verus!
