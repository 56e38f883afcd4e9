//! The configuration of the service and its reading from named settings.

use vstd::prelude::*;
use vstd::string::*;
use crate::normalize::trimmed_text;

verus! {

/// The settings of a running service. They are read once at startup and never
/// change afterwards.
#[derive(Clone, Debug, PartialEq, Eq)]
pub struct Config {
    pub database_url: String,
    /// The shared secret that signs every token.
    pub jwt_secret: String,
    pub server_host: String,
    pub server_port: u16,
    /// The origins whose pages may call the service.
    pub allowed_origins: Vec<String>,
}

/// Why a configuration could not be read.
#[derive(Clone, Debug, PartialEq, Eq)]
pub enum ConfigError {
    /// The database address is not set.
    MissingDatabaseUrl,
    /// The signing secret is not set.
    MissingJwtSecret,
    /// The port is not a number from 0 to 65535; the text is what was given.
    InvalidPort(String),
}

/// A [`Config`] with its texts as character sequences.
pub struct ConfigModel {
    pub database_url: Seq<char>,
    pub jwt_secret: Seq<char>,
    pub server_host: Seq<char>,
    pub server_port: u16,
    pub allowed_origins: Seq<Seq<char>>,
}

/// A [`ConfigError`] with its text as a character sequence.
pub enum ConfigErrorModel {
    MissingDatabaseUrl,
    MissingJwtSecret,
    InvalidPort(Seq<char>),
}

impl View for Config {
    type V = ConfigModel;

    open spec fn view(&self) -> ConfigModel {
        ConfigModel {
            database_url: self.database_url@,
            jwt_secret: self.jwt_secret@,
            server_host: self.server_host@,
            server_port: self.server_port,
            allowed_origins: Seq::new(
                self.allowed_origins@.len(),
                |i: int| self.allowed_origins@[i]@,
            ),
        }
    }
}

impl View for ConfigError {
    type V = ConfigErrorModel;

    open spec fn view(&self) -> ConfigErrorModel {
        match self {
            ConfigError::MissingDatabaseUrl => ConfigErrorModel::MissingDatabaseUrl,
            ConfigError::MissingJwtSecret => ConfigErrorModel::MissingJwtSecret,
            ConfigError::InvalidPort(text) => ConfigErrorModel::InvalidPort(text@),
        }
    }
}

/// A setting that may be absent, as a character sequence.
pub open spec fn setting_view(setting: Option<String>) -> Option<Seq<char>> {
    match setting {
        Some(text) => Some(text@),
        None => None,
    }
}

/// The number that a sequence of decimal digits writes.
pub open spec fn decimal_value(digits: Seq<char>) -> nat
    decreases digits.len(),
{
    if digits.len() == 0 {
        0
    } else {
        decimal_value(digits.drop_last()) * 10 + (digits.last() as nat - '0' as nat) as nat
    }
}

/// Every character is a decimal digit.
pub open spec fn all_digits(s: Seq<char>) -> bool {
    forall|i: int| 0 <= i < s.len() ==> '0' <= #[trigger] s[i] <= '9'
}

/// The digits of a port's text: the text itself, without a plus sign in front.
pub open spec fn unsigned_part(text: Seq<char>) -> Seq<char> {
    if text.len() > 0 && text[0] == '+' {
        text.drop_first()
    } else {
        text
    }
}

/// The port that a text writes: an optional plus sign, then one or more decimal
/// digits and nothing else, with a value that fits 16 bits.
pub open spec fn parsed_port(text: Seq<char>) -> Option<u16> {
    let digits = unsigned_part(text);
    if digits.len() > 0 && all_digits(digits) && decimal_value(digits) <= 0xffff {
        Some(decimal_value(digits) as u16)
    } else {
        None
    }
}

/// The pieces of a list put together again, with `sep` between neighbours.
pub open spec fn joined(pieces: Seq<Seq<char>>, sep: char) -> Seq<char>
    decreases pieces.len(),
{
    if pieces.len() == 0 {
        Seq::empty()
    } else if pieces.len() == 1 {
        pieces[0]
    } else {
        joined(pieces.drop_last(), sep) + seq![sep] + pieces.last()
    }
}

/// `pieces` is `text` cut at every `sep`: no piece holds a `sep`, and the pieces
/// with a `sep` between neighbours are `text` again. There is always at least one
/// piece; it may be empty.
pub open spec fn is_split_of(pieces: Seq<Seq<char>>, text: Seq<char>, sep: char) -> bool {
    &&& pieces.len() >= 1
    &&& joined(pieces, sep) == text
    &&& forall|i: int| 0 <= i < pieces.len() ==> !(#[trigger] pieces[i]).contains(sep)
}

/// The host where none is set.
pub open spec fn default_host() -> Seq<char> {
    "127.0.0.1"@
}

/// The port's text where none is set.
pub open spec fn default_port_text() -> Seq<char> {
    "5000"@
}

/// The list of origins where none is set.
pub open spec fn default_origins_text() -> Seq<char> {
    "http://localhost:3000,http://127.0.0.1:3000"@
}

/// `origins` are the entries of the comma-separated `text`, each one trimmed.
pub open spec fn is_origin_list(origins: Seq<Seq<char>>, text: Seq<char>) -> bool {
    exists|pieces: Seq<Seq<char>>|
        #![trigger is_split_of(pieces, text, ',')]
        {
            &&& is_split_of(pieces, text, ',')
            &&& origins.len() == pieces.len()
            &&& forall|i: int|
                0 <= i < pieces.len() ==> #[trigger] origins[i] == trimmed_text(pieces[i])
        }
}

/// A setting, or the default where it is absent.
pub open spec fn setting_or(setting: Option<Seq<char>>, default: Seq<char>) -> Seq<char> {
    match setting {
        Some(text) => text,
        None => default,
    }
}

/// `out` is what reading the five settings gives. The database address and the
/// signing secret must be present, and the port's text, given or default, must
/// write a port: the first of these that fails, in this order, is the error.
/// Otherwise the configuration holds the settings, each given or default, with the
/// port as a number and the origins as a list.
pub open spec fn is_config_of(
    out: Result<Config, ConfigError>,
    database_url: Option<Seq<char>>,
    jwt_secret: Option<Seq<char>>,
    server_host: Option<Seq<char>>,
    server_port: Option<Seq<char>>,
    allowed_origins: Option<Seq<char>>,
) -> bool {
    let port_text = setting_or(server_port, default_port_text());
    if database_url is None {
        out is Err && out->Err_0@ == ConfigErrorModel::MissingDatabaseUrl
    } else if jwt_secret is None {
        out is Err && out->Err_0@ == ConfigErrorModel::MissingJwtSecret
    } else if parsed_port(port_text) is None {
        out is Err && out->Err_0@ == ConfigErrorModel::InvalidPort(port_text)
    } else {
        &&& out is Ok
        &&& out->Ok_0@.database_url == database_url->0
        &&& out->Ok_0@.jwt_secret == jwt_secret->0
        &&& out->Ok_0@.server_host == setting_or(server_host, default_host())
        &&& out->Ok_0@.server_port == parsed_port(port_text)->0
        &&& is_origin_list(
            out->Ok_0@.allowed_origins,
            setting_or(allowed_origins, default_origins_text()),
        )
    }
}

/// Appending to the last piece appends to the joined text.
proof fn lemma_joined_grow(done: Seq<Seq<char>>, piece: Seq<char>, c: char, sep: char)
    ensures
        joined(done.push(piece.push(c)), sep) == joined(done.push(piece), sep).push(c),
{
    let shorter = done.push(piece);
    let longer = done.push(piece.push(c));
    assert(shorter.drop_last() =~= done);
    assert(longer.drop_last() =~= done);
}

/// Opening a new empty piece appends one separator to the joined text.
proof fn lemma_joined_open(done: Seq<Seq<char>>, piece: Seq<char>, sep: char)
    ensures
        joined(done.push(piece).push(Seq::empty()), sep) == joined(done.push(piece), sep).push(
            sep,
        ),
{
    let closed = done.push(piece);
    let opened = closed.push(Seq::empty());
    assert(opened.drop_last() =~= closed);
}

/// Reads a port number: an optional plus sign, then decimal digits only.
pub fn parse_port(text: &str) -> (port: Option<u16>)
    ensures
        port == parsed_port(text@),
{
    let n = text.unicode_len();
    let mut value: u32 = 0;
    let mut valid = true;
    let mut count: usize = 0;
    let mut i: usize = 0;
    let ghost mut digits: Seq<char> = Seq::empty();
    let it = text.chars();
    for c in iter: it
        invariant
            iter.seq() == text@,
            n == text@.len(),
            i == iter.index(),
            i <= n,
            count == digits.len(),
            count <= i,
            digits == unsigned_part(text@.take(i as int)),
            valid == (all_digits(digits) && decimal_value(digits) <= 0xffff),
            valid ==> value == decimal_value(digits),
            i > 0 ==> unsigned_part(text@.take(i as int)) == unsigned_part(text@).take(
                count as int,
            ),
            i == 0 ==> count == 0,
    {
        if !(i == 0 && c == '+') {
            proof {
                assert(digits.push(c).drop_last() =~= digits);
                digits = digits.push(c);
            }
            if valid && '0' <= c && c <= '9' {
                let d = (c as u32) - ('0' as u32);
                value = value * 10 + d;
                if value > 0xffff {
                    valid = false;
                }
            } else {
                valid = false;
            }
            count = count + 1;
        }
        i = i + 1;
    }
    assert(text@.take(n as int) =~= text@);
    if valid && count > 0 {
        Some(value as u16)
    } else {
        None
    }
}

/// Cuts a text at every comma. A text without a comma is one piece.
pub fn split_commas(text: &str) -> (pieces: Vec<&str>)
    ensures
        is_split_of(Seq::new(pieces@.len(), |i: int| pieces@[i]@), text@, ','),
{
    let n = text.unicode_len();
    let mut pieces: Vec<&str> = Vec::new();
    let mut start: usize = 0;
    let mut i: usize = 0;
    let ghost mut done: Seq<Seq<char>> = Seq::empty();
    let it = text.chars();
    for c in iter: it
        invariant
            iter.seq() == text@,
            n == text@.len(),
            i == iter.index(),
            start <= i <= n,
            done == Seq::new(pieces@.len(), |k: int| pieces@[k]@),
            joined(done.push(text@.subrange(start as int, i as int)), ',') == text@.take(i as int),
            forall|k: int| 0 <= k < done.len() ==> !(#[trigger] done[k]).contains(','),
            !text@.subrange(start as int, i as int).contains(','),
    {
        let ghost open = text@.subrange(start as int, i as int);
        if c == ',' {
            let piece = text.substring_char(start, i);
            pieces.push(piece);
            proof {
                lemma_joined_open(done, open, ',');
                done = done.push(open);
                assert(text@.subrange(i + 1, i + 1) =~= Seq::<char>::empty());
            }
            start = i + 1;
        } else {
            proof {
                lemma_joined_grow(done, open, c, ',');
                assert(text@.subrange(start as int, i + 1) =~= open.push(c));
            }
        }
        i = i + 1;
    }
    let last = text.substring_char(start, n);
    pieces.push(last);
    proof {
        let all = Seq::new(pieces@.len(), |k: int| pieces@[k]@);
        assert(all =~= done.push(text@.subrange(start as int, n as int)));
        assert(text@.take(n as int) =~= text@);
    }
    pieces
}

/// Reads a list of origins: the entries between commas, each one trimmed.
pub fn parse_origins(text: &str) -> (origins: Vec<String>)
    ensures
        is_origin_list(Seq::new(origins@.len(), |i: int| origins@[i]@), text@),
{
    let pieces = split_commas(text);
    let mut origins: Vec<String> = Vec::new();
    let mut k: usize = 0;
    while k < pieces.len()
        invariant
            k <= pieces.len(),
            origins@.len() == k,
            forall|j: int| 0 <= j < k ==> (#[trigger] origins@[j])@ == trimmed_text(pieces@[j]@),
        decreases pieces.len() - k,
    {
        origins.push(pieces[k].trim().to_owned());
        k = k + 1;
    }
    origins
}

impl Config {
    /// Builds the configuration from the settings as they were found, each one
    /// present or absent. The database address and the signing secret must be
    /// present; host, port and origins have defaults. The first missing or
    /// malformed setting, in that order, is the error.
    pub fn from_vars(
        database_url: Option<String>,
        jwt_secret: Option<String>,
        server_host: Option<String>,
        server_port: Option<String>,
        allowed_origins: Option<String>,
    ) -> (out: Result<Config, ConfigError>)
        ensures
            is_config_of(
                out,
                setting_view(database_url),
                setting_view(jwt_secret),
                setting_view(server_host),
                setting_view(server_port),
                setting_view(allowed_origins),
            ),
    {
        let database_url = match database_url {
            Some(text) => text,
            None => { return Err(ConfigError::MissingDatabaseUrl); },
        };
        let jwt_secret = match jwt_secret {
            Some(text) => text,
            None => { return Err(ConfigError::MissingJwtSecret); },
        };
        let server_host = match server_host {
            Some(text) => text,
            None => String::from_str("127.0.0.1"),
        };
        let port_text = match server_port {
            Some(text) => text,
            None => String::from_str("5000"),
        };
        let server_port = match parse_port(port_text.as_str()) {
            Some(port) => port,
            None => { return Err(ConfigError::InvalidPort(port_text)); },
        };
        let origins_text = match allowed_origins {
            Some(text) => text,
            None => String::from_str("http://localhost:3000,http://127.0.0.1:3000"),
        };
        let allowed_origins = parse_origins(origins_text.as_str());
        Ok(Config { database_url, jwt_secret, server_host, server_port, allowed_origins })
    }
}

} // verus!
