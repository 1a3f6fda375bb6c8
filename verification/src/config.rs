//! Configuration: what the service is configured with, and how a line of an
//! environment file reads.

use crate::text::chars_of;
use vstd::prelude::*;
use vstd::string::{StrSliceExecFns, StringExecFns};

verus! {

/// What the service is configured with.
#[derive(Debug, Clone)]
pub struct Config {
    /// The address that the server listens on.
    pub server_addr: String,
    /// Where the datastore is.
    pub database_url: String,
    /// The secret that signs every token.
    pub secret: String,
}

/// Why an environment file could not be loaded.
#[derive(Debug, Clone)]
pub enum ConfigError {
    /// The line is neither blank, nor a comment, nor a `KEY=value` pair.
    InvalidLine(String),
    /// The file was not found.
    FileNotFound,
    /// The file could not be read.
    ErrorReadingFile,
    /// The file could not be opened.
    ErrorOpeningFile,
}

/// What `str::trim` leaves of a text: the text without its leading and
/// trailing Unicode whitespace.
pub uninterp spec fn trimmed(s: Seq<char>) -> Seq<char>;

/// `str::trim`: a function of the text alone, named by [`trimmed`].
pub assume_specification[ str::trim ](s: &str) -> (r: &str)
    ensures
        r@ == trimmed(s@),
;

/// The text that describes an error.
pub open spec fn config_error_text(err: ConfigError) -> Seq<char> {
    match err {
        ConfigError::InvalidLine(line) => "Invalid line: "@ + line@,
        ConfigError::FileNotFound => "File not found"@,
        ConfigError::ErrorReadingFile => "Error reading file"@,
        ConfigError::ErrorOpeningFile => "Error opening file"@,
    }
}

/// The place of the first `=` in `s`, or the length of `s` where it holds
/// none.
pub open spec fn assignment_at(s: Seq<char>, i: int) -> bool {
    &&& 0 <= i <= s.len()
    &&& i < s.len() ==> s[i] == '='
    &&& forall|j: int| 0 <= j < i ==> s[j] != '='
}

/// How a trimmed line reads: nothing for a blank line or a comment, the
/// key before the first `=` and the value after it for a pair, and no
/// reading for any other line.
pub open spec fn line_reading(t: Seq<char>) -> Result<Option<(Seq<char>, Seq<char>)>, ()> {
    if t.len() == 0 || t[0] == '#' {
        Ok(None)
    } else if exists|i: int| 0 <= i < t.len() && t[i] == '=' {
        let i = choose|i: int| assignment_at(t, i);
        Ok(Some((t.take(i), t.skip(i + 1))))
    } else {
        Err(())
    }
}

impl ConfigError {
    /// The text that describes the error.
    pub fn message(&self) -> (r: String)
        ensures
            r@ == config_error_text(*self),
    {
        match self {
            ConfigError::InvalidLine(line) => "Invalid line: ".to_owned().concat(line.as_str()),
            ConfigError::FileNotFound => "File not found".to_owned(),
            ConfigError::ErrorReadingFile => "Error reading file".to_owned(),
            ConfigError::ErrorOpeningFile => "Error opening file".to_owned(),
        }
    }
}

impl Config {
    /// A configuration of the given values.
    pub fn new(server_addr: String, database_url: String, secret: String) -> (r: Self)
        ensures
            r.server_addr == server_addr,
            r.database_url == database_url,
            r.secret == secret,
    {
        Self { server_addr, database_url, secret }
    }
}

/// Reads a line of an environment file that has been trimmed: `None` for
/// a blank line or a comment, the key and the value of a `KEY=value` pair,
/// split at the first `=`, and `InvalidLine` with `line`, the line as it
/// came, for anything else.
pub fn parse_trimmed_line(text: &str, line: &str) -> (r: Result<
    Option<(String, String)>,
    ConfigError,
>)
    ensures
        match r {
            Ok(None) => line_reading(text@) == Ok::<Option<(Seq<char>, Seq<char>)>, ()>(None),
            Ok(Some((key, value))) => line_reading(text@) == Ok::<
                Option<(Seq<char>, Seq<char>)>,
                (),
            >(Some((key@, value@))),
            Err(ConfigError::InvalidLine(came)) => line_reading(text@) is Err && came@ == line@,
            Err(_) => false,
        },
{
    let chars = chars_of(text);
    let n = chars.len();
    if n == 0 || chars[0] == '#' {
        return Ok(None);
    }
    let mut i: usize = 0;
    while i < n && chars[i] != '='
        invariant
            n == chars@.len(),
            i <= n,
            forall|j: int| 0 <= j < i ==> chars@[j] != '=',
        decreases n - i,
    {
        i += 1;
    }
    if i == n {
        return Err(ConfigError::InvalidLine(line.to_owned()));
    }
    proof {
        assert(assignment_at(chars@, i as int));
        let k = choose|k: int| assignment_at(chars@, k);
        assert(assignment_at(chars@, k));
        assert(k == i);
    }
    let key = text.substring_char(0, i);
    let value = text.substring_char(i + 1, n);
    assert(key@ =~= chars@.take(i as int));
    assert(value@ =~= chars@.skip(i + 1));
    Ok(Some((key.to_owned(), value.to_owned())))
}

/// Reads one line of an environment file: trims it and reads what is left
/// as [`parse_trimmed_line`] does.
pub fn parse_env_line(line: &str) -> (r: Result<Option<(String, String)>, ConfigError>)
    ensures
        match r {
            Ok(None) => line_reading(trimmed(line@)) == Ok::<Option<(Seq<char>, Seq<char>)>, ()>(
                None,
            ),
            Ok(Some((key, value))) => line_reading(trimmed(line@)) == Ok::<
                Option<(Seq<char>, Seq<char>)>,
                (),
            >(Some((key@, value@))),
            Err(ConfigError::InvalidLine(text)) => line_reading(trimmed(line@)) is Err && text@
                == line@,
            Err(_) => false,
        },
{
    parse_trimmed_line(line.trim(), line)
}

} // verus!
