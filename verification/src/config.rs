//! Process configuration: plain settings with their documented defaults.
//! Loading them from files or the environment happens at the process edge;
//! the values and their derived forms are specified here.

use vstd::prelude::*;
use vstd::string::StringExecFns;
use crate::utils::push_char;

verus! {

/// The decimal digit character for a value below ten.
pub open spec fn dec_digit(n: int) -> char {
    ((n + 48) as u8) as char
}

/// The decimal text of a number, most significant digit first.
pub open spec fn dec_text(n: int) -> Seq<char>
    decreases n,
{
    if n < 10 {
        seq![dec_digit(n)]
    } else {
        dec_text(n / 10).push(dec_digit(n % 10))
    }
}

/// Appends the decimal text of `n`.
fn push_decimal(s: &mut String, n: u16)
    ensures
        final(s)@ == old(s)@ + dec_text(n as int),
    decreases n,
{
    if n >= 10 {
        push_decimal(s, n / 10);
    }
    let digit: u8 = (n % 10) as u8 + 48;
    push_char(s, digit as char);
    proof {
        assert(s@ =~= old(s)@ + dec_text(n as int));
    }
}

/// The verbosity levels the process logs at.
#[derive(Clone, Copy, Debug, PartialEq, Eq, Structural)]
pub enum LogLevel {
    Error,
    Warn,
    Info,
    Debug,
}

/// The level a lower-cased name denotes; anything unknown logs at `Info`.
pub open spec fn spec_level_of(s: Seq<char>) -> LogLevel {
    if s == "error"@ {
        LogLevel::Error
    } else if s == "warn"@ {
        LogLevel::Warn
    } else if s == "info"@ {
        LogLevel::Info
    } else if s == "debug"@ {
        LogLevel::Debug
    } else {
        LogLevel::Info
    }
}

/// What `str::to_lowercase` yields: the result depends on the characters
/// alone.
pub uninterp spec fn lower_of(s: Seq<char>) -> Seq<char>;

/// Relies on `str::to_lowercase`, named by `lower_of`.
#[verifier::external_body]
fn lowercase(s: &str) -> (r: String)
    ensures
        r@ == lower_of(s@),
{
    s.to_lowercase()
}

/// The level an already lower-cased name denotes.
pub fn level_of_lower(s: &str) -> (r: LogLevel)
    ensures
        r == spec_level_of(s@),
{
    let owned = s.to_owned();
    if owned == String::from_str("error") {
        LogLevel::Error
    } else if owned == String::from_str("warn") {
        LogLevel::Warn
    } else if owned == String::from_str("info") {
        LogLevel::Info
    } else if owned == String::from_str("debug") {
        LogLevel::Debug
    } else {
        LogLevel::Info
    }
}

/// The level a configured name denotes, case-insensitively.
pub fn str_to_level(s: &str) -> (r: LogLevel)
    ensures
        r == spec_level_of(lower_of(s@)),
{
    let lowered = lowercase(s);
    level_of_lower(lowered.as_str())
}

/// Logging settings.
#[derive(Clone, Debug)]
pub struct LogConf {
    pub level: String,
    pub file: String,
    pub rotate: bool,
}

impl LogConf {
    /// The documented defaults: `info` to the console, no file, no rotation.
    pub open spec fn is_default(&self) -> bool {
        &&& self.level@ == "info"@
        &&& self.file@ == Seq::<char>::empty()
        &&& !self.rotate
    }
}

impl Default for LogConf {
    fn default() -> (r: Self)
        ensures
            r.is_default(),
    {
        let r = LogConf {
            level: String::from_str("info"),
            file: String::new(),
            rotate: false,
        };
        proof {
            assert(r.file@ =~= Seq::<char>::empty());
        }
        r
    }
}

/// Where the server listens and how it reports to the control plane.
#[derive(Clone, Debug)]
pub struct ServerConf {
    pub host: String,
    pub port: u16,
    pub api_addr: String,
    pub api_secret: String,
}

impl ServerConf {
    /// The documented defaults.
    pub open spec fn is_default(&self) -> bool {
        &&& self.host@ == "127.0.0.1"@
        &&& self.port == 8080
        &&& self.api_addr@ == "http://[::1]:9082"@
        &&& self.api_secret@ == "secret"@
    }

    /// The address the server reports for itself: `host:port`.
    pub fn get_self_addr(&self) -> (r: String)
        ensures
            r@ == self.host@ + ":"@ + dec_text(self.port as int),
    {
        let mut out = self.host.clone();
        out.append(":");
        push_decimal(&mut out, self.port);
        proof {
            assert(out@ =~= self.host@ + ":"@ + dec_text(self.port as int));
        }
        out
    }
}

impl Default for ServerConf {
    fn default() -> (r: Self)
        ensures
            r.is_default(),
    {
        ServerConf {
            host: String::from_str("127.0.0.1"),
            port: 8080,
            api_addr: String::from_str("http://[::1]:9082"),
            api_secret: String::from_str("secret"),
        }
    }
}

/// Relies on `dirs::template_dir`: the platform's template directory, which
/// depends on the environment; nothing is promised of the value.
#[verifier::external_body]
fn template_dir_path() -> Option<String> {
    dirs::template_dir().and_then(|p| p.to_str().map(|s| s.to_string()))
}

/// Where streams are served and where HLS fragments are staged.
#[derive(Clone, Debug)]
pub struct StreamConf {
    pub host: String,
    pub port: u16,
    pub temp_hls_path: String,
    pub hls_fragment_seconds: i32,
    pub hls_fragment_max_count: i32,
}

impl StreamConf {
    /// The documented defaults. The staging path hangs off the platform's
    /// template directory (or the working directory), so only its last
    /// segment is pinned.
    pub open spec fn is_default(&self) -> bool {
        &&& self.host@ == "127.0.0.1"@
        &&& self.port == 8081
        &&& self.temp_hls_path@.len() >= 11
        &&& self.temp_hls_path@.subrange(
            self.temp_hls_path@.len() - 11,
            self.temp_hls_path@.len() as int,
        ) == "/stream-hls"@
        &&& self.hls_fragment_seconds == 1
        &&& self.hls_fragment_max_count == 10
    }
}

impl Default for StreamConf {
    fn default() -> (r: Self)
        ensures
            r.is_default(),
    {
        let base = match template_dir_path() {
            Some(dir) => dir,
            None => String::from_str("."),
        };
        let temp_hls_path = base.concat("/stream-hls");
        proof {
            reveal_strlit("/stream-hls");
            assert(temp_hls_path@.subrange(
                temp_hls_path@.len() - 11,
                temp_hls_path@.len() as int,
            ) =~= "/stream-hls"@);
        }
        StreamConf {
            host: String::from_str("127.0.0.1"),
            port: 8081,
            temp_hls_path,
            hls_fragment_seconds: 1,
            hls_fragment_max_count: 10,
        }
    }
}

/// The whole process configuration.
#[derive(Clone, Debug)]
pub struct AppConfig {
    pub debug: bool,
    pub log: LogConf,
    pub server: ServerConf,
    pub stream: StreamConf,
}

impl Default for AppConfig {
    fn default() -> (r: Self)
        ensures
            !r.debug,
            r.log.is_default(),
            r.server.is_default(),
            r.stream.is_default(),
    {
        AppConfig {
            debug: false,
            log: LogConf::default(),
            server: ServerConf::default(),
            stream: StreamConf::default(),
        }
    }
}

} // verus!
