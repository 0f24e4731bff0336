//! The SSH client configuration and what it says about a host.

use ssh2_config::{ParseRule, SshConfig, SshParserError};
use vstd::prelude::*;

verus! {

/// A parsed configuration file: parameters by host.
#[verifier::external_type_specification]
#[verifier::external_body]
pub struct ExSshConfig(SshConfig);

#[verifier::external_type_specification]
#[verifier::external_body]
pub struct ExSshParserError(SshParserError);

/// The configuration file is not valid, with the parser's reason.
#[derive(Debug)]
pub struct BadConfig {
    pub cause: SshParserError,
}

/// A span of time, in seconds and the nanoseconds beyond them.
#[derive(Debug, Clone, Copy, PartialEq, Eq, Structural)]
pub struct Interval {
    pub seconds: u64,
    pub nanos: u32,
}

/// What a configuration sets for one host; `None` where it says nothing.
#[derive(Debug)]
pub struct HostParams {
    /// The real name to connect to.
    pub host_name: Option<String>,
    /// The port to connect to.
    pub port: Option<u16>,
    /// The user to log in as.
    pub user: Option<String>,
    /// Whether to compress the transport.
    pub compression: Option<bool>,
    /// Whether to keep the connection alive.
    pub tcp_keep_alive: Option<bool>,
    /// The silence after which the server is asked for a sign of life.
    pub server_alive_interval: Option<Interval>,
}

/// [`HostParams`] with its texts as character sequences.
pub struct HostParamsView {
    pub host_name: Option<Seq<char>>,
    pub port: Option<u16>,
    pub user: Option<Seq<char>>,
    pub compression: Option<bool>,
    pub tcp_keep_alive: Option<bool>,
    pub server_alive_interval: Option<Interval>,
}

/// The characters of an optional text.
pub open spec fn text_view(text: Option<String>) -> Option<Seq<char>> {
    match text {
        Some(t) => Some(t@),
        None => None,
    }
}

impl View for HostParams {
    type V = HostParamsView;

    open spec fn view(&self) -> HostParamsView {
        HostParamsView {
            host_name: text_view(self.host_name),
            port: self.port,
            user: text_view(self.user),
            compression: self.compression,
            tcp_keep_alive: self.tcp_keep_alive,
            server_alive_interval: self.server_alive_interval,
        }
    }
}

/// Parameters that set nothing.
pub open spec fn no_params() -> HostParamsView {
    HostParamsView {
        host_name: None,
        port: None,
        user: None,
        compression: None,
        tcp_keep_alive: None,
        server_alive_interval: None,
    }
}

/// What a configuration holds: for every host name, the parameters that it
/// sets for that host.
pub uninterp spec fn config_rules(config: SshConfig) -> Map<Seq<char>, HostParamsView>;

/// What the strict parser makes of a configuration text: the rules it holds, or
/// `None` where it is rejected.
///
/// The build target matters in two places: numbers are read as `usize`, which
/// has `bits` bits, and `UseKeychain` is a known field on macOS alone, as
/// `keychain` says.
pub uninterp spec fn rules_of_text(text: Seq<u8>, bits: nat, keychain: bool) -> Option<
    Map<Seq<char>, HostParamsView>,
>;

/// `ssh2_config::SshConfig::parse`, in strict mode, over bytes.
///
/// Claims that the outcome is the one that the parser gives to this text where
/// `usize` is as wide as it is here, with or without `UseKeychain` as a known
/// field, and that an empty text is accepted and sets nothing for any host. The
/// grammar itself is not stated.
#[verifier::external_body]
fn parse_config(text: &[u8]) -> (parsed: Result<SshConfig, SshParserError>)
    ensures
        exists|keychain: bool|
            match parsed {
                Ok(config) => #[trigger] rules_of_text(text@, usize::BITS as nat, keychain) == Some(config_rules(config)),
                Err(_) => rules_of_text(text@, usize::BITS as nat, keychain) is None,
            },
        text@.len() == 0 ==> match parsed {
            Ok(config) => forall|host: Seq<char>| #[trigger]
                config_rules(config)[host] == no_params(),
            Err(_) => false,
        },
{
    let mut reader = text;
    SshConfig::default().parse(&mut reader, ParseRule::STRICT)
}

/// `ssh2_config::SshConfig::query`, keeping the parameters that a session
/// reads.
///
/// Claims that the answer is what the configuration holds for `host`.
#[verifier::external_body]
pub(crate) fn query_config(config: &SshConfig, host: &str) -> (params: HostParams)
    ensures
        params@ == config_rules(*config)[host@],
{
    let found = config.query(host);
    HostParams {
        host_name: found.host_name,
        port: found.port,
        user: found.user,
        compression: found.compression,
        tcp_keep_alive: found.tcp_keep_alive,
        server_alive_interval: found.server_alive_interval.map(
            |time| Interval { seconds: time.as_secs(), nanos: time.subsec_nanos() },
        ),
    }
}

/// `config` is what came of parsing `text` once.
pub closed spec fn comes_of_parsing(text: &[u8], config: Result<SshConfig, BadConfig>) -> bool {
    exists|parsed: Result<SshConfig, SshParserError>|
        {
            &&& #[trigger] call_ensures(parse_config, (text,), parsed)
            &&& config == (match parsed {
                Ok(c) => Ok::<SshConfig, BadConfig>(c),
                Err(cause) => Err::<SshConfig, BadConfig>(BadConfig { cause }),
            })
        }
}

/// What comes of an attempt to parse a configuration: the configuration itself,
/// or why there is none.
pub fn parsed_config(parsed: Result<SshConfig, SshParserError>) -> (config: Result<
    SshConfig,
    BadConfig,
>)
    ensures
        config == (match parsed {
            Ok(c) => Ok::<SshConfig, BadConfig>(c),
            Err(cause) => Err::<SshConfig, BadConfig>(BadConfig { cause }),
        }),
{
    match parsed {
        Ok(config) => Ok(config),
        Err(cause) => Err(BadConfig { cause }),
    }
}

/// Parses the text of a configuration file, accepting no unknown field.
pub fn read_config(text: &[u8]) -> (config: Result<SshConfig, BadConfig>)
    ensures
        comes_of_parsing(text, config),
        exists|keychain: bool|
            match config {
                Ok(c) => #[trigger] rules_of_text(text@, usize::BITS as nat, keychain) == Some(config_rules(c)),
                Err(_) => rules_of_text(text@, usize::BITS as nat, keychain) is None,
            },
        text@.len() == 0 ==> match config {
            Ok(c) => forall|host: Seq<char>| #[trigger] config_rules(c)[host] == no_params(),
            Err(_) => false,
        },
{
    let parsed = parse_config(text);
    assert(call_ensures(parse_config, (text,), parsed));
    parsed_config(parsed)
}

/// Of an attempt to parse a configuration nothing is lost: a configuration is
/// handed on as it is, and so is the parser's reason.
pub proof fn outcome_of_parsing_is_handed_on(
    parsed: Result<SshConfig, SshParserError>,
    config: Result<SshConfig, BadConfig>,
)
    requires
        call_ensures(parsed_config, (parsed,), config),
    ensures
        parsed matches Ok(p) ==> (config matches Ok(c) && c == p),
        parsed matches Err(e) ==> (config matches Err(bad) && bad.cause == e),
{
}

/// An empty text is a configuration that sets nothing for any host.
pub proof fn empty_text_sets_nothing(
    text: &[u8],
    config: Result<SshConfig, BadConfig>,
    host: Seq<char>,
)
    requires
        text@.len() == 0,
        call_ensures(read_config, (text,), config),
    ensures
        config is Ok,
        config_rules(config->Ok_0)[host].host_name is None,
        config_rules(config->Ok_0)[host].port is None,
        config_rules(config->Ok_0)[host].user is None,
        config_rules(config->Ok_0)[host].compression is None,
        config_rules(config->Ok_0)[host].tcp_keep_alive is None,
        config_rules(config->Ok_0)[host].server_alive_interval is None,
{
}

} // verus!
