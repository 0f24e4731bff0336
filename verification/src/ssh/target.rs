//! Whom to log in as, where, and with which session options.

use super::config::{HostParams, HostParamsView};
use super::text::{decimal_text, find_char};
use vstd::prelude::*;
use vstd::string::*;

verus! {

/// The port used where neither the caller nor the configuration names one.
pub const DEFAULT_PORT: u16 = 22;

/// Why a host as typed cannot be logged in to.
#[derive(Debug, Clone, Copy, PartialEq, Eq, Structural)]
pub enum TargetError {
    /// There is more than one `@`.
    BadHost,
    /// Neither the host as typed nor the configuration names a user.
    NoUsername,
}

/// A login: who, and where as `host:port`.
#[derive(Debug)]
pub struct Target {
    pub username: String,
    pub address: String,
}

/// [`Target`] with its texts as character sequences.
pub struct TargetView {
    pub username: Seq<char>,
    pub address: Seq<char>,
}

impl View for Target {
    type V = TargetView;

    open spec fn view(&self) -> TargetView {
        TargetView { username: self.username@, address: self.address@ }
    }
}

/// How a host as typed reads: an optional user and a host, parted by the only
/// `@`; `None` where there is a second `@`.
pub open spec fn typed_host(host: Seq<char>) -> Option<(Option<Seq<char>>, Seq<char>)> {
    match host.index_of_first('@') {
        None => Some((None, host)),
        Some(i) => {
            let rest = host.skip(i + 1);
            if rest.contains('@') {
                None
            } else {
                Some((Some(host.take(i)), rest))
            }
        },
    }
}

/// `host` with `port` behind it, unless it has a colon already.
pub open spec fn address_of(host: Seq<char>, port: nat) -> Seq<char> {
    if host.contains(':') {
        host
    } else {
        host + seq![':'] + super::text::decimal(port)
    }
}

/// The login for a host as typed: the configuration goes before what was typed.
pub open spec fn target_of(
    host: Seq<char>,
    params: HostParamsView,
) -> Result<TargetView, TargetError> {
    match typed_host(host) {
        None => Err(TargetError::BadHost),
        Some((typed_user, typed_name)) => {
            let name = match params.host_name {
                Some(n) => n,
                None => typed_name,
            };
            let port = match params.port {
                Some(p) => p,
                None => DEFAULT_PORT,
            };
            match (params.user, typed_user) {
                (Some(user), _) => Ok(
                    TargetView { username: user, address: address_of(name, port as nat) },
                ),
                (None, Some(user)) => Ok(
                    TargetView { username: user, address: address_of(name, port as nat) },
                ),
                (None, None) => Err(TargetError::NoUsername),
            }
        },
    }
}

/// Splits `user@host`; the user is `None` where there is no `@`.
pub fn split_host(host: &str) -> (parts: Result<(Option<String>, String), TargetError>)
    ensures
        match parts {
            Ok((user, name)) => typed_host(host@) == Some(
                (super::config::text_view(user), name@),
            ),
            Err(e) => typed_host(host@) is None && e == TargetError::BadHost,
        },
        match parts {
            Ok((Some(user), name)) => host@ == user@ + seq!['@'] + name@ && !user@.contains('@')
                && !name@.contains('@'),
            Ok((None, name)) => name@ == host@ && !host@.contains('@'),
            Err(_) => exists|i: int, j: int|
                0 <= i < j < host@.len() && host@[i] == '@' && host@[j] == '@',
        },
{
    proof {
        host@.index_of_first_ensures('@');
    }
    let len: usize = host.unicode_len();
    match find_char(host, '@') {
        None => Ok((None, host.to_owned())),
        Some(at) => {
            let name = host.substring_char(at + 1, len);
            proof {
                name@.index_of_first_ensures('@');
                assert(name@ == host@.skip(at + 1));
            }
            match find_char(name, '@') {
                Some(second) => {
                    assert(host@[at as int] == '@' && host@[at + 1 + second] == '@');
                    Err(TargetError::BadHost)
                },
                None => {
                    let user = host.substring_char(0, at);
                    assert(user@ == host@.take(at as int));
                    assert(host@ == user@ + seq!['@'] + name@);
                    Ok((Some(user.to_owned()), name.to_owned()))
                },
            }
        },
    }
}

/// Puts `port` behind `host`, unless it has a colon already.
pub fn host_address(host: &str, port: u16) -> (address: String)
    ensures
        address@ == address_of(host@, port as nat),
{
    proof {
        host@.index_of_first_ensures(':');
        reveal_strlit(":");
        assert(":"@ == seq![':']);
    }
    match find_char(host, ':') {
        Some(_) => host.to_owned(),
        None => host.to_owned().concat(":").concat(decimal_text(port).as_str()),
    }
}

/// The login for `host` as typed, given what the configuration sets for it.
pub fn resolve_target(host: &str, params: &HostParams) -> (target: Result<Target, TargetError>)
    ensures
        match target {
            Ok(t) => target_of(host@, params@) == Ok::<TargetView, TargetError>(t@),
            Err(e) => target_of(host@, params@) == Err::<TargetView, TargetError>(e),
        },
{
    let (typed_user, typed_name) = match split_host(host) {
        Ok(parts) => parts,
        Err(e) => return Err(e),
    };
    let port: u16 = match params.port {
        Some(p) => p,
        None => DEFAULT_PORT,
    };
    let address = match &params.host_name {
        Some(name) => host_address(name.as_str(), port),
        None => host_address(typed_name.as_str(), port),
    };
    match (&params.user, typed_user) {
        (Some(user), _) => Ok(Target { username: user.clone(), address }),
        (None, Some(user)) => Ok(Target { username: user, address }),
        (None, None) => Err(TargetError::NoUsername),
    }
}

/// How often the server is asked for a sign of life.
#[derive(Debug, Clone, Copy, PartialEq, Eq, Structural)]
pub struct KeepAlive {
    pub want_reply: bool,
    pub interval: u32,
}

/// What is set on a session before the handshake. Key exchange, cipher and
/// MAC preferences are left alone.
#[derive(Debug, Clone, Copy, PartialEq, Eq, Structural)]
pub struct SessionOptions {
    pub compress: Option<bool>,
    pub keep_alive: Option<KeepAlive>,
}

/// The options that the configuration asks for. The interval is rounded down to
/// whole seconds, of which the low 32 bits are kept.
pub open spec fn options_of(params: HostParamsView) -> SessionOptions {
    SessionOptions {
        compress: params.compression,
        keep_alive: match (params.tcp_keep_alive, params.server_alive_interval) {
            (Some(true), Some(silence)) => Some(
                KeepAlive {
                    want_reply: true,
                    interval: (silence.seconds % 0x1_0000_0000) as u32,
                },
            ),
            _ => None,
        },
    }
}

/// Chooses the session options for a host.
pub fn configure_session(params: &HostParams) -> (options: SessionOptions)
    ensures
        options == options_of(params@),
{
    let keep_alive = match (params.tcp_keep_alive, params.server_alive_interval) {
        (Some(true), Some(silence)) => {
            let seconds: u64 = silence.seconds;
            assert(#[verifier::truncate] (seconds as u32) == (seconds % 0x1_0000_0000) as u32)
                by (bit_vector);
            Some(KeepAlive { want_reply: true, interval: #[verifier::truncate] (seconds as u32) })
        },
        _ => None,
    };
    SessionOptions { compress: params.compression, keep_alive }
}

/// `user@host` reads back as its two parts, whatever they are, as long as
/// neither holds an `@`.
pub proof fn typed_host_reads_back(user: Seq<char>, name: Seq<char>)
    requires
        !user.contains('@'),
        !name.contains('@'),
    ensures
        typed_host(user + seq!['@'] + name) == Some((Some(user), name)),
{
    let host = user + seq!['@'] + name;
    host.index_of_first_ensures('@');
    assert(host[user.len() as int] == '@');
    let i = host.index_of_first('@').unwrap();
    if i < user.len() {
        assert(user[i] == '@');
    }
    assert(host.take(i) == user);
    assert(host.skip(i + 1) == name);
}

/// An address always names a port or was typed with a colon; without a colon
/// in the host, host and port can be read back from it.
pub proof fn address_reads_back(host: Seq<char>, port: nat)
    ensures
        address_of(host, port).contains(':'),
        !host.contains(':') ==> {
            let address = address_of(host, port);
            &&& address.index_of_first(':') == Some(host.len() as int)
            &&& address.take(host.len() as int) == host
            &&& address.skip(host.len() as int + 1) == super::text::decimal(port)
        },
{
    if !host.contains(':') {
        let address = address_of(host, port);
        address.index_of_first_ensures(':');
        assert(address[host.len() as int] == ':');
        let i = address.index_of_first(':').unwrap();
        if i < host.len() {
            assert(host[i] == ':');
        }
        assert(address.take(host.len() as int) == host);
        assert(address.skip(host.len() as int + 1) == super::text::decimal(port));
    }
}

/// Different ports of a host without a colon have different addresses.
pub proof fn address_tells_the_port(host: Seq<char>, port: nat, other: nat)
    requires
        !host.contains(':'),
        address_of(host, port) == address_of(host, other),
    ensures
        port == other,
{
    address_reads_back(host, port);
    address_reads_back(host, other);
    super::text::decimal_is_injective(port, other);
}

/// Where the configuration says nothing, `user@host` is logged in to as typed,
/// at the default port, with a session left at its defaults.
pub proof fn unconfigured_host_is_taken_as_typed(user: Seq<char>, name: Seq<char>)
    requires
        !user.contains('@'),
        !name.contains('@'),
    ensures
        target_of(user + seq!['@'] + name, super::config::no_params()) == Ok::<
            TargetView,
            TargetError,
        >(TargetView { username: user, address: address_of(name, DEFAULT_PORT as nat) }),
        options_of(super::config::no_params()) == (SessionOptions {
            compress: None,
            keep_alive: None,
        }),
{
    typed_host_reads_back(user, name);
}

/// A configured user and host name replace the typed ones: every host as typed
/// with at most one `@` then leads to the same login.
pub proof fn configuration_goes_first(
    host: Seq<char>,
    other: Seq<char>,
    params: HostParamsView,
)
    requires
        typed_host(host) is Some,
        typed_host(other) is Some,
        params.user is Some,
        params.host_name is Some,
    ensures
        target_of(host, params) == target_of(other, params),
        target_of(host, params) matches Ok(target) && target.username == params.user.unwrap(),
{
}

/// `host` is typed as a user and a name with an `@` between them, or as a name
/// alone.
pub open spec fn typed_as(host: Seq<char>, user: Option<Seq<char>>, name: Seq<char>) -> bool {
    &&& !name.contains('@')
    &&& match user {
        Some(u) => !u.contains('@') && host == u + seq!['@'] + name,
        None => host == name,
    }
}

proof fn typed_host_reads_its_parts(host: Seq<char>, user: Option<Seq<char>>, name: Seq<char>)
    requires
        typed_as(host, user, name),
    ensures
        typed_host(host) == Some((user, name)),
{
    match user {
        Some(u) => typed_host_reads_back(u, name),
        None => host.index_of_first_ensures('@'),
    }
}

/// Splitting loses nothing: the parts are those that the host was typed as, and
/// it fails exactly where there are two `@`.
pub proof fn split_parts_make_up_the_host(
    host: &str,
    parts: Result<(Option<String>, String), TargetError>,
)
    requires
        call_ensures(split_host, (host,), parts),
    ensures
        parts matches Ok((Some(user), name)) ==> typed_as(host@, Some(user@), name@),
        parts matches Ok((None, name)) ==> typed_as(host@, None, name@),
        parts is Err <==> exists|i: int, j: int|
            0 <= i < j < host@.len() && host@[i] == '@' && host@[j] == '@',
        parts matches Err(e) ==> e == TargetError::BadHost,
{
    if parts is Ok && exists|i: int, j: int|
        0 <= i < j < host@.len() && host@[i] == '@' && host@[j] == '@' {
        let (i, j) = choose|i: int, j: int|
            0 <= i < j < host@.len() && host@[i] == '@' && host@[j] == '@';
        match parts->Ok_0 {
            (Some(user), name) => {
                let at = user@.len() as int;
                if i < at {
                    assert(user@[i] == '@');
                } else {
                    assert(name@[j - at - 1] == '@');
                }
            },
            (None, _) => {},
        }
    }
}

/// The address for a host that has a colon is the host itself. For any other it
/// is the host, a colon, and the port in decimal.
pub proof fn address_names_host_and_port(host: &str, port: u16, address: String)
    requires
        call_ensures(host_address, (host, port), address),
    ensures
        host@.contains(':') ==> address@ == host@,
        !host@.contains(':') ==> {
            let len = host@.len() as int;
            &&& address@.len() > len + 1
            &&& address@.take(len) == host@
            &&& address@[len] == ':'
            &&& address@.skip(len + 1) == super::text::decimal(port as nat)
            &&& super::text::number_read(address@.skip(len + 1)) == port
        },
{
    if !host@.contains(':') {
        address_reads_back(host@, port as nat);
        super::text::decimal_holds_digits(port as nat);
        super::text::decimal_reads_back(port as nat);
    }
}

/// There are two reasons for no login: a second `@`, and no user, neither typed
/// nor configured. Every other host leads to a login.
pub proof fn login_fails_for_two_reasons(
    host: &str,
    params: &HostParams,
    target: Result<Target, TargetError>,
)
    requires
        call_ensures(resolve_target, (host, params), target),
    ensures
        (target matches Err(e) && e == TargetError::BadHost) <==> exists|i: int, j: int|
            0 <= i < j < host@.len() && host@[i] == '@' && host@[j] == '@',
        (target matches Err(e) && e == TargetError::NoUsername) <==> !host@.contains('@')
            && params.user is None,
{
    host@.index_of_first_ensures('@');
    if host@.contains('@') {
        let at = host@.index_of_first('@').unwrap();
        let rest = host@.skip(at + 1);
        if rest.contains('@') {
            let second = choose|k: int| 0 <= k < rest.len() && rest[k] == '@';
            assert(host@[at] == '@' && host@[at + 1 + second] == '@');
        } else if exists|i: int, j: int|
            0 <= i < j < host@.len() && host@[i] == '@' && host@[j] == '@' {
            let (i, j) = choose|i: int, j: int|
                0 <= i < j < host@.len() && host@[i] == '@' && host@[j] == '@';
            assert(rest[j - at - 1] == '@');
        }
    }
}

/// The user who logs in is the configured one, and the typed one only where
/// none is configured.
pub proof fn configured_user_goes_before_the_typed_one(
    host: &str,
    params: &HostParams,
    user: Option<Seq<char>>,
    name: Seq<char>,
    target: Target,
)
    requires
        call_ensures(resolve_target, (host, params), Ok::<Target, TargetError>(target)),
        typed_as(host@, user, name),
    ensures
        params.user matches Some(configured) ==> target.username@ == configured@,
        params.user is None ==> user == Some(target.username@),
{
    typed_host_reads_its_parts(host@, user, name);
}

/// The login goes to the configured host name, and to the typed one only where
/// none is configured. Unless that name has a colon, the configured port stands
/// behind it, whatever else is configured, and port 22 only where none is.
pub proof fn login_goes_to_the_named_host_and_port(
    host: &str,
    params: &HostParams,
    user: Option<Seq<char>>,
    typed: Seq<char>,
    name: Seq<char>,
    target: Target,
)
    requires
        call_ensures(resolve_target, (host, params), Ok::<Target, TargetError>(target)),
        typed_as(host@, user, typed),
        params.host_name matches Some(configured) ==> name == configured@,
        params.host_name is None ==> name == typed,
    ensures
        name.contains(':') ==> target.address@ == name,
        !name.contains(':') ==> {
            &&& forall|port: u16| #[trigger]
                params.port == Some(port) ==> target.address@ == name + seq![':']
                    + super::text::decimal(port as nat)
            &&& params.port is None ==> target.address@ == name + seq![':']
                + super::text::decimal(22)
        },
{
    typed_host_reads_its_parts(host@, user, typed);
}

/// Who logs in and where are settled apart: of two configurations for a host,
/// those with the same user lead to the same user, and those with the same host
/// name and port to the same address.
pub proof fn user_and_address_are_settled_apart(
    host: &str,
    params: &HostParams,
    other: &HostParams,
    target: Target,
    other_target: Target,
)
    requires
        call_ensures(resolve_target, (host, params), Ok::<Target, TargetError>(target)),
        call_ensures(resolve_target, (host, other), Ok::<Target, TargetError>(other_target)),
    ensures
        params.user == other.user ==> target.username@ == other_target.username@,
        params.host_name == other.host_name && params.port == other.port ==> target.address@
            == other_target.address@,
{
}

/// Whether to compress is taken from the configuration as it stands. Signs of
/// life are asked for exactly where the connection is to be kept alive and a
/// silence is configured, always with a reply, and after that silence in whole
/// seconds, up to multiples of 2^32.
pub proof fn session_is_set_up_as_configured(params: &HostParams, options: SessionOptions)
    requires
        call_ensures(configure_session, (params,), options),
    ensures
        options.compress == params.compression,
        options.keep_alive is Some <==> params.tcp_keep_alive == Some(true)
            && params.server_alive_interval is Some,
        options.keep_alive matches Some(keep_alive) ==> {
            let seconds = params.server_alive_interval.unwrap().seconds;
            &&& keep_alive.want_reply
            &&& seconds < 0x1_0000_0000 ==> keep_alive.interval == seconds
            &&& (seconds - keep_alive.interval) % 0x1_0000_0000 == 0
        },
{
}

} // verus!
