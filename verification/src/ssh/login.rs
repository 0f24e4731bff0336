//! Logging in to a host.
//!
//! With the system's `ssh` program there is nothing to do but to remember the
//! host. Otherwise the configuration is read, the host is connected to, and
//! the user is authenticated: by the SSH agent, or by password where the agent
//! is refused.

use super::config::{query_config, HostParamsView};
use super::target::{
    configure_session, resolve_target, SessionOptions, Target, TargetError, TargetView,
};
use mio::{Events, Poll};
use ssh2::Session;
use ssh2_config::SshConfig;
use vstd::prelude::*;
use vstd::string::*;

verus! {

#[verifier::external_type_specification]
#[verifier::external_body]
pub struct ExSession(Session);

#[verifier::external_type_specification]
#[verifier::external_body]
pub struct ExPoll(Poll);

#[verifier::external_type_specification]
#[verifier::external_body]
pub struct ExEvents(Events);

/// A way to run commands on a host.
pub enum SSHData {
    /// A session of our own, under the host's name, with the poll that watches
    /// its socket.
    Native(String, Session, Poll, Events),
    /// The system's `ssh` program, with the host to hand to it.
    Binary(String),
}

/// The agent's error for a key that the server does not accept.
pub const AUTHENTICATION_FAILED: i32 = -18;

/// Where an error of the SSH library comes from, with its code.
#[derive(Debug, Clone, Copy, PartialEq, Eq, Structural)]
pub enum ErrorCode {
    Session(i32),
    SFTP(i32),
}

/// Why a session is closed.
#[derive(Debug, Clone, Copy, PartialEq, Eq, Structural)]
pub enum DisconnectCode {
    ByApplication,
    AuthCancelledByUser,
}

/// Why there is no session.
#[derive(Debug, Clone, Copy, PartialEq, Eq, Structural)]
pub enum LoginError {
    /// The host as typed leads to no login.
    Target(TargetError),
    /// No address of the host could be connected to.
    Unreachable,
    /// The agent failed for another reason than a refused key.
    Agent,
    /// Both the agent and the password were refused.
    Password,
    /// The password was taken, and the session is not authenticated.
    NotAuthenticated,
}

/// What a login waits for, or how it ended.
#[derive(Debug)]
pub enum Stage {
    /// The client configuration.
    Config,
    /// A connection to the target's address.
    Connect(Target, SessionOptions),
    /// A session with these options, and its handshake.
    Handshake(Target, SessionOptions),
    /// Authentication by the agent.
    Agent(Target),
    /// Authentication by password.
    Password(Target),
    /// Whether the session is authenticated.
    Confirm(Target),
    /// The session can be used.
    Established,
    /// There is no session. Where a code is given, the session is to be
    /// disconnected with it.
    Refused(LoginError, Option<DisconnectCode>),
}

/// [`Stage`] with its texts as character sequences.
pub enum StageView {
    Config,
    Connect(TargetView, SessionOptions),
    Handshake(TargetView, SessionOptions),
    Agent(TargetView),
    Password(TargetView),
    Confirm(TargetView),
    Established,
    Refused(LoginError, Option<DisconnectCode>),
}

impl View for Stage {
    type V = StageView;

    open spec fn view(&self) -> StageView {
        match *self {
            Stage::Config => StageView::Config,
            Stage::Connect(target, options) => StageView::Connect(target@, options),
            Stage::Handshake(target, options) => StageView::Handshake(target@, options),
            Stage::Agent(target) => StageView::Agent(target@),
            Stage::Password(target) => StageView::Password(target@),
            Stage::Confirm(target) => StageView::Confirm(target@),
            Stage::Established => StageView::Established,
            Stage::Refused(error, code) => StageView::Refused(error, code),
        }
    }
}

/// What came of the step that a [`Stage`] waited for.
pub enum LoginEvent {
    /// The configuration was read.
    Config(SshConfig),
    /// Whether the host was connected to.
    Connected(bool),
    /// The handshake is done.
    Handshake,
    /// How the agent fared.
    Agent(Result<(), ErrorCode>),
    /// Whether the password was taken.
    Password(bool),
    /// Whether the session is authenticated.
    Authenticated(bool),
}

/// [`LoginEvent`] with the rules that the configuration holds.
pub enum LoginEventView {
    Config(Map<Seq<char>, HostParamsView>),
    Connected(bool),
    Handshake,
    Agent(Result<(), ErrorCode>),
    Password(bool),
    Authenticated(bool),
}

impl View for LoginEvent {
    type V = LoginEventView;

    open spec fn view(&self) -> LoginEventView {
        match *self {
            LoginEvent::Config(config) => LoginEventView::Config(
                super::config::config_rules(config),
            ),
            LoginEvent::Connected(connected) => LoginEventView::Connected(connected),
            LoginEvent::Handshake => LoginEventView::Handshake,
            LoginEvent::Agent(outcome) => LoginEventView::Agent(outcome),
            LoginEvent::Password(taken) => LoginEventView::Password(taken),
            LoginEvent::Authenticated(authenticated) => LoginEventView::Authenticated(
                authenticated,
            ),
        }
    }
}

/// A login under way.
pub struct Login {
    /// The host as typed.
    pub host: String,
    /// The password to fall back to.
    pub password: String,
    /// What is waited for.
    pub stage: Stage,
}

/// [`Login`] with its texts as character sequences.
pub struct LoginView {
    pub host: Seq<char>,
    pub password: Seq<char>,
    pub stage: StageView,
}

impl View for Login {
    type V = LoginView;

    open spec fn view(&self) -> LoginView {
        LoginView { host: self.host@, password: self.password@, stage: self.stage@ }
    }
}

/// What [`new_session`] comes to.
pub enum NewSession {
    /// Nothing is left to do.
    Ready(SSHData),
    /// A login has to be gone through.
    Login(Login),
}

impl LoginView {
    /// A login at its start.
    pub open spec fn start(host: Seq<char>, password: Seq<char>) -> LoginView {
        LoginView { host, password, stage: StageView::Config }
    }

    /// `event` is a reply to what this stage waits for.
    pub open spec fn awaits(self, event: LoginEventView) -> bool {
        match event {
            LoginEventView::Config(_) => self.stage is Config,
            LoginEventView::Connected(_) => self.stage is Connect,
            LoginEventView::Handshake => self.stage is Handshake,
            LoginEventView::Agent(_) => self.stage is Agent,
            LoginEventView::Password(_) => self.stage is Password,
            LoginEventView::Authenticated(_) => self.stage is Confirm,
        }
    }

    /// What a login waits for after `event`.
    pub open spec fn stage_after(self, event: LoginEventView) -> StageView {
        let cancelled = Some(DisconnectCode::AuthCancelledByUser);
        match (self.stage, event) {
            (_, LoginEventView::Config(rules)) => {
                let params = rules[self.host];
                match super::target::target_of(self.host, params) {
                    Ok(target) => StageView::Connect(target, super::target::options_of(params)),
                    Err(e) => StageView::Refused(LoginError::Target(e), None),
                }
            },
            (StageView::Connect(target, options), LoginEventView::Connected(true)) => {
                StageView::Handshake(target, options)
            },
            (StageView::Handshake(target, _), LoginEventView::Handshake) => {
                StageView::Agent(target)
            },
            (StageView::Agent(_), LoginEventView::Agent(Ok(_))) => StageView::Established,
            (StageView::Agent(target), LoginEventView::Agent(Err(code))) => {
                if code == ErrorCode::Session(AUTHENTICATION_FAILED) {
                    StageView::Password(target)
                } else {
                    StageView::Refused(LoginError::Agent, cancelled)
                }
            },
            (StageView::Password(target), LoginEventView::Password(taken)) => {
                if taken {
                    StageView::Confirm(target)
                } else {
                    StageView::Refused(LoginError::Password, cancelled)
                }
            },
            (StageView::Confirm(_), LoginEventView::Authenticated(authenticated)) => {
                if authenticated {
                    StageView::Established
                } else {
                    StageView::Refused(LoginError::NotAuthenticated, cancelled)
                }
            },
            _ => StageView::Refused(LoginError::Unreachable, None),
        }
    }

    /// The login after `event`.
    pub open spec fn after(self, event: LoginEventView) -> LoginView {
        LoginView { stage: self.stage_after(event), ..self }
    }
}

/// Opens a session with `host`, given as `host` or `user@host`.
///
/// Where the system's `ssh` program is to be used, nothing is resolved,
/// connected to or authenticated here.
pub fn new_session(host: &str, password: &str, use_binary: bool) -> (session: NewSession)
    ensures
        match session {
            NewSession::Ready(data) => use_binary && (data matches SSHData::Binary(name) && name@
                == host@),
            NewSession::Login(login) => !use_binary && login@ == LoginView::start(
                host@,
                password@,
            ),
        },
{
    if use_binary {
        NewSession::Ready(SSHData::Binary(host.to_owned()))
    } else {
        NewSession::Login(
            Login { host: host.to_owned(), password: password.to_owned(), stage: Stage::Config },
        )
    }
}

impl Login {
    /// Takes in the reply to what the current stage waits for.
    pub fn advance(self, event: LoginEvent) -> (login: Login)
        requires
            self@.awaits(event@),
        ensures
            login@ == self@.after(event@),
    {
        let cancelled = Some(DisconnectCode::AuthCancelledByUser);
        let stage = match (self.stage, event) {
            (_, LoginEvent::Config(config)) => {
                let params = query_config(&config, self.host.as_str());
                match resolve_target(self.host.as_str(), &params) {
                    Ok(target) => Stage::Connect(target, configure_session(&params)),
                    Err(e) => Stage::Refused(LoginError::Target(e), None),
                }
            },
            (Stage::Connect(target, options), LoginEvent::Connected(true)) => {
                Stage::Handshake(target, options)
            },
            (Stage::Handshake(target, _), LoginEvent::Handshake) => Stage::Agent(target),
            (Stage::Agent(_), LoginEvent::Agent(Ok(_))) => Stage::Established,
            (Stage::Agent(target), LoginEvent::Agent(Err(code))) => {
                if code == ErrorCode::Session(AUTHENTICATION_FAILED) {
                    Stage::Password(target)
                } else {
                    Stage::Refused(LoginError::Agent, cancelled)
                }
            },
            (Stage::Password(target), LoginEvent::Password(taken)) => {
                if taken {
                    Stage::Confirm(target)
                } else {
                    Stage::Refused(LoginError::Password, cancelled)
                }
            },
            (Stage::Confirm(_), LoginEvent::Authenticated(authenticated)) => {
                if authenticated {
                    Stage::Established
                } else {
                    Stage::Refused(LoginError::NotAuthenticated, cancelled)
                }
            },
            _ => Stage::Refused(LoginError::Unreachable, None),
        };
        Login { host: self.host, password: self.password, stage }
    }

    /// The session that an established login leads to, kept under the host as
    /// it was typed.
    pub fn into_session(self, session: Session, poll: Poll, events: Events) -> (data: SSHData)
        requires
            self@.stage is Established,
        ensures
            data == SSHData::Native(self.host, session, poll, events),
    {
        SSHData::Native(self.host, session, poll, events)
    }
}

/// The login after all of `events`, in order; `None` where one of them did not
/// answer the stage it met.
pub open spec fn login_run(start: LoginView, events: Seq<LoginEventView>) -> Option<LoginView>
    decreases events.len(),
{
    if events.len() == 0 {
        Some(start)
    } else {
        match login_run(start, events.drop_last()) {
            Some(login) => if login.awaits(events.last()) {
                Some(login.after(events.last()))
            } else {
                None
            },
            None => None,
        }
    }
}

/// The login and the options that a first event leads to, for `host`.
pub open spec fn configured(
    host: Seq<char>,
    event: LoginEventView,
) -> Option<(TargetView, SessionOptions)> {
    match event {
        LoginEventView::Config(rules) => match super::target::target_of(host, rules[host]) {
            Ok(target) => Some((target, super::target::options_of(rules[host]))),
            Err(_) => None,
        },
        _ => None,
    }
}

/// The host was resolved and connected to, and the handshake is done.
pub open spec fn reached(host: Seq<char>, events: Seq<LoginEventView>) -> bool {
    &&& events.len() >= 3
    &&& configured(host, events[0]) is Some
    &&& events[1] == LoginEventView::Connected(true)
    &&& events[2] == LoginEventView::Handshake
}

/// The host was reached, and the agent's key was refused there.
pub open spec fn key_refused(host: Seq<char>, events: Seq<LoginEventView>) -> bool {
    &&& reached(host, events)
    &&& events.len() >= 4
    &&& events[3] == LoginEventView::Agent(
        Err::<(), ErrorCode>(ErrorCode::Session(AUTHENTICATION_FAILED)),
    )
}

/// A whole login in which the agent was accepted.
pub open spec fn logged_in_by_agent(host: Seq<char>, events: Seq<LoginEventView>) -> bool {
    &&& reached(host, events)
    &&& events.len() == 4
    &&& events[3] matches LoginEventView::Agent(Ok(_))
}

/// A whole login in which the password was taken after the agent's key was
/// refused.
pub open spec fn logged_in_by_password(host: Seq<char>, events: Seq<LoginEventView>) -> bool {
    &&& key_refused(host, events)
    &&& events.len() == 6
    &&& events[4] == LoginEventView::Password(true)
    &&& events[5] == LoginEventView::Authenticated(true)
}

/// What is known of the events that led from the start of a login to `stage`.
spec fn leads_to(host: Seq<char>, events: Seq<LoginEventView>, stage: StageView) -> bool {
    match stage {
        StageView::Config => events.len() == 0,
        StageView::Connect(target, options) => events.len() == 1 && configured(host, events[0])
            == Some((target, options)),
        StageView::Handshake(target, options) => events.len() == 2 && configured(host, events[0])
            == Some((target, options)) && events[1] == LoginEventView::Connected(true),
        StageView::Agent(target) => events.len() == 3 && reached(host, events) && configured(
            host,
            events[0],
        ).unwrap().0 == target,
        StageView::Password(target) => events.len() == 4 && key_refused(host, events)
            && configured(host, events[0]).unwrap().0 == target,
        StageView::Confirm(target) => events.len() == 5 && key_refused(host, events) && configured(
            host,
            events[0],
        ).unwrap().0 == target && events[4] == LoginEventView::Password(true),
        StageView::Established => logged_in_by_agent(host, events) || logged_in_by_password(
            host,
            events,
        ),
        StageView::Refused(_, code) => if code is None {
            1 <= events.len() <= 2
        } else {
            events.len() >= 4 && reached(host, events) && code == Some(
                DisconnectCode::AuthCancelledByUser,
            )
        },
    }
}

proof fn stage_tells_events(host: Seq<char>, password: Seq<char>, events: Seq<LoginEventView>)
    requires
        login_run(LoginView::start(host, password), events) is Some,
    ensures
        ({
            let login = login_run(LoginView::start(host, password), events).unwrap();
            login.host == host && login.password == password && leads_to(host, events, login.stage)
        }),
    decreases events.len(),
{
    if events.len() > 0 {
        let earlier = events.drop_last();
        stage_tells_events(host, password, earlier);
        assert(forall|i: int| 0 <= i < earlier.len() ==> events[i] == earlier[i]);
    }
}

proof fn run_takes_one_more(start: LoginView, events: Seq<LoginEventView>, k: int)
    requires
        0 <= k < events.len(),
    ensures
        login_run(start, events.take(k + 1)) == (match login_run(start, events.take(k)) {
            Some(login) => if login.awaits(events[k]) {
                Some(login.after(events[k]))
            } else {
                None
            },
            None => None,
        }),
{
    assert(events.take(k + 1).drop_last() == events.take(k));
}

proof fn events_lead_to_established(
    host: Seq<char>,
    password: Seq<char>,
    events: Seq<LoginEventView>,
)
    requires
        logged_in_by_agent(host, events) || logged_in_by_password(host, events),
    ensures
        login_run(LoginView::start(host, password), events) matches Some(login)
            && login.stage is Established,
{
    let start = LoginView::start(host, password);
    let (target, options) = configured(host, events[0]).unwrap();
    run_takes_one_more(start, events, 0);
    assert(login_run(start, events.take(1)).unwrap().stage == StageView::Connect(target, options));
    run_takes_one_more(start, events, 1);
    run_takes_one_more(start, events, 2);
    assert(login_run(start, events.take(3)).unwrap().stage == StageView::Agent(target));
    run_takes_one_more(start, events, 3);
    if events.len() == 6 {
        assert(login_run(start, events.take(4)).unwrap().stage == StageView::Password(target));
        run_takes_one_more(start, events, 4);
        run_takes_one_more(start, events, 5);
    }
    assert(events.take(events.len() as int) == events);
}

/// A session of our own comes out of exactly two kinds of login: the agent was
/// accepted, or its key was refused and then the password was taken and the
/// session found authenticated.
pub proof fn established_by_agent_or_password(
    host: Seq<char>,
    password: Seq<char>,
    events: Seq<LoginEventView>,
)
    ensures
        (login_run(LoginView::start(host, password), events) matches Some(login)
            && login.stage is Established) <==> (logged_in_by_agent(host, events)
            || logged_in_by_password(host, events)),
{
    if login_run(LoginView::start(host, password), events) is Some {
        stage_tells_events(host, password, events);
    }
    if logged_in_by_agent(host, events) || logged_in_by_password(host, events) {
        events_lead_to_established(host, password, events);
    }
}

/// The address that is connected to, the options that the session is given and
/// the user that the agent speaks for are those that the configuration and the
/// host as typed lead to.
pub proof fn login_keeps_to_the_configuration(
    host: Seq<char>,
    password: Seq<char>,
    events: Seq<LoginEventView>,
)
    requires
        login_run(LoginView::start(host, password), events) is Some,
    ensures
        match login_run(LoginView::start(host, password), events).unwrap().stage {
            StageView::Connect(target, options) | StageView::Handshake(target, options) => {
                configured(host, events[0]) == Some((target, options))
            },
            StageView::Agent(target) => configured(host, events[0]) matches Some((wanted, _))
                && wanted == target,
            _ => true,
        },
{
    stage_tells_events(host, password, events);
}

/// The password is asked for only after the agent's key was refused, and for
/// the user and the address that the host was resolved to.
pub proof fn password_follows_a_refused_key(
    host: Seq<char>,
    password: Seq<char>,
    events: Seq<LoginEventView>,
)
    requires
        login_run(LoginView::start(host, password), events) matches Some(login)
            && login.stage is Password,
    ensures
        key_refused(host, events),
        configured(host, events[0]) matches Some((target, _)) && login_run(
            LoginView::start(host, password),
            events,
        ).unwrap().stage == StageView::Password(target),
{
    stage_tells_events(host, password, events);
}

/// A login that ends without a session disconnects exactly where the host had
/// been reached, and always as cancelled by the user.
pub proof fn refusal_disconnects_once_reached(
    host: Seq<char>,
    password: Seq<char>,
    events: Seq<LoginEventView>,
)
    requires
        login_run(LoginView::start(host, password), events) matches Some(login)
            && login.stage is Refused,
    ensures
        login_run(LoginView::start(host, password), events).unwrap().stage->Refused_1 == (
        if reached(host, events) {
            Some(DisconnectCode::AuthCancelledByUser)
        } else {
            None
        }),
{
    stage_tells_events(host, password, events);
}

/// With the system's `ssh` program a session is ready at once and remembers the
/// host as typed. Without it, a login starts that waits for the configuration
/// and keeps the host and the password as typed.
pub proof fn binary_needs_no_login(
    host: &str,
    password: &str,
    ready: NewSession,
    session: NewSession,
)
    requires
        call_ensures(new_session, (host, password, true), ready),
        call_ensures(new_session, (host, password, false), session),
    ensures
        ready matches NewSession::Ready(SSHData::Binary(name)) && name@ == host@,
        session matches NewSession::Login(login) && login.host@ == host@ && login.password@
            == password@ && login.stage is Config,
{
}

/// No step of a login changes the host or the password.
pub proof fn login_keeps_host_and_password(login: Login, event: LoginEvent, next: Login)
    requires
        call_ensures(Login::advance, (login, event), next),
    ensures
        next.host@ == login.host@,
        next.password@ == login.password@,
{
}

/// A login goes where the host as typed resolves to under what the
/// configuration sets for that very host, with the options that are set there;
/// where it resolves to nothing, it ends for that reason, with nothing to
/// disconnect.
pub proof fn configuration_of_the_typed_host_is_followed(
    login: Login,
    config: SshConfig,
    next: Login,
    host: &str,
    params: &super::config::HostParams,
    target: Result<Target, TargetError>,
    options: SessionOptions,
)
    requires
        login.stage is Config,
        call_ensures(Login::advance, (login, LoginEvent::Config(config)), next),
        host@ == login.host@,
        params@ == super::config::config_rules(config)[host@],
        call_ensures(resolve_target, (host, params), target),
        call_ensures(configure_session, (params,), options),
    ensures
        call_requires(Login::advance, (login, LoginEvent::Config(config))),
        target matches Ok(t) ==> (next.stage matches Stage::Connect(wanted, set)
            && wanted.username@ == t.username@ && wanted.address@ == t.address@ && set == options),
        target matches Err(e) ==> next.stage@ == StageView::Refused(LoginError::Target(e), None),
{
}

/// A host that was connected to is shaken hands with, for the same target and
/// with the same options; one that was not ends the login, with nothing to
/// disconnect. After the handshake the agent is tried for the same target.
pub proof fn connected_host_is_shaken_hands_with(
    login: Login,
    target: Target,
    options: SessionOptions,
    reached_it: Login,
    missed_it: Login,
    greeted: Login,
)
    requires
        login.stage == Stage::Connect(target, options),
        call_ensures(Login::advance, (login, LoginEvent::Connected(true)), reached_it),
        call_ensures(Login::advance, (login, LoginEvent::Connected(false)), missed_it),
        call_ensures(Login::advance, (reached_it, LoginEvent::Handshake), greeted),
    ensures
        call_requires(Login::advance, (login, LoginEvent::Connected(true))),
        call_requires(Login::advance, (login, LoginEvent::Connected(false))),
        call_requires(Login::advance, (reached_it, LoginEvent::Handshake)),
        reached_it.stage matches Stage::Handshake(t, o) && t@ == target@ && o == options,
        missed_it.stage@ == StageView::Refused(LoginError::Unreachable, None),
        greeted.stage matches Stage::Agent(t) && t@ == target@,
{
}

/// An agent that was accepted establishes the session. The password is tried,
/// for the same target, after the session's error -18 alone; any other error of
/// the agent ends the login, and the session is disconnected as cancelled by
/// the user.
pub proof fn only_a_refused_key_leads_to_the_password(
    login: Login,
    target: Target,
    accepted: Login,
    code: ErrorCode,
    failed: Login,
)
    requires
        login.stage == Stage::Agent(target),
        call_ensures(
            Login::advance,
            (login, LoginEvent::Agent(Ok::<(), ErrorCode>(()))),
            accepted,
        ),
        call_ensures(
            Login::advance,
            (login, LoginEvent::Agent(Err::<(), ErrorCode>(code))),
            failed,
        ),
    ensures
        call_requires(Login::advance, (login, LoginEvent::Agent(Ok::<(), ErrorCode>(())))),
        call_requires(Login::advance, (login, LoginEvent::Agent(Err::<(), ErrorCode>(code)))),
        accepted.stage is Established,
        (failed.stage matches Stage::Password(t) && t@ == target@) <==> (code
            matches ErrorCode::Session(number) && number == -18),
        !(failed.stage is Password) ==> failed.stage@ == StageView::Refused(
            LoginError::Agent,
            Some(DisconnectCode::AuthCancelledByUser),
        ),
{
}

/// A password that was taken is confirmed for the same target, and the session
/// is established exactly where it is found authenticated. A password that was
/// refused, and a session that is not authenticated, each end the login for
/// their own reason, and the session is disconnected as cancelled by the user.
pub proof fn password_is_confirmed(
    login: Login,
    target: Target,
    taken: Login,
    refused: Login,
    authenticated: bool,
    confirmed: Login,
)
    requires
        login.stage == Stage::Password(target),
        call_ensures(Login::advance, (login, LoginEvent::Password(true)), taken),
        call_ensures(Login::advance, (login, LoginEvent::Password(false)), refused),
        call_ensures(
            Login::advance,
            (taken, LoginEvent::Authenticated(authenticated)),
            confirmed,
        ),
    ensures
        call_requires(Login::advance, (login, LoginEvent::Password(true))),
        call_requires(Login::advance, (login, LoginEvent::Password(false))),
        call_requires(Login::advance, (taken, LoginEvent::Authenticated(authenticated))),
        taken.stage matches Stage::Confirm(t) && t@ == target@,
        refused.stage@ == StageView::Refused(
            LoginError::Password,
            Some(DisconnectCode::AuthCancelledByUser),
        ),
        confirmed.stage is Established <==> authenticated,
        !authenticated ==> confirmed.stage@ == StageView::Refused(
            LoginError::NotAuthenticated,
            Some(DisconnectCode::AuthCancelledByUser),
        ),
{
}

/// An established login gives its own session, poll and events, under the host
/// as typed.
pub proof fn session_is_kept_under_its_host(
    login: Login,
    session: Session,
    poll: Poll,
    events: Events,
    data: SSHData,
)
    requires
        login.stage is Established,
        call_ensures(Login::into_session, (login, session, poll, events), data),
    ensures
        call_requires(Login::into_session, (login, session, poll, events)),
        data matches SSHData::Native(name, s, p, e) && name@ == login.host@ && s == session && p
            == poll && e == events,
{
}

} // verus!
