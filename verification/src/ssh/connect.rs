//! Connecting to the first usable address of a host.

use vstd::prelude::*;

verus! {

/// What connecting waits for, or how it ended. Addresses are named by their
/// place in the list that the host resolved to.
#[derive(Debug, Clone, Copy, PartialEq, Eq, Structural)]
pub enum ConnectStage {
    /// The addresses of the host.
    Resolve,
    /// A socket that connects to this address.
    Dial(usize),
    /// Whether the socket that was dialled becomes connected.
    Check(usize),
    /// The socket of this address is connected; it is to be registered for
    /// readable and writable events.
    Connected(usize),
    /// No address can be used.
    Failed,
}

/// What came of the step that a [`ConnectStage`] waited for.
#[derive(Debug, Clone, Copy, PartialEq, Eq, Structural)]
pub enum ConnectEvent {
    /// The host has this many addresses.
    Resolved(usize),
    /// The host could not be resolved.
    ResolveFailed,
    /// Whether a socket was made.
    Dialled(bool),
    /// Whether the socket became connected.
    Checked(bool),
}

/// A connection being made.
#[derive(Debug, Clone, Copy, PartialEq, Eq, Structural)]
pub struct Connect {
    /// What is waited for.
    pub stage: ConnectStage,
    /// How many addresses there are.
    pub addresses: usize,
}

impl Connect {
    /// The address under way is one of those that there are.
    pub open spec fn valid(self) -> bool {
        match self.stage {
            ConnectStage::Dial(i) | ConnectStage::Check(i) | ConnectStage::Connected(i) => i
                < self.addresses,
            ConnectStage::Resolve | ConnectStage::Failed => true,
        }
    }

    /// `event` is a reply to what this stage waits for.
    pub open spec fn awaits(self, event: ConnectEvent) -> bool {
        match event {
            ConnectEvent::Resolved(_) | ConnectEvent::ResolveFailed => self.stage is Resolve,
            ConnectEvent::Dialled(_) => self.stage is Dial,
            ConnectEvent::Checked(_) => self.stage is Check,
        }
    }

    /// Trying address `i` next, or failing where the list ends before it.
    pub open spec fn trying(i: nat, addresses: usize) -> Connect {
        Connect {
            stage: if i < addresses {
                ConnectStage::Dial(i as usize)
            } else {
                ConnectStage::Failed
            },
            addresses,
        }
    }

    /// The connection after `event`.
    pub open spec fn after(self, event: ConnectEvent) -> Connect {
        match (self.stage, event) {
            (_, ConnectEvent::Resolved(addresses)) => Connect::trying(0, addresses),
            (ConnectStage::Dial(i), ConnectEvent::Dialled(made)) => if made {
                Connect { stage: ConnectStage::Check(i), ..self }
            } else {
                Connect::trying((i + 1) as nat, self.addresses)
            },
            (ConnectStage::Check(i), ConnectEvent::Checked(connected)) => if connected {
                Connect { stage: ConnectStage::Connected(i), ..self }
            } else {
                Connect::trying((i + 1) as nat, self.addresses)
            },
            _ => Connect { stage: ConnectStage::Failed, ..self },
        }
    }

    /// A connection whose host is still to be resolved.
    pub fn new() -> (connect: Connect)
        ensures
            connect == (Connect { stage: ConnectStage::Resolve, addresses: 0 }),
    {
        Connect { stage: ConnectStage::Resolve, addresses: 0 }
    }

    /// Tries the address behind `i`.
    fn next_address(self, i: usize) -> (connect: Connect)
        requires
            i < self.addresses,
        ensures
            connect == Connect::trying((i + 1) as nat, self.addresses),
    {
        if i + 1 < self.addresses {
            Connect { stage: ConnectStage::Dial(i + 1), addresses: self.addresses }
        } else {
            Connect { stage: ConnectStage::Failed, addresses: self.addresses }
        }
    }

    /// Takes in the reply to what the current stage waits for.
    pub fn connect_tcp(self, event: ConnectEvent) -> (connect: Connect)
        requires
            self.valid(),
            self.awaits(event),
        ensures
            connect == self.after(event),
            connect.valid(),
    {
        match (self.stage, event) {
            (_, ConnectEvent::Resolved(addresses)) => {
                if addresses > 0 {
                    Connect { stage: ConnectStage::Dial(0), addresses }
                } else {
                    Connect { stage: ConnectStage::Failed, addresses }
                }
            },
            (ConnectStage::Dial(i), ConnectEvent::Dialled(made)) => {
                if made {
                    Connect { stage: ConnectStage::Check(i), addresses: self.addresses }
                } else {
                    self.next_address(i)
                }
            },
            (ConnectStage::Check(i), ConnectEvent::Checked(connected)) => {
                if connected {
                    Connect { stage: ConnectStage::Connected(i), addresses: self.addresses }
                } else {
                    self.next_address(i)
                }
            },
            _ => Connect { stage: ConnectStage::Failed, addresses: self.addresses },
        }
    }
}

/// How one address answers: whether a socket is made for it, and whether that
/// socket becomes connected.
pub struct Answer {
    pub dialled: bool,
    pub connected: bool,
}

impl Answer {
    /// The address can be used.
    pub open spec fn usable(self) -> bool {
        self.dialled && self.connected
    }
}

/// Where a connection ends that is given, for each address it tries, the
/// answers of `answers`.
pub open spec fn settle(connect: Connect, answers: Seq<Answer>) -> ConnectStage
    decreases
        answers.len() - (match connect.stage {
            ConnectStage::Dial(i) => i as int,
            ConnectStage::Check(i) => i as int,
            _ => answers.len() as int,
        }),
        (if connect.stage is Dial {
            1int
        } else {
            0int
        }),
    when connect.addresses == answers.len() && connect.valid()
{
    match connect.stage {
        ConnectStage::Dial(i) => settle(
            connect.after(ConnectEvent::Dialled(answers[i as int].dialled)),
            answers,
        ),
        ConnectStage::Check(i) => settle(
            connect.after(ConnectEvent::Checked(answers[i as int].connected)),
            answers,
        ),
        stage => stage,
    }
}

/// `stage` is the end of a connection to the first usable address, or a
/// failure for want of one.
pub open spec fn is_first_usable(stage: ConnectStage, answers: Seq<Answer>) -> bool {
    match stage {
        ConnectStage::Connected(i) => {
            &&& i < answers.len()
            &&& answers[i as int].usable()
            &&& forall|j: int| 0 <= j < i ==> !(#[trigger] answers[j]).usable()
        },
        ConnectStage::Failed => forall|j: int|
            0 <= j < answers.len() ==> !(#[trigger] answers[j]).usable(),
        _ => false,
    }
}

proof fn settles_on_first_usable(answers: Seq<Answer>, from: nat)
    requires
        from <= answers.len() <= usize::MAX,
        forall|j: int| 0 <= j < from ==> !(#[trigger] answers[j]).usable(),
    ensures
        is_first_usable(
            settle(Connect::trying(from, answers.len() as usize), answers),
            answers,
        ),
    decreases answers.len() - from,
{
    let connect = Connect::trying(from, answers.len() as usize);
    if from < answers.len() {
        let answer = answers[from as int];
        let dialled = connect.after(ConnectEvent::Dialled(answer.dialled));
        assert(settle(connect, answers) == settle(dialled, answers));
        if answer.dialled {
            let checked = dialled.after(ConnectEvent::Checked(answer.connected));
            assert(settle(dialled, answers) == settle(checked, answers));
        }
        if !answer.usable() {
            settles_on_first_usable(answers, from + 1);
        }
    }
}

/// Connecting ends with the first address that can be used, and fails exactly
/// where none can.
pub proof fn connects_to_the_first_usable_address(answers: Seq<Answer>)
    requires
        answers.len() <= usize::MAX,
    ensures
        ({
            let start = Connect { stage: ConnectStage::Resolve, addresses: 0 };
            let resolved = start.after(ConnectEvent::Resolved(answers.len() as usize));
            is_first_usable(settle(resolved, answers), answers)
        }),
{
    settles_on_first_usable(answers, 0);
}

/// A connection starts with resolving its host. The first address that the host
/// has is dialled; a host without one, or one that cannot be resolved, ends in
/// failure.
pub proof fn resolved_host_is_dialled_at_its_first_address(
    connect: Connect,
    addresses: usize,
    resolved: Connect,
    unresolved: Connect,
)
    requires
        call_ensures(Connect::new, (), connect),
        call_ensures(Connect::connect_tcp, (connect, ConnectEvent::Resolved(addresses)), resolved),
        call_ensures(Connect::connect_tcp, (connect, ConnectEvent::ResolveFailed), unresolved),
    ensures
        connect.stage is Resolve,
        call_requires(Connect::connect_tcp, (connect, ConnectEvent::Resolved(addresses))),
        call_requires(Connect::connect_tcp, (connect, ConnectEvent::ResolveFailed)),
        addresses > 0 ==> resolved.stage == ConnectStage::Dial(0),
        addresses == 0 ==> resolved.stage is Failed,
        resolved.addresses == addresses,
        unresolved.stage is Failed,
{
}

/// A socket that was made is waited for, and one that became connected is the
/// end: both for the address that was dialled.
pub proof fn dialled_address_is_the_one_connected(
    connect: Connect,
    i: usize,
    dialled: Connect,
    checked: Connect,
)
    requires
        connect.stage == ConnectStage::Dial(i),
        i < connect.addresses,
        call_ensures(Connect::connect_tcp, (connect, ConnectEvent::Dialled(true)), dialled),
        call_ensures(Connect::connect_tcp, (dialled, ConnectEvent::Checked(true)), checked),
    ensures
        call_requires(Connect::connect_tcp, (connect, ConnectEvent::Dialled(true))),
        call_requires(Connect::connect_tcp, (dialled, ConnectEvent::Checked(true))),
        dialled.stage == ConnectStage::Check(i),
        checked.stage == ConnectStage::Connected(i),
        dialled.addresses == connect.addresses,
        checked.addresses == connect.addresses,
{
}

/// An address that fails, at once or while it is waited for, is followed by the
/// next one, and by failure only where it was the last.
pub proof fn failed_address_is_followed_by_the_next(
    connect: Connect,
    i: usize,
    made: bool,
    next: Connect,
)
    requires
        i < connect.addresses,
        connect.stage == (if made {
            ConnectStage::Check(i)
        } else {
            ConnectStage::Dial(i)
        }),
        call_ensures(
            Connect::connect_tcp,
            (
                connect,
                if made {
                    ConnectEvent::Checked(false)
                } else {
                    ConnectEvent::Dialled(false)
                },
            ),
            next,
        ),
    ensures
        call_requires(
            Connect::connect_tcp,
            (
                connect,
                if made {
                    ConnectEvent::Checked(false)
                } else {
                    ConnectEvent::Dialled(false)
                },
            ),
        ),
        next.stage is Failed <==> i + 1 == connect.addresses,
        i + 1 < connect.addresses ==> next.stage == ConnectStage::Dial((i + 1) as usize),
        next.addresses == connect.addresses,
{
}

} // verus!
