//! What a poll reports about a socket.

use vstd::prelude::*;

verus! {

/// The token under which the SSH socket is registered with a poll.
pub const SSH_TOKEN: usize = 0;

/// One readiness event.
#[derive(Debug, Clone, Copy, PartialEq, Eq, Structural)]
pub struct Readiness {
    pub token: usize,
    pub readable: bool,
    pub error: bool,
    pub read_closed: bool,
    pub write_closed: bool,
}

impl Readiness {
    /// The socket failed or one of its halves is closed.
    pub open spec fn is_down(self) -> bool {
        self.error || self.read_closed || self.write_closed
    }

    /// Whether the socket failed or one of its halves is closed.
    pub fn down(&self) -> (down: bool)
        ensures
            down == self.is_down(),
    {
        self.error || self.write_closed || self.read_closed
    }
}

/// The events of one poll that are still to be looked at, oldest first.
#[derive(Debug)]
pub struct Batch {
    events: Vec<Readiness>,
    next: usize,
}

impl View for Batch {
    type V = Seq<Readiness>;

    closed spec fn view(&self) -> Seq<Readiness> {
        self.events@.skip(self.next as int)
    }
}

impl Batch {
    #[verifier::type_invariant]
    spec fn in_range(self) -> bool {
        self.next <= self.events.len()
    }

    /// A batch with nothing in it.
    pub fn empty() -> (batch: Batch)
        ensures
            batch@ == Seq::<Readiness>::empty(),
    {
        Batch { events: Vec::new(), next: 0 }
    }

    /// The events of a poll, in the order in which it reported them.
    pub fn new(events: Vec<Readiness>) -> (batch: Batch)
        ensures
            batch@ == events@,
    {
        Batch { events, next: 0 }
    }

    /// The event to look at now.
    pub fn first(&self) -> (event: Option<Readiness>)
        ensures
            event == (if self@.len() == 0 {
                None
            } else {
                Some(self@[0])
            }),
    {
        proof {
            use_type_invariant(self);
        }
        if self.next < self.events.len() {
            Some(self.events[self.next])
        } else {
            None
        }
    }

    /// Drops the event that was looked at.
    pub fn rest(self) -> (batch: Batch)
        requires
            self@.len() > 0,
        ensures
            batch@ == self@.drop_first(),
    {
        proof {
            use_type_invariant(&self);
        }
        let batch = Batch { next: self.next + 1, events: self.events };
        assert(batch@ == self@.drop_first());
        batch
    }
}

/// A socket is up only where none of the three flags against it is set.
pub proof fn up_means_no_flag_against_it(event: Readiness, down: bool)
    requires
        call_ensures(Readiness::down, (&event,), down),
    ensures
        event.error ==> down,
        event.read_closed ==> down,
        event.write_closed ==> down,
        down ==> event.error || event.read_closed || event.write_closed,
{
}

/// Walking through a batch meets every event of the poll once, in the order in
/// which the poll reported them, and then ends.
pub proof fn batch_is_walked_in_order(
    events: Vec<Readiness>,
    walk: Seq<Batch>,
    i: int,
    first: Option<Readiness>,
)
    requires
        0 <= i < walk.len() <= events@.len() + 1,
        call_ensures(Batch::new, (events,), walk[0]),
        forall|k: int|
            0 <= k < walk.len() - 1 ==> #[trigger] call_ensures(
                Batch::rest,
                (walk[k],),
                walk[k + 1],
            ),
        call_ensures(Batch::first, (&walk[i],), first),
    ensures
        i < events@.len() ==> first == Some(events@[i]),
        i == events@.len() ==> first is None,
        call_requires(Batch::rest, (walk[i],)) || i == events@.len(),
{
    walk_skips_what_was_met(events, walk, i);
}

proof fn walk_skips_what_was_met(events: Vec<Readiness>, walk: Seq<Batch>, i: int)
    requires
        0 <= i < walk.len() <= events@.len() + 1,
        call_ensures(Batch::new, (events,), walk[0]),
        forall|k: int|
            0 <= k < walk.len() - 1 ==> #[trigger] call_ensures(
                Batch::rest,
                (walk[k],),
                walk[k + 1],
            ),
    ensures
        walk[i]@ == events@.skip(i),
    decreases i,
{
    if i > 0 {
        walk_skips_what_was_met(events, walk, i - 1);
        assert(call_ensures(Batch::rest, (walk[i - 1],), walk[i - 1 + 1]));
    }
}

} // verus!
