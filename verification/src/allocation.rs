//! Allocating an adapter: which unit to connect to, when to give up, and
//! what to do with each handle that opens.
//!
//! The allocation is a state machine. Its driver performs the action it is
//! given, reports what happened as an event, and gets the next action, until
//! the action is `Done`.

use crate::error::Error;
use crate::interface::{Interface, Params};
use vstd::prelude::*;

verus! {

/// Units `0 .. UNIT_SEARCH_END` are tried where no unit was asked for.
pub const UNIT_SEARCH_END: i32 = 16;

/// Where an allocation stands.
#[derive(Clone, Copy, Debug, PartialEq, Eq, Structural)]
pub enum Phase {
    /// A connection to this unit is being opened.
    Opening(i32),
    /// This handle has opened and is being put into non-blocking mode.
    Configuring(i32),
    /// The allocation is over.
    Finished,
}

/// What the driver reports.
#[derive(Clone, Debug, PartialEq, Eq)]
pub enum AllocEvent {
    /// The unit opened: its handle and the name that the system gave the adapter.
    Opened { fd: i32, name: String },
    /// The handle is in non-blocking mode now.
    Configured,
    /// The action failed with this OS error code.
    Failed(i32),
}

/// What the driver is to do next.
#[derive(Clone, Copy, Debug, PartialEq, Eq)]
pub enum AllocAction {
    /// Open a connection to this unit.
    Open(i32),
    /// Put this handle into non-blocking mode.
    SetNonBlocking(i32),
    /// Nothing more: the allocation succeeded or failed.
    Done(Result<(), Error>),
}

/// The state of an allocation.
pub struct Allocation {
    /// The unit that the configuration asks for, if any.
    pub requested: Option<i32>,
    /// The number of handles to open.
    pub queues: usize,
    /// The handles opened and configured so far.
    pub fds: Vec<i32>,
    /// The adapter's name, as reported when the first handle opened.
    pub name: String,
    /// What the machine waits for.
    pub phase: Phase,
}

/// The text `utun`, with which the name of every adapter unit begins.
pub open spec fn unit_prefix() -> Seq<char> {
    seq!['u', 't', 'u', 'n']
}

/// The 32-bit signed integer that `text` denotes, as the standard library's
/// parser of `i32` reads it; `None` where it reads none.
pub uninterp spec fn parsed_i32(text: Seq<char>) -> Option<i32>;

/// The unit that a requested name asks for: the number behind `utun`, if
/// the name has that form.
pub open spec fn requested_unit_of(name: Option<String>) -> Option<i32> {
    match name {
        Some(n) => if unit_prefix().is_prefix_of(n@) {
            parsed_i32(n@.skip(4))
        } else {
            None
        },
        None => None,
    }
}

/// The unit to open first for each queue.
pub open spec fn first_unit(requested: Option<i32>) -> i32 {
    match requested {
        Some(unit) => unit,
        None => 0,
    }
}

/// `str::strip_prefix` with a string as the pattern: the rest of `text`
/// behind `prefix`, or `None` where `text` does not begin with `prefix`.
#[verifier::external_body]
fn strip_prefix<'a>(text: &'a str, prefix: &str) -> (rest: Option<&'a str>)
    ensures
        match rest {
            Some(r) => text@ == prefix@ + r@,
            None => !prefix@.is_prefix_of(text@),
        },
{
    text.strip_prefix(prefix)
}

/// `str::parse::<i32>`: the number that the text denotes, `None` where the
/// standard library's parser rejects it.
#[verifier::external_body]
fn parse_i32(text: &str) -> (value: Option<i32>)
    ensures
        value == parsed_i32(text@),
{
    text.parse::<i32>().ok()
}

impl Allocation {
    /// What holds of every state that the machine reaches: while it runs,
    /// a handle is still missing, and a search stays inside its range.
    pub open spec fn wf(&self) -> bool {
        &&& self.queues >= 1
        &&& !(self.phase is Finished) ==> self.fds@.len() < self.queues
        &&& (self.requested is None && self.phase is Opening) ==> 0 <= self.phase->Opening_0
            < UNIT_SEARCH_END
    }

    /// Whether `event` can follow the action that led to this state.
    pub open spec fn accepts(&self, event: &AllocEvent) -> bool {
        match self.phase {
            Phase::Opening(_) => event is Opened || event is Failed,
            Phase::Configuring(_) => event is Configured || event is Failed,
            Phase::Finished => false,
        }
    }

    /// The state and the action with which an allocation begins.
    pub open spec fn spec_begin(
        start: (Allocation, AllocAction),
        requested: Option<i32>,
        queues: usize,
    ) -> bool {
        &&& start.0.requested == requested
        &&& start.0.queues == queues
        &&& start.0.fds@.len() == 0
        &&& start.0.name@.len() == 0
        &&& start.0.phase == Phase::Opening(first_unit(requested))
        &&& start.1 == AllocAction::Open(first_unit(requested))
        &&& start.0.wf()
    }

    /// The unit that a requested name asks for.
    pub fn requested_unit(name: &Option<String>) -> (unit: Option<i32>)
        ensures
            unit == requested_unit_of(*name),
    {
        match name {
            None => None,
            Some(n) => {
                proof {
                    reveal_strlit("utun");
                }
                match strip_prefix(n.as_str(), "utun") {
                    Some(rest) => {
                        assert("utun"@ =~= unit_prefix());
                        assert(rest@ =~= n@.skip(4));
                        assert(unit_prefix().is_prefix_of(n@));
                        parse_i32(rest)
                    },
                    None => {
                        assert("utun"@ =~= unit_prefix());
                        None
                    },
                }
            },
        }
    }

    /// Begins an allocation of `queues` handles on the requested unit, or on
    /// the first unit that opens where none is requested.
    pub fn begin(requested: Option<i32>, queues: usize) -> (start: (Allocation, AllocAction))
        requires
            queues >= 1,
        ensures
            Allocation::spec_begin(start, requested, queues),
    {
        let unit: i32 = match requested {
            Some(unit) => unit,
            None => 0,
        };
        let state = Allocation {
            requested,
            queues,
            fds: Vec::new(),
            name: String::new(),
            phase: Phase::Opening(unit),
        };
        (state, AllocAction::Open(unit))
    }

    /// Begins the allocation that a configuration asks for.
    pub fn start(params: &Params, queues: usize) -> (start: (Allocation, AllocAction))
        requires
            queues >= 1,
        ensures
            Allocation::spec_begin(start, requested_unit_of(params.name), queues),
    {
        Allocation::begin(Allocation::requested_unit(&params.name), queues)
    }

    /// Takes one event and gives the next action.
    ///
    /// A unit that opens is put into non-blocking mode and then counted. A
    /// requested unit that does not open ends the allocation with the error;
    /// in a search the next unit is tried, and `NotFound` ends the search
    /// behind the last unit. A handle that cannot be put into non-blocking
    /// mode ends the allocation with the error. The allocation succeeds when
    /// `queues` handles are counted.
    pub fn step(&mut self, event: &AllocEvent) -> (action: AllocAction)
        requires
            old(self).wf(),
            old(self).accepts(event),
        ensures
            final(self).wf(),
            final(self).requested == old(self).requested,
            final(self).queues == old(self).queues,
            action is Done <==> final(self).phase is Finished,
            action == AllocAction::Done(Ok(())) ==> final(self).fds@.len() == final(self).queues,
            step_relation(*old(self), *event, *final(self), action),
    {
        match (self.phase, event) {
            (Phase::Opening(_), AllocEvent::Opened { fd, name }) => {
                if self.fds.len() == 0 {
                    self.name = name.clone();
                }
                self.phase = Phase::Configuring(*fd);
                AllocAction::SetNonBlocking(*fd)
            },
            (Phase::Opening(unit), AllocEvent::Failed(code)) => {
                if self.requested.is_some() {
                    self.phase = Phase::Finished;
                    AllocAction::Done(Err(Error::Os(*code)))
                } else if unit < UNIT_SEARCH_END - 1 {
                    self.phase = Phase::Opening(unit + 1);
                    AllocAction::Open(unit + 1)
                } else {
                    self.phase = Phase::Finished;
                    AllocAction::Done(Err(Error::NotFound))
                }
            },
            (Phase::Configuring(fd), AllocEvent::Configured) => {
                self.fds.push(fd);
                if self.fds.len() == self.queues {
                    self.phase = Phase::Finished;
                    AllocAction::Done(Ok(()))
                } else {
                    let unit: i32 = match self.requested {
                        Some(unit) => unit,
                        None => 0,
                    };
                    self.phase = Phase::Opening(unit);
                    AllocAction::Open(unit)
                }
            },
            (Phase::Configuring(_), AllocEvent::Failed(code)) => {
                self.phase = Phase::Finished;
                AllocAction::Done(Err(Error::Os(*code)))
            },
            _ => {
                self.phase = Phase::Finished;
                AllocAction::Done(Err(Error::NotFound))
            },
        }
    }

    /// The adapter that a successful allocation has produced, with `socket`
    /// as its control channel.
    pub fn into_interface(self, socket: i32) -> (iface: Interface)
        ensures
            iface.spec_files() == self.fds@,
            iface.spec_name() == self.name@,
            iface.spec_socket() == socket,
    {
        let Allocation { fds, name, .. } = self;
        Interface::new(fds, name.as_str(), socket)
    }
}

/// A search gives up exactly behind the last unit of its range: `NotFound`
/// is the answer to a failure on unit 15 and to no other event.
pub proof fn lemma_not_found_only_after_search(
    before: Allocation,
    event: AllocEvent,
    after: Allocation,
    action: AllocAction,
)
    requires
        before.wf(),
        before.accepts(&event),
        step_relation(before, event, after, action),
    ensures
        action == AllocAction::Done(Err(Error::NotFound)) <==> (before.requested is None
            && before.phase == Phase::Opening(15) && event is Failed),
{
}

/// An allocation succeeds only with a handle for every queue: success is
/// the answer to the event that puts the last missing handle into
/// non-blocking mode, and to no other.
pub proof fn lemma_success_counts_every_queue(
    before: Allocation,
    event: AllocEvent,
    after: Allocation,
    action: AllocAction,
)
    requires
        before.wf(),
        before.accepts(&event),
        step_relation(before, event, after, action),
    ensures
        action == AllocAction::Done(Ok(())) <==> (before.phase is Configuring && event is Configured
            && before.fds@.len() + 1 == before.queues),
        action == AllocAction::Done(Ok(())) ==> after.fds@.len() == before.queues && after.fds@
            == before.fds@.push(before.phase->Configuring_0),
{
}

/// The relation between the states before and after a step, the event and
/// the action, as `Allocation::step` guarantees it.
pub open spec fn step_relation(
    before: Allocation,
    event: AllocEvent,
    after: Allocation,
    action: AllocAction,
) -> bool {
    match (before.phase, event) {
        (Phase::Opening(_), AllocEvent::Opened { fd, name }) => {
            &&& action == AllocAction::SetNonBlocking(fd)
            &&& after.phase == Phase::Configuring(fd)
            &&& after.fds@ == before.fds@
            &&& after.name@ == if before.fds@.len() == 0 {
                name@
            } else {
                before.name@
            }
        },
        (Phase::Opening(unit), AllocEvent::Failed(code)) => {
            &&& after.fds@ == before.fds@
            &&& after.name@ == before.name@
            &&& if before.requested is Some {
                action == AllocAction::Done(Err(Error::Os(code)))
            } else if unit + 1 < UNIT_SEARCH_END {
                action == AllocAction::Open((unit + 1) as i32) && after.phase == Phase::Opening(
                    (unit + 1) as i32,
                )
            } else {
                action == AllocAction::Done(Err(Error::NotFound))
            }
        },
        (Phase::Configuring(fd), AllocEvent::Configured) => {
            &&& after.fds@ == before.fds@.push(fd)
            &&& after.name@ == before.name@
            &&& if before.fds@.len() + 1 == before.queues {
                action == AllocAction::Done(Ok(()))
            } else {
                action == AllocAction::Open(first_unit(before.requested)) && after.phase
                    == Phase::Opening(first_unit(before.requested))
            }
        },
        (Phase::Configuring(_), AllocEvent::Failed(code)) => {
            &&& action == AllocAction::Done(Err(Error::Os(code)))
            &&& after.fds@ == before.fds@
            &&& after.name@ == before.name@
        },
        _ => true,
    }
}

} // verus!
