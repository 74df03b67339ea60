//! Ledger events of a finalized transaction, and the search for the kinds
//! that confirm a deployment or a call.

use crate::account::AccountId32;
use crate::error::FixtureError;
use vstd::prelude::*;

verus! {

/// The kinds of event that the fixture looks for.
#[derive(Clone, Copy, Debug, PartialEq, Eq, Structural)]
pub enum EventKind {
    /// A contract was instantiated.
    Instantiated,
    /// The extrinsic was executed without a revert.
    ExtrinsicSuccess,
}

/// One event of a transaction, as far as the fixture reads it.
#[derive(Clone, Copy, Debug, PartialEq, Eq)]
pub enum Event {
    /// A contract was instantiated by `deployer` at the address `contract`.
    Instantiated { deployer: AccountId32, contract: AccountId32 },
    /// The extrinsic succeeded.
    ExtrinsicSuccess,
    /// An event that is named as one of `kind` but whose payload could not
    /// be decoded.
    Undecodable { kind: EventKind },
    /// Any event of another kind.
    Other,
}

impl Event {
    /// The kind that the event is named as, if it is one the fixture looks
    /// for.
    pub open spec fn kind(self) -> Option<EventKind> {
        match self {
            Event::Instantiated { .. } => Some(EventKind::Instantiated),
            Event::ExtrinsicSuccess => Some(EventKind::ExtrinsicSuccess),
            Event::Undecodable { kind } => Some(kind),
            Event::Other => None,
        }
    }

    /// Whether the event is named as one of `kind`.
    pub fn is_of(&self, kind: EventKind) -> (b: bool)
        ensures
            b == (self.kind() == Some(kind)),
    {
        match self {
            Event::Instantiated { .. } => matches!(kind, EventKind::Instantiated),
            Event::ExtrinsicSuccess => matches!(kind, EventKind::ExtrinsicSuccess),
            Event::Undecodable { kind: named } => match (named, kind) {
                (EventKind::Instantiated, EventKind::Instantiated) => true,
                (EventKind::ExtrinsicSuccess, EventKind::ExtrinsicSuccess) => true,
                _ => false,
            },
            Event::Other => false,
        }
    }
}

/// The position of the first event of `kind` among `events`, or the length of
/// `events` if there is none.
pub open spec fn first_position(events: Seq<Event>, kind: EventKind) -> nat
    decreases events.len(),
{
    if events.len() == 0 {
        0
    } else if events[0].kind() == Some(kind) {
        0
    } else {
        1 + first_position(events.drop_first(), kind)
    }
}

/// What a search for `kind` among `events` yields: the first event named as
/// such decides. Without one the search finds nothing; an undecodable one
/// fails the search; otherwise the event is found.
pub open spec fn search(events: Seq<Event>, kind: EventKind) -> Result<
    Option<Event>,
    FixtureError,
> {
    let at = first_position(events, kind) as int;
    if at >= events.len() {
        Ok(None)
    } else if events[at] is Undecodable {
        Err(FixtureError::EventDecodeFailed { kind })
    } else {
        Ok(Some(events[at]))
    }
}

/// `first_position` is the least index of an event of the kind, and is the
/// length where no event is of the kind.
pub proof fn lemma_first_position(events: Seq<Event>, kind: EventKind)
    ensures
        first_position(events, kind) <= events.len(),
        forall|i: int|
            0 <= i < first_position(events, kind) ==> (#[trigger] events[i]).kind() != Some(kind),
        first_position(events, kind) < events.len() ==> events[first_position(
            events,
            kind,
        ) as int].kind() == Some(kind),
    decreases events.len(),
{
    if events.len() > 0 && events[0].kind() != Some(kind) {
        let rest = events.drop_first();
        lemma_first_position(rest, kind);
        assert forall|i: int| 0 <= i < first_position(events, kind) implies (#[trigger]
        events[i]).kind() != Some(kind) by {
            if i > 0 {
                assert(events[i] == rest[i - 1]);
            }
        }
    }
}

/// An index below which no event is of the kind, and which holds one or is
/// the length, is the first position.
pub proof fn lemma_first_position_unique(events: Seq<Event>, kind: EventKind, at: int)
    requires
        0 <= at <= events.len(),
        forall|i: int| 0 <= i < at ==> (#[trigger] events[i]).kind() != Some(kind),
        at < events.len() ==> events[at].kind() == Some(kind),
    ensures
        first_position(events, kind) == at,
{
    lemma_first_position(events, kind);
}

/// An event that a search finds is of the kind searched for, and decodable.
pub proof fn lemma_search_finds_kind(events: Seq<Event>, kind: EventKind)
    ensures
        search(events, kind) matches Ok(Some(event)) ==> event.kind() == Some(kind) && !(event
            is Undecodable) && events.contains(event),
{
    lemma_first_position(events, kind);
}

/// Looks for the first event of `kind` among the events of a transaction.
pub fn find_event(events: &Vec<Event>, kind: EventKind) -> (found: Result<
    Option<Event>,
    FixtureError,
>)
    ensures
        found == search(events@, kind),
{
    let mut i: usize = 0;
    while i < events.len()
        invariant
            i <= events.len(),
            forall|j: int| 0 <= j < i ==> (#[trigger] events@[j]).kind() != Some(kind),
        decreases events.len() - i,
    {
        if events[i].is_of(kind) {
            proof {
                lemma_first_position_unique(events@, kind, i as int);
            }
            return match events[i] {
                Event::Undecodable { .. } => Err(FixtureError::EventDecodeFailed { kind }),
                event => Ok(Some(event)),
            };
        }
        i += 1;
    }
    proof {
        lemma_first_position_unique(events@, kind, events@.len() as int);
    }
    Ok(None)
}

} // verus!
