//! The transition orchestrator's decisions: which error a request fails
//! with, and how a loaded record is checked and updated before it is written
//! back. The surrounding binary performs the store round trips and hands the
//! outcomes to these functions.

use vstd::prelude::*;
use crate::model::{Ticket, TicketState, TicketView, spec_can_transition, spec_composite_id};
use crate::ddb::DDBError;

verus! {

/// The composite identifier a request names, and the body of a successful
/// creation or transition response.
pub struct TicketIdentifier {
    pub ticket_id: String,
}

/// The body of a completion request: the delivery reference to record.
pub struct TicketCompletionRequest {
    pub delivery: String,
}

/// The body of a creation request.
pub struct SendTicketRequest {
    pub user_id: String,
    pub name: String,
    pub description: String,
    pub priority: String,
    pub source_file: String,
}

/// Why a request failed; every failure propagates to the caller at once.
#[derive(Clone, Copy, PartialEq, Eq, Structural, Debug)]
pub enum TicketError {
    TicketNotFound,
    TicketUpdateFailure,
    TicketCreationFailure,
    BadTicketRequest,
}

/// The HTTP status code each error is reported under.
pub open spec fn spec_status_code(e: TicketError) -> u16 {
    match e {
        TicketError::TicketNotFound => 404,
        TicketError::TicketUpdateFailure => 424,
        TicketError::TicketCreationFailure => 424,
        TicketError::BadTicketRequest => 400,
    }
}

impl TicketError {
    /// The status code of the response this error becomes.
    pub fn status_code(&self) -> (c: u16)
        ensures
            c == spec_status_code(*self),
    {
        match self {
            TicketError::TicketNotFound => 404,
            TicketError::TicketUpdateFailure => 424,
            TicketError::TicketCreationFailure => 424,
            TicketError::BadTicketRequest => 400,
        }
    }
}

/// The creation decision: the record a creation request constructs, owned by
/// the requesting user, with a freshly generated identifier component.
/// Creation itself never fails; only the write after it can.
pub fn create_ticket(request: SendTicketRequest) -> (t: Ticket)
    ensures
        t@.user_uuid == request.user_id@,
        t@.name == request.name@,
        t@.description == request.description@,
        t@.priority == request.priority@,
        t@.source_file == request.source_file@,
        t@.state == TicketState::New,
        t@.delivery is None,
        crate::model::uuid_formatted(t@.ticket_uuid),
{
    Ticket::new(
        request.user_id,
        request.name,
        request.description,
        request.priority,
        request.source_file,
    )
}

/// The read decision: an absent record fails with `TicketNotFound`; a loaded
/// one passes through unchanged.
pub fn lookup_outcome(loaded: Option<Ticket>) -> (r: Result<Ticket, TicketError>)
    ensures
        loaded is None ==> r == Err::<Ticket, TicketError>(TicketError::TicketNotFound),
        loaded matches Some(t) ==> r == Ok::<Ticket, TicketError>(t),
{
    match loaded {
        Some(ticket) => Ok(ticket),
        None => Err(TicketError::TicketNotFound),
    }
}

/// The transition decision, applied to the loaded record or its absence: an
/// absent record fails with `TicketNotFound`; an illegal edge fails with
/// `BadTicketRequest` and changes nothing; a legal one yields the record to
/// persist, with the target state set and the delivery reference replaced by
/// the one the caller supplied, every other field kept.
pub fn state_transition(loaded: Option<Ticket>, new_state: TicketState, delivery: Option<
    String,
>) -> (r: Result<Ticket, TicketError>)
    ensures
        loaded is None ==> r == Err::<Ticket, TicketError>(TicketError::TicketNotFound),
        loaded matches Some(t) ==> {
            &&& !spec_can_transition(t@.state, new_state) ==> r == Err::<Ticket, TicketError>(
                TicketError::BadTicketRequest,
            )
            &&& spec_can_transition(t@.state, new_state) ==> (r matches Ok(u) && u@ == (
            TicketView { state: new_state, delivery: delivery.deep_view(), ..t@ }))
        },
{
    let mut ticket = match loaded {
        Some(ticket) => ticket,
        None => {
            return Err(TicketError::TicketNotFound);
        },
    };
    if !ticket.can_transition_to(&new_state) {
        return Err(TicketError::BadTicketRequest);
    }
    ticket.state = new_state;
    ticket.delivery = delivery;
    Ok(ticket)
}

/// Maps the write outcome of a transition: the composite identifier on
/// success, `TicketUpdateFailure` when the store rejected the write.
pub fn update_outcome(put_result: Result<(), DDBError>, ticket: &Ticket) -> (r: Result<
    TicketIdentifier,
    TicketError,
>)
    ensures
        put_result is Ok ==> (r matches Ok(id) && id.ticket_id@ == spec_composite_id(ticket@)),
        put_result is Err ==> r == Err::<TicketIdentifier, TicketError>(
            TicketError::TicketUpdateFailure,
        ),
{
    match put_result {
        Ok(_) => Ok(TicketIdentifier { ticket_id: ticket.get_id() }),
        Err(_) => Err(TicketError::TicketUpdateFailure),
    }
}

/// Maps the write outcome of a creation: the composite identifier on
/// success, `TicketCreationFailure` when the store rejected the write.
pub fn creation_outcome(put_result: Result<(), DDBError>, ticket: &Ticket) -> (r: Result<
    TicketIdentifier,
    TicketError,
>)
    ensures
        put_result is Ok ==> (r matches Ok(id) && id.ticket_id@ == spec_composite_id(ticket@)),
        put_result is Err ==> r == Err::<TicketIdentifier, TicketError>(
            TicketError::TicketCreationFailure,
        ),
{
    match put_result {
        Ok(_) => Ok(TicketIdentifier { ticket_id: ticket.get_id() }),
        Err(_) => Err(TicketError::TicketCreationFailure),
    }
}

} // verus!
