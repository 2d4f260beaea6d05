//! The ticket entity: record shape, identity generation, and the
//! state-transition legality rule.

use vstd::prelude::*;

verus! {

/// Lifecycle state of a ticket.
#[derive(Clone, Copy, PartialEq, Eq, Structural, Debug)]
pub enum TicketState {
    New,
    InProgress,
    Completed,
    Paused,
}

/// The transition legality table: exactly four edges are legal, every other
/// ordered pair of states (self-loops included) is illegal.
pub open spec fn spec_can_transition(from: TicketState, to: TicketState) -> bool {
    match (from, to) {
        (TicketState::New, TicketState::InProgress) => true,
        (TicketState::InProgress, TicketState::Paused) => true,
        (TicketState::InProgress, TicketState::Completed) => true,
        (TicketState::Paused, TicketState::InProgress) => true,
        _ => false,
    }
}

/// The textual name under which a state is persisted.
pub open spec fn spec_state_name(s: TicketState) -> Seq<char> {
    match s {
        TicketState::New => "New"@,
        TicketState::InProgress => "InProgress"@,
        TicketState::Completed => "Completed"@,
        TicketState::Paused => "Paused"@,
    }
}

/// The state a persisted textual name denotes, if it is a known variant.
pub open spec fn spec_state_of_name(n: Seq<char>) -> Option<TicketState> {
    if n == "New"@ {
        Some(TicketState::New)
    } else if n == "InProgress"@ {
        Some(TicketState::InProgress)
    } else if n == "Completed"@ {
        Some(TicketState::Completed)
    } else if n == "Paused"@ {
        Some(TicketState::Paused)
    } else {
        None
    }
}

impl TicketState {
    /// The state's textual name, as stored and serialized.
    pub fn name(&self) -> (r: String)
        ensures
            r@ == spec_state_name(*self),
    {
        match self {
            TicketState::New => String::from_str("New"),
            TicketState::InProgress => String::from_str("InProgress"),
            TicketState::Completed => String::from_str("Completed"),
            TicketState::Paused => String::from_str("Paused"),
        }
    }

    /// Parses a textual state name; `None` when it is no known variant.
    pub fn from_name(s: &str) -> (r: Option<TicketState>)
        ensures
            r == spec_state_of_name(s@),
    {
        let t = s.to_owned();
        if t == String::from_str("New") {
            Some(TicketState::New)
        } else if t == String::from_str("InProgress") {
            Some(TicketState::InProgress)
        } else if t == String::from_str("Completed") {
            Some(TicketState::Completed)
        } else if t == String::from_str("Paused") {
            Some(TicketState::Paused)
        } else {
            None
        }
    }
}

/// Every state's name parses back to that state.
pub proof fn lemma_state_name_round_trip(s: TicketState)
    ensures
        spec_state_of_name(spec_state_name(s)) == Some(s),
{
    reveal_strlit("New");
    reveal_strlit("InProgress");
    reveal_strlit("Completed");
    reveal_strlit("Paused");
    assert("New"@.len() == 3);
    assert("InProgress"@.len() == 10);
    assert("Completed"@.len() == 9);
    assert("Paused"@.len() == 6);
}

/// Legality holds exactly on the four edges of the lifecycle graph and on no
/// other ordered pair of the four states.
pub proof fn lemma_transition_edges(from: TicketState, to: TicketState)
    ensures
        spec_can_transition(from, to) <==> ((from == TicketState::New && to
            == TicketState::InProgress) || (from == TicketState::InProgress && to
            == TicketState::Paused) || (from == TicketState::InProgress && to
            == TicketState::Completed) || (from == TicketState::Paused && to
            == TicketState::InProgress)),
{
}

/// A character the generator may emit: a lowercase hex digit or a hyphen.
pub open spec fn uuid_char(c: char) -> bool {
    ('0' <= c && c <= '9') || ('a' <= c && c <= 'f') || c == '-'
}

/// The shape of a generated ticket identifier: the 36-character hyphenated
/// form, drawn from an alphabet that excludes the composite-id separator.
pub open spec fn uuid_formatted(s: Seq<char>) -> bool {
    s.len() == 36 && (forall|i: int| 0 <= i < s.len() ==> uuid_char(#[trigger] s[i]))
}

/// A generated identifier component never contains the composite-id
/// separator: its alphabet excludes '_'.
pub proof fn lemma_uuid_no_separator(s: Seq<char>)
    requires
        uuid_formatted(s),
    ensures
        forall|i: int| 0 <= i < s.len() ==> s[i] != '_',
{
}

/// Relies on uuid::Uuid::new_v4 and its Display impl: the hyphenated
/// lowercase encoding, 36 characters, each a hex digit or '-'.
#[verifier::external_body]
fn fresh_ticket_uuid() -> (r: String)
    ensures
        uuid_formatted(r@),
{
    uuid::Uuid::new_v4().to_string()
}

/// Mathematical model of a ticket record.
pub ghost struct TicketView {
    pub ticket_uuid: Seq<char>,
    pub user_uuid: Seq<char>,
    pub name: Seq<char>,
    pub state: TicketState,
    pub priority: Seq<char>,
    pub description: Seq<char>,
    pub source_file: Seq<char>,
    pub delivery: Option<Seq<char>>,
}

/// A unit of trackable work. Identity is the pair (`user_uuid`,
/// `ticket_uuid`); both are immutable after creation.
pub struct Ticket {
    pub ticket_uuid: String,
    pub user_uuid: String,
    pub name: String,
    pub state: TicketState,
    pub priority: String,
    pub description: String,
    pub source_file: String,
    pub delivery: Option<String>,
}

impl View for Ticket {
    type V = TicketView;

    open spec fn view(&self) -> TicketView {
        TicketView {
            ticket_uuid: self.ticket_uuid@,
            user_uuid: self.user_uuid@,
            name: self.name@,
            state: self.state,
            priority: self.priority@,
            description: self.description@,
            source_file: self.source_file@,
            delivery: self.delivery.deep_view(),
        }
    }
}

/// The externally visible identifier: owner, separator, generated component.
pub open spec fn spec_composite_id(t: TicketView) -> Seq<char> {
    t.user_uuid + "_"@ + t.ticket_uuid
}

impl Ticket {
    /// Creates a ticket with a freshly generated identifier component; the
    /// state is always `New` and no delivery reference is set.
    pub fn new(
        user_uuid: String,
        name: String,
        description: String,
        priority: String,
        source_file: String,
    ) -> (t: Ticket)
        ensures
            t@.user_uuid == user_uuid@,
            t@.name == name@,
            t@.description == description@,
            t@.priority == priority@,
            t@.source_file == source_file@,
            t@.state == TicketState::New,
            t@.delivery is None,
            uuid_formatted(t@.ticket_uuid),
    {
        Ticket {
            user_uuid,
            ticket_uuid: fresh_ticket_uuid(),
            name,
            state: TicketState::New,
            priority,
            description,
            source_file,
            delivery: None,
        }
    }

    /// The composite identifier `user_uuid + "_" + ticket_uuid`.
    pub fn get_id(&self) -> (r: String)
        ensures
            r@ == spec_composite_id(self@),
    {
        self.user_uuid.clone().concat("_").concat(self.ticket_uuid.as_str())
    }

    /// Whether moving this ticket to `new_state` is a legal edge of the
    /// lifecycle graph.
    pub fn can_transition_to(&self, new_state: &TicketState) -> (r: bool)
        ensures
            r == spec_can_transition(self.state, *new_state),
    {
        match (self.state, *new_state) {
            (TicketState::New, TicketState::InProgress) => true,
            (TicketState::InProgress, TicketState::Paused) => true,
            (TicketState::InProgress, TicketState::Completed) => true,
            (TicketState::Paused, TicketState::InProgress) => true,
            _ => false,
        }
    }
}

impl Clone for Ticket {
    fn clone(&self) -> (r: Self)
        ensures
            r@ == self@,
    {
        Ticket {
            ticket_uuid: self.ticket_uuid.clone(),
            user_uuid: self.user_uuid.clone(),
            name: self.name.clone(),
            state: self.state,
            priority: self.priority.clone(),
            description: self.description.clone(),
            source_file: self.source_file.clone(),
            delivery: match &self.delivery {
                Some(d) => Some(d.clone()),
                None => None,
            },
        }
    }
}

} // verus!
