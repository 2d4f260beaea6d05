use std::collections::HashMap;

use ticket_service::api::{
    create_ticket, creation_outcome, lookup_outcome, state_transition, update_outcome,
    SendTicketRequest, TicketCompletionRequest, TicketError,
};
use ticket_service::ddb::{
    item_to_ticket, item_value, required_item_value, split_ticket_id, ticket_to_item, DDBError,
    StoreItem,
};
use ticket_service::model::{Ticket, TicketState};

fn sample_ticket(user: &str) -> Ticket {
    Ticket::new(
        user.to_string(),
        "paint fence".to_string(),
        "white, two coats".to_string(),
        "high".to_string(),
        "fence.txt".to_string(),
    )
}

fn tickets_equal(a: &Ticket, b: &Ticket) -> bool {
    a.user_uuid == b.user_uuid
        && a.ticket_uuid == b.ticket_uuid
        && a.name == b.name
        && a.state == b.state
        && a.priority == b.priority
        && a.description == b.description
        && a.source_file == b.source_file
        && a.delivery == b.delivery
}

#[test]
fn create_yields_new_state_and_no_delivery() {
    let t = sample_ticket("u1");
    assert_eq!(t.state, TicketState::New);
    assert_eq!(t.delivery, None);
    assert_eq!(t.user_uuid, "u1");
    assert_eq!(t.name, "paint fence");
    assert_eq!(t.description, "white, two coats");
    assert_eq!(t.priority, "high");
    assert_eq!(t.source_file, "fence.txt");
}

#[test]
fn create_from_request_carries_the_request_fields() {
    let t = create_ticket(SendTicketRequest {
        user_id: "u9".to_string(),
        name: "mow lawn".to_string(),
        description: "front and back".to_string(),
        priority: "low".to_string(),
        source_file: "lawn.txt".to_string(),
    });
    assert_eq!(t.user_uuid, "u9");
    assert_eq!(t.name, "mow lawn");
    assert_eq!(t.description, "front and back");
    assert_eq!(t.priority, "low");
    assert_eq!(t.source_file, "lawn.txt");
    assert_eq!(t.state, TicketState::New);
    assert_eq!(t.delivery, None);
}

#[test]
fn generated_identifier_avoids_separator() {
    for _ in 0..16 {
        let t = sample_ticket("u1");
        assert_eq!(t.ticket_uuid.chars().count(), 36);
        assert!(t
            .ticket_uuid
            .chars()
            .all(|c| c.is_ascii_hexdigit() && !c.is_uppercase() || c == '-'));
        assert!(!t.ticket_uuid.contains('_'));
    }
}

#[test]
fn transition_table_has_exactly_four_edges() {
    let states = [
        TicketState::New,
        TicketState::InProgress,
        TicketState::Completed,
        TicketState::Paused,
    ];
    let legal = [
        (TicketState::New, TicketState::InProgress),
        (TicketState::InProgress, TicketState::Paused),
        (TicketState::InProgress, TicketState::Completed),
        (TicketState::Paused, TicketState::InProgress),
    ];
    for &from in &states {
        for &to in &states {
            let mut t = sample_ticket("u1");
            t.state = from;
            let expected = legal.contains(&(from, to));
            assert_eq!(t.can_transition_to(&to), expected, "{:?} -> {:?}", from, to);
        }
    }
}

#[test]
fn state_names_round_trip() {
    let cases = [
        (TicketState::New, "New"),
        (TicketState::InProgress, "InProgress"),
        (TicketState::Completed, "Completed"),
        (TicketState::Paused, "Paused"),
    ];
    for (state, name) in cases {
        assert_eq!(state.name(), name);
        assert_eq!(TicketState::from_name(name), Some(state));
    }
    assert_eq!(TicketState::from_name("Unknown"), None);
    assert_eq!(TicketState::from_name(""), None);
    assert_eq!(TicketState::from_name("new"), None);
}

#[test]
fn composite_id_concatenates_with_separator() {
    let t = sample_ticket("u1");
    let id = t.get_id();
    assert_eq!(id, format!("u1_{}", t.ticket_uuid));
    assert!(id.starts_with("u1_"));
}

#[test]
fn split_recovers_both_components() {
    assert_eq!(
        split_ticket_id("u1_abc"),
        Some(("u1".to_string(), "abc".to_string()))
    );
    // The split takes the first separator occurrence.
    assert_eq!(
        split_ticket_id("a_b_c"),
        Some(("a".to_string(), "b_c".to_string()))
    );
    assert_eq!(
        split_ticket_id("_x"),
        Some(("".to_string(), "x".to_string()))
    );
    assert_eq!(split_ticket_id("nounderscore"), None);
    assert_eq!(split_ticket_id(""), None);
    let t = sample_ticket("owner");
    assert_eq!(
        split_ticket_id(&t.get_id()),
        Some(("owner".to_string(), t.ticket_uuid.clone()))
    );
}

#[test]
fn item_lookup_takes_first_match() {
    let item = StoreItem {
        attrs: vec![
            ("k".to_string(), "first".to_string()),
            ("k".to_string(), "second".to_string()),
        ],
    };
    assert_eq!(item_value("k", &item), Some("first".to_string()));
    assert_eq!(item_value("missing", &item), None);
    assert_eq!(required_item_value("k", &item), Ok("first".to_string()));
    assert_eq!(required_item_value("missing", &item), Err(DDBError));
}

#[test]
fn encoded_item_carries_every_field() {
    let mut t = sample_ticket("u1");
    t.delivery = Some("d1".to_string());
    t.state = TicketState::Completed;
    let item = ticket_to_item(&t);
    assert_eq!(item_value("pK", &item), Some("u1".to_string()));
    assert_eq!(item_value("sK", &item), Some(t.ticket_uuid.clone()));
    assert_eq!(item_value("name", &item), Some("paint fence".to_string()));
    assert_eq!(item_value("state", &item), Some("Completed".to_string()));
    assert_eq!(item_value("priority", &item), Some("high".to_string()));
    assert_eq!(
        item_value("description", &item),
        Some("white, two coats".to_string())
    );
    assert_eq!(item_value("source_file", &item), Some("fence.txt".to_string()));
    assert_eq!(item_value("delivery", &item), Some("d1".to_string()));
}

#[test]
fn absent_delivery_is_not_written() {
    let t = sample_ticket("u1");
    let item = ticket_to_item(&t);
    assert_eq!(item_value("delivery", &item), None);
    assert_eq!(item.attrs.len(), 7);
}

#[test]
fn item_round_trip_preserves_every_field() {
    let mut t = sample_ticket("u1");
    t.state = TicketState::Completed;
    t.delivery = Some("d1".to_string());
    let back = item_to_ticket(&ticket_to_item(&t)).ok().unwrap();
    assert!(tickets_equal(&t, &back));
}

#[test]
fn item_round_trip_maps_absent_delivery_to_none() {
    let t = sample_ticket("u1");
    let back = item_to_ticket(&ticket_to_item(&t)).ok().unwrap();
    assert!(tickets_equal(&t, &back));
    assert_eq!(back.delivery, None);
}

#[test]
fn decode_rejects_missing_required_field() {
    let t = sample_ticket("u1");
    let item = ticket_to_item(&t);
    for required in ["pK", "sK", "name", "state", "priority", "description", "source_file"] {
        let mut broken = StoreItem { attrs: item.attrs.clone() };
        broken.attrs.retain(|(k, _)| k != required);
        assert!(
            matches!(item_to_ticket(&broken), Err(DDBError)),
            "decode survived a missing {}",
            required
        );
    }
}

#[test]
fn decode_rejects_unknown_state_name() {
    let t = sample_ticket("u1");
    let mut item = ticket_to_item(&t);
    for attr in item.attrs.iter_mut() {
        if attr.0 == "state" {
            attr.1 = "Cancelled".to_string();
        }
    }
    assert!(matches!(item_to_ticket(&item), Err(DDBError)));
}

#[test]
fn lookup_outcome_maps_absence_to_not_found() {
    assert!(matches!(
        lookup_outcome(None),
        Err(TicketError::TicketNotFound)
    ));
    let t = sample_ticket("u1");
    let name = t.name.clone();
    match lookup_outcome(Some(t)) {
        Ok(got) => assert_eq!(got.name, name),
        Err(_) => panic!("a loaded ticket must pass through"),
    }
}

#[test]
fn transition_on_nonexistent_ticket_is_not_found() {
    let r = state_transition(None, TicketState::InProgress, None);
    assert!(matches!(r, Err(TicketError::TicketNotFound)));
    assert_eq!(TicketError::TicketNotFound.status_code(), 404);
}

#[test]
fn complete_on_new_is_invalid_transition() {
    let t = sample_ticket("u1");
    let r = state_transition(Some(t), TicketState::Completed, Some("d1".to_string()));
    match r {
        Err(TicketError::BadTicketRequest) => {}
        Err(other) => panic!("wrong error: {:?}", other),
        Ok(_) => panic!("an illegal transition must fail"),
    }
    assert_eq!(TicketError::BadTicketRequest.status_code(), 400);
}

#[test]
fn write_outcomes_map_store_failures() {
    let t = sample_ticket("u1");
    let id = t.get_id();
    match update_outcome(Ok(()), &t) {
        Ok(got) => assert_eq!(got.ticket_id, id),
        Err(_) => panic!("a successful write must yield the identifier"),
    }
    assert!(matches!(
        update_outcome(Err(DDBError), &t),
        Err(TicketError::TicketUpdateFailure)
    ));
    match creation_outcome(Ok(()), &t) {
        Ok(got) => assert_eq!(got.ticket_id, id),
        Err(_) => panic!("a successful write must yield the identifier"),
    }
    assert!(matches!(
        creation_outcome(Err(DDBError), &t),
        Err(TicketError::TicketCreationFailure)
    ));
    assert_eq!(TicketError::TicketUpdateFailure.status_code(), 424);
    assert_eq!(TicketError::TicketCreationFailure.status_code(), 424);
}

/// An in-memory stand-in for the backing store's single table: point lookups
/// and unconditionally overwriting writes under the (owner, ticket) key.
struct FakeTable {
    rows: HashMap<(String, String), Vec<(String, String)>>,
}

impl FakeTable {
    fn new() -> FakeTable {
        FakeTable { rows: HashMap::new() }
    }

    fn put(&mut self, ticket: &Ticket) {
        let item = ticket_to_item(ticket);
        self.rows.insert(
            (ticket.user_uuid.clone(), ticket.ticket_uuid.clone()),
            item.attrs,
        );
    }

    fn get(&self, composite_id: &str) -> Option<Ticket> {
        let (user, ticket) = split_ticket_id(composite_id)?;
        let attrs = self.rows.get(&(user, ticket))?.clone();
        item_to_ticket(&StoreItem { attrs }).ok()
    }
}

#[test]
fn lifecycle_scenario_for_one_owner() {
    let mut table = FakeTable::new();

    // Create a ticket for owner "u1": the returned identifier is
    // "u1_" followed by the generated component.
    let t = sample_ticket("u1");
    table.put(&t);
    let id = match creation_outcome(Ok(()), &t) {
        Ok(ident) => ident.ticket_id,
        Err(_) => panic!("creation must succeed"),
    };
    assert_eq!(id, format!("u1_{}", t.ticket_uuid));

    // Start it: the state becomes InProgress.
    let started = state_transition(table.get(&id), TicketState::InProgress, None).unwrap();
    assert_eq!(started.state, TicketState::InProgress);
    table.put(&started);

    // Pause it: the state becomes Paused.
    let paused = state_transition(table.get(&id), TicketState::Paused, None).unwrap();
    assert_eq!(paused.state, TicketState::Paused);
    table.put(&paused);

    // Start it again: back to InProgress.
    let restarted = state_transition(table.get(&id), TicketState::InProgress, None).unwrap();
    assert_eq!(restarted.state, TicketState::InProgress);
    table.put(&restarted);

    // Complete it with delivery "d1".
    let completion = TicketCompletionRequest { delivery: "d1".to_string() };
    let completed = state_transition(
        table.get(&id),
        TicketState::Completed,
        Some(completion.delivery.clone()),
    )
    .unwrap();
    assert_eq!(completed.state, TicketState::Completed);
    assert_eq!(completed.delivery, Some("d1".to_string()));
    table.put(&completed);

    // The stored record reads back completed, with the delivery reference.
    let stored = table.get(&id).unwrap();
    assert_eq!(stored.state, TicketState::Completed);
    assert_eq!(stored.delivery, Some("d1".to_string()));

    // Pausing a completed ticket fails as an illegal transition.
    let r = state_transition(table.get(&id), TicketState::Paused, None);
    assert!(matches!(r, Err(TicketError::BadTicketRequest)));
}

#[test]
fn store_round_trip_by_composite_identifier() {
    let mut table = FakeTable::new();
    let mut t = sample_ticket("owner-7");
    t.state = TicketState::Completed;
    t.delivery = Some("result.zip".to_string());
    table.put(&t);
    let back = table.get(&t.get_id()).unwrap();
    assert!(tickets_equal(&t, &back));
}

#[test]
fn writing_twice_leaves_one_item_with_the_same_value() {
    let mut table = FakeTable::new();
    let t = sample_ticket("u1");
    table.put(&t);
    let single = table.rows.clone();
    table.put(&t);
    assert_eq!(table.rows.len(), 1);
    assert_eq!(table.rows, single);
}
