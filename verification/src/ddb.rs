//! The repository mapping: tickets to and from the key-value item
//! representation of the backing store, and the composite-identifier split.
//!
//! The store itself is an outside collaborator reached from the surrounding
//! binary; this module owns everything the mapping decides: which attributes
//! an item carries, when a stored item decodes to a ticket, and how the
//! externally visible identifier splits back into the item's key.

use vstd::prelude::*;
use crate::model::{Ticket, TicketState, TicketView, spec_state_name, spec_state_of_name};

verus! {

/// Opaque repository error: the store rejected or failed a write, or an item
/// could not be read as a ticket.
#[derive(Clone, Copy, PartialEq, Eq, Structural, Debug)]
pub struct DDBError;

/// A stored item: a string-keyed list of string attributes, looked up by the
/// first occurrence of a key.
pub struct StoreItem {
    pub attrs: Vec<(String, String)>,
}

impl View for StoreItem {
    type V = Seq<(Seq<char>, Seq<char>)>;

    open spec fn view(&self) -> Seq<(Seq<char>, Seq<char>)> {
        self.attrs.deep_view()
    }
}

/// The value under `key`, taking the first attribute whose key matches.
pub open spec fn spec_lookup(attrs: Seq<(Seq<char>, Seq<char>)>, key: Seq<char>) -> Option<
    Seq<char>,
>
    decreases attrs.len(),
{
    if attrs.len() == 0 {
        None
    } else if attrs[0].0 == key {
        Some(attrs[0].1)
    } else {
        spec_lookup(attrs.drop_first(), key)
    }
}

proof fn lemma_lookup_skip(attrs: Seq<(Seq<char>, Seq<char>)>, key: Seq<char>, i: int)
    requires
        0 <= i <= attrs.len(),
        forall|j: int| 0 <= j < i ==> (#[trigger] attrs[j]).0 != key,
    ensures
        spec_lookup(attrs, key) == spec_lookup(attrs.skip(i), key),
    decreases i,
{
    if i > 0 {
        assert(attrs[0].0 != key);
        assert(forall|j: int|
            0 <= j < i - 1 ==> (#[trigger] attrs.drop_first()[j]).0 == attrs[j + 1].0);
        lemma_lookup_skip(attrs.drop_first(), key, i - 1);
        assert(attrs.drop_first().skip(i - 1) =~= attrs.skip(i));
    } else {
        assert(attrs.skip(0) =~= attrs);
    }
}

proof fn lemma_lookup_at(attrs: Seq<(Seq<char>, Seq<char>)>, key: Seq<char>, k: int)
    requires
        0 <= k < attrs.len(),
        attrs[k].0 == key,
        forall|j: int| 0 <= j < k ==> (#[trigger] attrs[j]).0 != key,
    ensures
        spec_lookup(attrs, key) == Some(attrs[k].1),
{
    lemma_lookup_skip(attrs, key, k);
    assert(attrs.skip(k)[0] == attrs[k]);
}

proof fn lemma_lookup_none(attrs: Seq<(Seq<char>, Seq<char>)>, key: Seq<char>)
    requires
        forall|j: int| 0 <= j < attrs.len() ==> (#[trigger] attrs[j]).0 != key,
    ensures
        spec_lookup(attrs, key) is None,
{
    lemma_lookup_skip(attrs, key, attrs.len() as int);
}

/// The attribute under `key`, or `None` when the item has no such attribute.
pub fn item_value(key: &str, item: &StoreItem) -> (r: Option<String>)
    ensures
        r.deep_view() == spec_lookup(item@, key@),
{
    let k: String = key.to_owned();
    let n = item.attrs.len();
    let mut i: usize = 0;
    while i < n
        invariant
            n == item.attrs.len(),
            i <= n,
            k@ == key@,
            forall|j: int| 0 <= j < i ==> (#[trigger] item@[j]).0 != key@,
        decreases n - i,
    {
        if item.attrs[i].0 == k {
            proof {
                lemma_lookup_at(item@, key@, i as int);
            }
            return Some(item.attrs[i].1.clone());
        }
        i += 1;
    }
    proof {
        lemma_lookup_none(item@, key@);
    }
    None
}

/// The attribute under `key`; a missing attribute is the decode error.
pub fn required_item_value(key: &str, item: &StoreItem) -> (r: Result<String, DDBError>)
    ensures
        match r {
            Ok(v) => spec_lookup(item@, key@) == Some(v@),
            Err(_) => spec_lookup(item@, key@) is None,
        },
{
    match item_value(key, item) {
        Some(value) => Ok(value),
        None => Err(DDBError),
    }
}

/// The ticket a stored item denotes: every required attribute present and the
/// state a known variant, or nothing.
pub open spec fn spec_decode(item: Seq<(Seq<char>, Seq<char>)>) -> Option<TicketView> {
    match (
        spec_lookup(item, "pK"@),
        spec_lookup(item, "sK"@),
        spec_lookup(item, "name"@),
        spec_lookup(item, "state"@),
        spec_lookup(item, "priority"@),
        spec_lookup(item, "description"@),
        spec_lookup(item, "source_file"@),
    ) {
        (
            Some(user_uuid),
            Some(ticket_uuid),
            Some(name),
            Some(state_name),
            Some(priority),
            Some(description),
            Some(source_file),
        ) => match spec_state_of_name(state_name) {
            Some(state) => Some(
                TicketView {
                    user_uuid,
                    ticket_uuid,
                    name,
                    state,
                    priority,
                    description,
                    source_file,
                    delivery: spec_lookup(item, "delivery"@),
                },
            ),
            None => None,
        },
        _ => None,
    }
}

/// Decodes a stored item into a ticket; any missing required attribute or an
/// unknown state name degrades to the decode error.
pub fn item_to_ticket(item: &StoreItem) -> (r: Result<Ticket, DDBError>)
    ensures
        match r {
            Ok(t) => spec_decode(item@) == Some(t@),
            Err(_) => spec_decode(item@) is None,
        },
{
    let state_name = match required_item_value("state", item) {
        Ok(value) => value,
        Err(_) => {
            return Err(DDBError);
        },
    };
    let state = match TicketState::from_name(state_name.as_str()) {
        Some(value) => value,
        None => {
            return Err(DDBError);
        },
    };
    let delivery = item_value("delivery", item);
    let user_uuid = match required_item_value("pK", item) {
        Ok(value) => value,
        Err(_) => {
            return Err(DDBError);
        },
    };
    let ticket_uuid = match required_item_value("sK", item) {
        Ok(value) => value,
        Err(_) => {
            return Err(DDBError);
        },
    };
    let name = match required_item_value("name", item) {
        Ok(value) => value,
        Err(_) => {
            return Err(DDBError);
        },
    };
    let priority = match required_item_value("priority", item) {
        Ok(value) => value,
        Err(_) => {
            return Err(DDBError);
        },
    };
    let description = match required_item_value("description", item) {
        Ok(value) => value,
        Err(_) => {
            return Err(DDBError);
        },
    };
    let source_file = match required_item_value("source_file", item) {
        Ok(value) => value,
        Err(_) => {
            return Err(DDBError);
        },
    };
    Ok(
        Ticket {
            user_uuid,
            ticket_uuid,
            name,
            state,
            priority,
            description,
            source_file,
            delivery,
        },
    )
}

/// The item under which a ticket is stored: its key attributes, its plain
/// attributes, its state under the state's name, and the delivery reference
/// only when one is set.
pub open spec fn spec_encode(t: TicketView) -> Seq<(Seq<char>, Seq<char>)> {
    let base = seq![
        ("pK"@, t.user_uuid),
        ("sK"@, t.ticket_uuid),
        ("name"@, t.name),
        ("state"@, spec_state_name(t.state)),
        ("priority"@, t.priority),
        ("description"@, t.description),
        ("source_file"@, t.source_file),
    ];
    match t.delivery {
        Some(d) => base.push(("delivery"@, d)),
        None => base,
    }
}

/// Encodes a ticket as the item written to the store.
pub fn ticket_to_item(ticket: &Ticket) -> (item: StoreItem)
    ensures
        item@ == spec_encode(ticket@),
{
    let mut attrs: Vec<(String, String)> = Vec::new();
    attrs.push((String::from_str("pK"), ticket.user_uuid.clone()));
    attrs.push((String::from_str("sK"), ticket.ticket_uuid.clone()));
    attrs.push((String::from_str("name"), ticket.name.clone()));
    attrs.push((String::from_str("state"), ticket.state.name()));
    attrs.push((String::from_str("priority"), ticket.priority.clone()));
    attrs.push((String::from_str("description"), ticket.description.clone()));
    attrs.push((String::from_str("source_file"), ticket.source_file.clone()));
    match &ticket.delivery {
        Some(d) => {
            attrs.push((String::from_str("delivery"), d.clone()));
        },
        None => {},
    }
    let item = StoreItem { attrs };
    proof {
        assert(item@ =~~= spec_encode(ticket@));
    }
    item
}

/// The split of a composite identifier on the first separator occurrence.
pub open spec fn spec_split_id(s: Seq<char>) -> Option<(Seq<char>, Seq<char>)> {
    match s.index_of_first('_') {
        Some(i) => Some((s.take(i), s.skip(i + 1))),
        None => None,
    }
}

/// Splits a composite identifier into its owner and ticket components on the
/// first separator occurrence; `None` when no separator occurs.
pub fn split_ticket_id(ticket_id: &str) -> (r: Option<(String, String)>)
    ensures
        r.deep_view() == spec_split_id(ticket_id@),
{
    let n = ticket_id.unicode_len();
    let mut i: usize = 0;
    while i < n
        invariant
            n == ticket_id@.len(),
            i <= n,
            forall|j: int| 0 <= j < i ==> ticket_id@[j] != '_',
        decreases n - i,
    {
        let c = ticket_id.get_char(i);
        if c == '_' {
            let user = ticket_id.substring_char(0, i);
            let rest = ticket_id.substring_char(i + 1, n);
            proof {
                assert(ticket_id@.contains('_')) by {
                    assert(ticket_id@[i as int] == '_');
                }
                ticket_id@.index_of_first_ensures('_');
                match ticket_id@.index_of_first('_') {
                    Some(idx) => {
                        if idx < i as int {
                            assert(ticket_id@[idx] != '_');
                        }
                        assert(idx == i as int);
                        assert(ticket_id@.take(i as int) =~= user@);
                        assert(ticket_id@.skip(i as int + 1) =~= rest@);
                    },
                    None => {
                        assert(false);
                    },
                }
            }
            return Some((user.to_owned(), rest.to_owned()));
        }
        i += 1;
    }
    proof {
        ticket_id@.index_of_first_ensures('_');
        match ticket_id@.index_of_first('_') {
            Some(idx) => {
                assert(ticket_id@[idx] != '_');
            },
            None => {},
        }
    }
    None
}

/// The store modeled as the single-table record layout: a map from the
/// (owner, ticket) key to the stored item.
pub type StoreModel = Map<(Seq<char>, Seq<char>), Seq<(Seq<char>, Seq<char>)>>;

/// The key under which a ticket is stored.
pub open spec fn spec_store_key(t: TicketView) -> (Seq<char>, Seq<char>) {
    (t.user_uuid, t.ticket_uuid)
}

/// A write: the item is placed under the ticket's key, unconditionally
/// overwriting any item already there.
pub open spec fn spec_store_put(store: StoreModel, t: TicketView) -> StoreModel {
    store.insert(spec_store_key(t), spec_encode(t))
}

proof fn lemma_attribute_keys_distinct()
    ensures
        "pK"@ != "sK"@,
        "pK"@ != "name"@ && "sK"@ != "name"@,
        "pK"@ != "state"@ && "sK"@ != "state"@ && "name"@ != "state"@,
        "pK"@ != "priority"@ && "sK"@ != "priority"@ && "name"@ != "priority"@ && "state"@
            != "priority"@,
        "pK"@ != "description"@ && "sK"@ != "description"@ && "name"@ != "description"@ && "state"@
            != "description"@ && "priority"@ != "description"@,
        "pK"@ != "source_file"@ && "sK"@ != "source_file"@ && "name"@ != "source_file"@ && "state"@
            != "source_file"@ && "priority"@ != "source_file"@ && "description"@
            != "source_file"@,
        "pK"@ != "delivery"@ && "sK"@ != "delivery"@ && "name"@ != "delivery"@ && "state"@
            != "delivery"@ && "priority"@ != "delivery"@ && "description"@ != "delivery"@
            && "source_file"@ != "delivery"@,
{
    reveal_strlit("pK");
    reveal_strlit("sK");
    reveal_strlit("name");
    reveal_strlit("state");
    reveal_strlit("priority");
    reveal_strlit("description");
    reveal_strlit("source_file");
    reveal_strlit("delivery");
    assert("pK"@.len() == 2 && "pK"@[0] == 'p');
    assert("sK"@.len() == 2 && "sK"@[0] == 's');
    assert("name"@.len() == 4);
    assert("state"@.len() == 5);
    assert("priority"@.len() == 8 && "priority"@[0] == 'p');
    assert("delivery"@.len() == 8 && "delivery"@[0] == 'd');
    assert("description"@.len() == 11 && "description"@[0] == 'd');
    assert("source_file"@.len() == 11 && "source_file"@[0] == 's');
}

/// Encoding a ticket and decoding the resulting item yields the ticket back,
/// an absent delivery reference mapping back to `None`.
pub proof fn lemma_codec_round_trip(t: TicketView)
    ensures
        spec_decode(spec_encode(t)) == Some(t),
{
    lemma_attribute_keys_distinct();
    crate::model::lemma_state_name_round_trip(t.state);
    let e = spec_encode(t);
    lemma_lookup_at(e, "pK"@, 0);
    lemma_lookup_at(e, "sK"@, 1);
    lemma_lookup_at(e, "name"@, 2);
    lemma_lookup_at(e, "state"@, 3);
    lemma_lookup_at(e, "priority"@, 4);
    lemma_lookup_at(e, "description"@, 5);
    lemma_lookup_at(e, "source_file"@, 6);
    match t.delivery {
        Some(d) => {
            lemma_lookup_at(e, "delivery"@, 7);
        },
        None => {
            lemma_lookup_none(e, "delivery"@);
        },
    }
}

/// Splitting a composite identifier on the first separator recovers the
/// owner and ticket components, provided the owner component is free of the
/// separator (the generated ticket component always is).
pub proof fn lemma_composite_id_split(t: TicketView)
    requires
        forall|i: int| 0 <= i < t.user_uuid.len() ==> t.user_uuid[i] != '_',
    ensures
        spec_split_id(crate::model::spec_composite_id(t)) == Some((t.user_uuid, t.ticket_uuid)),
{
    reveal_strlit("_");
    let id = crate::model::spec_composite_id(t);
    let u = t.user_uuid.len() as int;
    assert("_"@.len() == 1);
    assert(id[u] == '_');
    assert(id.contains('_')) by {
        assert(id[u] == '_');
    }
    id.index_of_first_ensures('_');
    match id.index_of_first('_') {
        Some(idx) => {
            if idx < u {
                assert(id[idx] == t.user_uuid[idx]);
                assert(false);
            }
            if idx > u {
                assert(id[u] != '_');
                assert(false);
            }
            assert(id.take(u) =~= t.user_uuid);
            assert(id.skip(u + 1) =~= t.ticket_uuid);
        },
        None => {
            assert(false);
        },
    }
}

/// Writing a ticket and reading it back under its composite identifier yields
/// a record equal in every field: the identifier splits back into the
/// ticket's key, the key is present after the write, and the item under it
/// decodes to the written ticket.
pub proof fn lemma_store_round_trip(store: StoreModel, t: TicketView)
    requires
        forall|i: int| 0 <= i < t.user_uuid.len() ==> t.user_uuid[i] != '_',
    ensures
        spec_split_id(crate::model::spec_composite_id(t)) == Some((t.user_uuid, t.ticket_uuid)),
        spec_store_put(store, t).contains_key(spec_store_key(t)),
        spec_decode(spec_store_put(store, t)[spec_store_key(t)]) == Some(t),
{
    lemma_composite_id_split(t);
    lemma_codec_round_trip(t);
}

/// Writing the same ticket twice leaves the same terminal store value as
/// writing it once: the second write overwrites the item under the same key
/// and duplicates nothing.
pub proof fn lemma_put_twice_same_terminal(store: StoreModel, t: TicketView)
    ensures
        spec_store_put(spec_store_put(store, t), t) == spec_store_put(store, t),
{
    assert(spec_store_put(spec_store_put(store, t), t) =~= spec_store_put(store, t));
}

} // verus!
