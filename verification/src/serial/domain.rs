//! Domains as JSON.

use crate::serial::fields::{
    decode_text, encode_list, field_i32, field_list, field_text, field_value, fits_i32, get_i32,
    get_list, get_text, get_value, lemma_list_round_trip, lemma_object_field, list_to_value, put,
    writable_list, JsonCodec,
};
use crate::serial::tree::{
    as_str, field_trees, json_int, json_object, json_text, json_tree, object, JsonTree,
};
use crate::structure::common::{DocumentReference, DocumentReferenceView};
use crate::structure::data::VType;
use crate::structure::domain::{
    Attribute, AttributeView, Domain, DomainView, Entity, EntityView, Events, EventsView, Reference,
    ReferenceType, ReferenceView, Validation, ValidationView,
};
use crate::util::naming::{hyphenated_form, hyphenated_text, parse_uuid, parsed_uuid, uuid_bytes};
use crate::util::text::same_text;
use serde_json::Value;
use uuid::Uuid;
use vstd::prelude::*;

verus! {

/// Whether an identifier reads back from the text it is written as.
pub open spec fn uuid_readable(id: Uuid) -> bool {
    parsed_uuid(hyphenated_form(uuid_bytes(id))) == Some(id)
}

/// The identifier under a key: a text that reads as one.
pub open spec fn field_uuid(t: JsonTree, key: Seq<char>) -> Option<Uuid> {
    match field_text(t, key) {
        Some(text) => parsed_uuid(text),
        None => None,
    }
}

/// Writes an identifier as its hyphenated text.
pub fn uuid_to_value(id: &Uuid) -> (v: Value)
    ensures
        json_tree(v) == JsonTree::Text(hyphenated_form(uuid_bytes(*id))),
        uuid_readable(*id),
{
    let text = hyphenated_text(id);
    json_text(text.as_str())
}

/// Reads the identifier under a key.
pub fn get_uuid(v: &Value, key: &str) -> (r: Option<Uuid>)
    ensures
        r == field_uuid(json_tree(*v), key@),
{
    match get_text(v, key) {
        Some(text) => match parse_uuid(text.as_str()) {
            Ok(id) => Some(id),
            Err(_) => None,
        },
        None => None,
    }
}

impl JsonCodec for DocumentReference {
    open spec fn writable(v: DocumentReferenceView) -> bool {
        uuid_readable(v.id)
    }

    open spec fn encode(v: DocumentReferenceView) -> JsonTree {
        object(
            seq![
                ("id"@, JsonTree::Text(hyphenated_form(uuid_bytes(v.id)))),
                ("doctype"@, JsonTree::Text(v.doctype)),
            ],
        )
    }

    open spec fn decode(t: JsonTree) -> Option<DocumentReferenceView> {
        match (field_uuid(t, "id"@), field_text(t, "doctype"@)) {
            (Some(id), Some(doctype)) => Some(DocumentReferenceView { id, doctype }),
            _ => None,
        }
    }

    proof fn lemma_round_trip(v: DocumentReferenceView) {
        reveal_strlit("id");
        reveal_strlit("doctype");
        assert("id"@.len() == 2 && "doctype"@.len() == 7);
        let fields = seq![
            ("id"@, JsonTree::Text(hyphenated_form(uuid_bytes(v.id)))),
            ("doctype"@, JsonTree::Text(v.doctype)),
        ];
        lemma_object_field(fields, 0);
        lemma_object_field(fields, 1);
    }

    fn to_value(&self) -> (v: Value) {
        let mut fields: Vec<(String, Value)> = Vec::new();
        put(&mut fields, "id", uuid_to_value(&self.id));
        put(&mut fields, "doctype", json_text(self.doctype.as_str()));
        assert(field_trees(fields@) =~= seq![
            ("id"@, JsonTree::Text(hyphenated_form(uuid_bytes(self@.id)))),
            ("doctype"@, JsonTree::Text(self@.doctype)),
        ]);
        json_object(fields)
    }

    fn from_value(v: &Value) -> (r: Option<Self>) {
        match (get_uuid(v, "id"), get_text(v, "doctype")) {
            (Some(id), Some(doctype)) => Some(DocumentReference { id, doctype }),
            _ => None,
        }
    }
}

/// The fields that the events of a domain are written with.
pub open spec fn events_fields(v: EventsView) -> Seq<(Seq<char>, JsonTree)> {
    seq![
        ("change"@, encode_list::<DocumentReference>(v.change)),
        ("update"@, encode_list::<DocumentReference>(v.update)),
        ("read"@, encode_list::<DocumentReference>(v.read)),
        ("delete"@, encode_list::<DocumentReference>(v.delete)),
        ("all"@, encode_list::<DocumentReference>(v.all)),
    ]
}

impl JsonCodec for Events {
    open spec fn writable(v: EventsView) -> bool {
        &&& writable_list::<DocumentReference>(v.change)
        &&& writable_list::<DocumentReference>(v.update)
        &&& writable_list::<DocumentReference>(v.read)
        &&& writable_list::<DocumentReference>(v.delete)
        &&& writable_list::<DocumentReference>(v.all)
    }

    open spec fn encode(v: EventsView) -> JsonTree {
        object(events_fields(v))
    }

    open spec fn decode(t: JsonTree) -> Option<EventsView> {
        match (
            field_list::<DocumentReference>(t, "change"@),
            field_list::<DocumentReference>(t, "update"@),
            field_list::<DocumentReference>(t, "read"@),
            field_list::<DocumentReference>(t, "delete"@),
            field_list::<DocumentReference>(t, "all"@),
        ) {
            (Some(change), Some(update), Some(read), Some(delete), Some(all)) => Some(
                EventsView { change, update, read, delete, all },
            ),
            _ => None,
        }
    }

    proof fn lemma_round_trip(v: EventsView) {
        reveal_strlit("change");
        reveal_strlit("update");
        reveal_strlit("read");
        reveal_strlit("delete");
        reveal_strlit("all");
        assert("change"@.len() == 6 && "change"@[0] == 'c');
        assert("update"@.len() == 6 && "update"@[0] == 'u');
        assert("delete"@.len() == 6 && "delete"@[0] == 'd');
        assert("read"@.len() == 4);
        let fields = events_fields(v);
        lemma_object_field(fields, 0);
        lemma_object_field(fields, 1);
        lemma_object_field(fields, 2);
        lemma_object_field(fields, 3);
        lemma_object_field(fields, 4);
        lemma_list_round_trip::<DocumentReference>(v.change);
        lemma_list_round_trip::<DocumentReference>(v.update);
        lemma_list_round_trip::<DocumentReference>(v.read);
        lemma_list_round_trip::<DocumentReference>(v.delete);
        lemma_list_round_trip::<DocumentReference>(v.all);
    }

    fn to_value(&self) -> (v: Value) {
        let mut fields: Vec<(String, Value)> = Vec::new();
        put(&mut fields, "change", list_to_value::<DocumentReference>(&self.change));
        put(&mut fields, "update", list_to_value::<DocumentReference>(&self.update));
        put(&mut fields, "read", list_to_value::<DocumentReference>(&self.read));
        put(&mut fields, "delete", list_to_value::<DocumentReference>(&self.delete));
        put(&mut fields, "all", list_to_value::<DocumentReference>(&self.all));
        assert(field_trees(fields@) =~= events_fields(self@));
        json_object(fields)
    }

    fn from_value(v: &Value) -> (r: Option<Self>) {
        let change = match get_list::<DocumentReference>(v, "change") {
            Some(x) => x,
            None => return None,
        };
        let update = match get_list::<DocumentReference>(v, "update") {
            Some(x) => x,
            None => return None,
        };
        let read = match get_list::<DocumentReference>(v, "read") {
            Some(x) => x,
            None => return None,
        };
        let delete = match get_list::<DocumentReference>(v, "delete") {
            Some(x) => x,
            None => return None,
        };
        let all = match get_list::<DocumentReference>(v, "all") {
            Some(x) => x,
            None => return None,
        };
        Some(Events { change, update, read, delete, all })
    }
}

impl JsonCodec for Validation {
    open spec fn writable(v: ValidationView) -> bool {
        DocumentReference::writable(v.xflow)
    }

    open spec fn encode(v: ValidationView) -> JsonTree {
        object(
            seq![
                ("message"@, JsonTree::Text(v.message)),
                ("xflow"@, DocumentReference::encode(v.xflow)),
            ],
        )
    }

    open spec fn decode(t: JsonTree) -> Option<ValidationView> {
        match (field_text(t, "message"@), field_value::<DocumentReference>(t, "xflow"@)) {
            (Some(message), Some(xflow)) => Some(ValidationView { message, xflow }),
            _ => None,
        }
    }

    proof fn lemma_round_trip(v: ValidationView) {
        reveal_strlit("message");
        reveal_strlit("xflow");
        assert("message"@.len() == 7 && "xflow"@.len() == 5);
        let fields = seq![
            ("message"@, JsonTree::Text(v.message)),
            ("xflow"@, DocumentReference::encode(v.xflow)),
        ];
        lemma_object_field(fields, 0);
        lemma_object_field(fields, 1);
        DocumentReference::lemma_round_trip(v.xflow);
    }

    fn to_value(&self) -> (v: Value) {
        let mut fields: Vec<(String, Value)> = Vec::new();
        put(&mut fields, "message", json_text(self.message.as_str()));
        put(&mut fields, "xflow", self.xflow.to_value());
        assert(field_trees(fields@) =~= seq![
            ("message"@, JsonTree::Text(self@.message)),
            ("xflow"@, DocumentReference::encode(self@.xflow)),
        ]);
        json_object(fields)
    }

    fn from_value(v: &Value) -> (r: Option<Self>) {
        match (get_text(v, "message"), get_value::<DocumentReference>(v, "xflow")) {
            (Some(message), Some(xflow)) => Some(Validation { message, xflow }),
            _ => None,
        }
    }
}

/// The fields that an attribute is written with.
pub open spec fn attribute_fields(v: AttributeView) -> Seq<(Seq<char>, JsonTree)> {
    seq![
        ("id"@, JsonTree::Int(v.id)),
        ("name"@, JsonTree::Text(v.name)),
        ("vtype"@, VType::encode(v.vtype)),
        ("validations"@, encode_list::<Validation>(v.validations)),
    ]
}

impl JsonCodec for Attribute {
    open spec fn writable(v: AttributeView) -> bool {
        &&& fits_i32(v.id)
        &&& writable_list::<Validation>(v.validations)
    }

    open spec fn encode(v: AttributeView) -> JsonTree {
        object(attribute_fields(v))
    }

    open spec fn decode(t: JsonTree) -> Option<AttributeView> {
        match (
            field_i32(t, "id"@),
            field_text(t, "name"@),
            field_value::<VType>(t, "vtype"@),
            field_list::<Validation>(t, "validations"@),
        ) {
            (Some(id), Some(name), Some(vtype), Some(validations)) => Some(
                AttributeView { id, name, vtype, validations },
            ),
            _ => None,
        }
    }

    proof fn lemma_round_trip(v: AttributeView) {
        reveal_strlit("id");
        reveal_strlit("name");
        reveal_strlit("vtype");
        reveal_strlit("validations");
        assert("id"@.len() == 2 && "name"@.len() == 4);
        assert("vtype"@.len() == 5 && "validations"@.len() == 11);
        let fields = attribute_fields(v);
        lemma_object_field(fields, 0);
        lemma_object_field(fields, 1);
        lemma_object_field(fields, 2);
        lemma_object_field(fields, 3);
        VType::lemma_round_trip(v.vtype);
        lemma_list_round_trip::<Validation>(v.validations);
    }

    fn to_value(&self) -> (v: Value) {
        let mut fields: Vec<(String, Value)> = Vec::new();
        put(&mut fields, "id", json_int(self.id as i64));
        put(&mut fields, "name", json_text(self.name.as_str()));
        put(&mut fields, "vtype", self.vtype.to_value());
        put(&mut fields, "validations", list_to_value::<Validation>(&self.validations));
        assert(field_trees(fields@) =~= attribute_fields(self@));
        json_object(fields)
    }

    fn from_value(v: &Value) -> (r: Option<Self>) {
        match (
            get_i32(v, "id"),
            get_text(v, "name"),
            get_value::<VType>(v, "vtype"),
            get_list::<Validation>(v, "validations"),
        ) {
            (Some(id), Some(name), Some(vtype), Some(validations)) => Some(
                Attribute { id, name, vtype, validations },
            ),
            _ => None,
        }
    }
}

impl View for ReferenceType {
    type V = ReferenceType;

    open spec fn view(&self) -> ReferenceType {
        *self
    }
}

impl JsonCodec for ReferenceType {
    open spec fn writable(v: ReferenceType) -> bool {
        true
    }

    /// A kind of reference is written as its name in lower case.
    open spec fn encode(v: ReferenceType) -> JsonTree {
        match v {
            ReferenceType::HasMany => JsonTree::Text("has_many"@),
            ReferenceType::BelongsTo => JsonTree::Text("belongs_to"@),
        }
    }

    open spec fn decode(t: JsonTree) -> Option<ReferenceType> {
        match decode_text(t) {
            Some(name) => if name == "has_many"@ {
                Some(ReferenceType::HasMany)
            } else if name == "belongs_to"@ {
                Some(ReferenceType::BelongsTo)
            } else {
                None
            },
            None => None,
        }
    }

    proof fn lemma_round_trip(v: ReferenceType) {
        reveal_strlit("has_many");
        reveal_strlit("belongs_to");
        assert("has_many"@.len() == 8 && "belongs_to"@.len() == 10);
    }

    fn to_value(&self) -> (v: Value) {
        match self {
            ReferenceType::HasMany => json_text("has_many"),
            ReferenceType::BelongsTo => json_text("belongs_to"),
        }
    }

    fn from_value(v: &Value) -> (r: Option<Self>) {
        match as_str(v) {
            Some(name) => if same_text(name, "has_many") {
                Some(ReferenceType::HasMany)
            } else if same_text(name, "belongs_to") {
                Some(ReferenceType::BelongsTo)
            } else {
                None
            },
            None => None,
        }
    }
}

/// The fields that a reference is written with.
pub open spec fn reference_fields(v: ReferenceView) -> Seq<(Seq<char>, JsonTree)> {
    seq![
        ("id"@, JsonTree::Int(v.id)),
        ("name"@, JsonTree::Text(v.name)),
        ("reftype"@, ReferenceType::encode(v.reftype)),
        ("other"@, JsonTree::Text(v.other)),
    ]
}

impl JsonCodec for Reference {
    open spec fn writable(v: ReferenceView) -> bool {
        fits_i32(v.id)
    }

    open spec fn encode(v: ReferenceView) -> JsonTree {
        object(reference_fields(v))
    }

    open spec fn decode(t: JsonTree) -> Option<ReferenceView> {
        match (
            field_i32(t, "id"@),
            field_text(t, "name"@),
            field_value::<ReferenceType>(t, "reftype"@),
            field_text(t, "other"@),
        ) {
            (Some(id), Some(name), Some(reftype), Some(other)) => Some(
                ReferenceView { id, name, reftype, other },
            ),
            _ => None,
        }
    }

    proof fn lemma_round_trip(v: ReferenceView) {
        reveal_strlit("id");
        reveal_strlit("name");
        reveal_strlit("reftype");
        reveal_strlit("other");
        assert("id"@.len() == 2 && "name"@.len() == 4);
        assert("reftype"@.len() == 7 && "other"@.len() == 5);
        let fields = reference_fields(v);
        lemma_object_field(fields, 0);
        lemma_object_field(fields, 1);
        lemma_object_field(fields, 2);
        lemma_object_field(fields, 3);
        ReferenceType::lemma_round_trip(v.reftype);
    }

    fn to_value(&self) -> (v: Value) {
        let mut fields: Vec<(String, Value)> = Vec::new();
        put(&mut fields, "id", json_int(self.id as i64));
        put(&mut fields, "name", json_text(self.name.as_str()));
        put(&mut fields, "reftype", self.reftype.to_value());
        put(&mut fields, "other", json_text(self.other.as_str()));
        assert(field_trees(fields@) =~= reference_fields(self@));
        json_object(fields)
    }

    fn from_value(v: &Value) -> (r: Option<Self>) {
        match (
            get_i32(v, "id"),
            get_text(v, "name"),
            get_value::<ReferenceType>(v, "reftype"),
            get_text(v, "other"),
        ) {
            (Some(id), Some(name), Some(reftype), Some(other)) => Some(
                Reference { id, name, reftype, other },
            ),
            _ => None,
        }
    }
}

/// The fields that an entity is written with.
pub open spec fn entity_fields(v: EntityView) -> Seq<(Seq<char>, JsonTree)> {
    seq![
        ("id"@, JsonTree::Int(v.id)),
        ("name"@, JsonTree::Text(v.name)),
        ("attributes"@, encode_list::<Attribute>(v.attributes)),
        ("references"@, encode_list::<Reference>(v.references)),
    ]
}

impl JsonCodec for Entity {
    open spec fn writable(v: EntityView) -> bool {
        &&& fits_i32(v.id)
        &&& writable_list::<Attribute>(v.attributes)
        &&& writable_list::<Reference>(v.references)
    }

    open spec fn encode(v: EntityView) -> JsonTree {
        object(entity_fields(v))
    }

    open spec fn decode(t: JsonTree) -> Option<EntityView> {
        match (
            field_i32(t, "id"@),
            field_text(t, "name"@),
            field_list::<Attribute>(t, "attributes"@),
            field_list::<Reference>(t, "references"@),
        ) {
            (Some(id), Some(name), Some(attributes), Some(references)) => Some(
                EntityView { id, name, attributes, references },
            ),
            _ => None,
        }
    }

    proof fn lemma_round_trip(v: EntityView) {
        reveal_strlit("id");
        reveal_strlit("name");
        reveal_strlit("attributes");
        reveal_strlit("references");
        assert("id"@.len() == 2 && "name"@.len() == 4);
        assert("attributes"@.len() == 10 && "attributes"@[0] == 'a');
        let fields = entity_fields(v);
        lemma_object_field(fields, 0);
        lemma_object_field(fields, 1);
        lemma_object_field(fields, 2);
        lemma_object_field(fields, 3);
        lemma_list_round_trip::<Attribute>(v.attributes);
        lemma_list_round_trip::<Reference>(v.references);
    }

    fn to_value(&self) -> (v: Value) {
        let mut fields: Vec<(String, Value)> = Vec::new();
        put(&mut fields, "id", json_int(self.id as i64));
        put(&mut fields, "name", json_text(self.name.as_str()));
        put(&mut fields, "attributes", list_to_value::<Attribute>(&self.attributes));
        put(&mut fields, "references", list_to_value::<Reference>(&self.references));
        assert(field_trees(fields@) =~= entity_fields(self@));
        json_object(fields)
    }

    fn from_value(v: &Value) -> (r: Option<Self>) {
        match (
            get_i32(v, "id"),
            get_text(v, "name"),
            get_list::<Attribute>(v, "attributes"),
            get_list::<Reference>(v, "references"),
        ) {
            (Some(id), Some(name), Some(attributes), Some(references)) => Some(
                Entity { id, name, attributes, references },
            ),
            _ => None,
        }
    }
}

impl JsonCodec for Domain {
    open spec fn writable(v: DomainView) -> bool {
        &&& Events::writable(v.events)
        &&& writable_list::<Entity>(v.entities)
    }

    open spec fn encode(v: DomainView) -> JsonTree {
        object(
            seq![
                ("events"@, Events::encode(v.events)),
                ("entities"@, encode_list::<Entity>(v.entities)),
            ],
        )
    }

    open spec fn decode(t: JsonTree) -> Option<DomainView> {
        match (field_value::<Events>(t, "events"@), field_list::<Entity>(t, "entities"@)) {
            (Some(events), Some(entities)) => Some(DomainView { events, entities }),
            _ => None,
        }
    }

    proof fn lemma_round_trip(v: DomainView) {
        reveal_strlit("events");
        reveal_strlit("entities");
        assert("events"@.len() == 6 && "entities"@.len() == 8);
        let fields = seq![
            ("events"@, Events::encode(v.events)),
            ("entities"@, encode_list::<Entity>(v.entities)),
        ];
        lemma_object_field(fields, 0);
        lemma_object_field(fields, 1);
        Events::lemma_round_trip(v.events);
        lemma_list_round_trip::<Entity>(v.entities);
    }

    fn to_value(&self) -> (v: Value) {
        let mut fields: Vec<(String, Value)> = Vec::new();
        put(&mut fields, "events", self.events.to_value());
        put(&mut fields, "entities", list_to_value::<Entity>(&self.entities));
        assert(field_trees(fields@) =~= seq![
            ("events"@, Events::encode(self@.events)),
            ("entities"@, encode_list::<Entity>(self@.entities)),
        ]);
        json_object(fields)
    }

    fn from_value(v: &Value) -> (r: Option<Self>) {
        match (get_value::<Events>(v, "events"), get_list::<Entity>(v, "entities")) {
            (Some(events), Some(entities)) => Some(Domain { events, entities }),
            _ => None,
        }
    }
}

} // verus!
