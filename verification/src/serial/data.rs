//! Positions, variable types and variable definitions as JSON.

use crate::serial::fields::{
    decode_i32, encode_list, encode_opt_bool, encode_opt_i32, encode_opt_text, field_i32,
    field_list, field_opt_bool, field_opt_i32, field_opt_text, field_text, field_value, fits_i32,
    get_i32, get_list, get_opt_bool, get_opt_i32, get_opt_text, get_text, get_value,
    lemma_list_round_trip, lemma_object_field, list_to_value, opt_bool_to_value, opt_i32_to_value,
    opt_text_to_value, put, value_to_i32, writable_list, JsonCodec,
};
use crate::serial::tree::{
    as_array, field_trees, json_int, json_list, json_object, json_text, object, trees, JsonTree,
};
use crate::structure::data::{
    DocumentVariables, DocumentVariablesView, Position, VType, VTypeBoolean, VTypeInteger,
    VTypeString, VTypeView, VariableDefinition, VariableDefinitionView,
};
use crate::util::text::same_text;
use serde_json::Value;
use vstd::prelude::*;

verus! {

impl View for Position {
    type V = Position;

    open spec fn view(&self) -> Position {
        *self
    }
}

impl JsonCodec for Position {
    open spec fn writable(v: Position) -> bool {
        true
    }

    /// A position is written as the list of its two coordinates.
    open spec fn encode(v: Position) -> JsonTree {
        JsonTree::List(seq![JsonTree::Int(v.x as int), JsonTree::Int(v.y as int)])
    }

    open spec fn decode(t: JsonTree) -> Option<Position> {
        match t {
            JsonTree::List(items) => if items.len() == 2 {
                match (decode_i32(items[0]), decode_i32(items[1])) {
                    (Some(x), Some(y)) => Some(Position { x: x as i32, y: y as i32 }),
                    _ => None,
                }
            } else {
                None
            },
            _ => None,
        }
    }

    proof fn lemma_round_trip(v: Position) {
    }

    fn to_value(&self) -> (v: Value) {
        let mut items: Vec<Value> = Vec::new();
        items.push(json_int(self.x as i64));
        items.push(json_int(self.y as i64));
        proof {
            assert(trees(items@) =~= seq![
                JsonTree::Int(self.x as int),
                JsonTree::Int(self.y as int),
            ]);
        }
        json_list(items)
    }

    fn from_value(v: &Value) -> (r: Option<Self>) {
        match as_array(v) {
            Some(items) => {
                if items.len() != 2 {
                    return None;
                }
                match (value_to_i32(&items[0]), value_to_i32(&items[1])) {
                    (Some(x), Some(y)) => Some(Position { x, y }),
                    _ => None,
                }
            },
            None => None,
        }
    }
}

/// An optional machine integer as an optional mathematical one.
pub open spec fn opt_int(n: Option<i32>) -> Option<int> {
    match n {
        Some(n) => Some(n as int),
        None => None,
    }
}

/// An optional mathematical integer that fits, as a machine integer.
pub open spec fn opt_i32(n: Option<int>) -> Option<i32> {
    match n {
        Some(n) => Some(n as i32),
        None => None,
    }
}

impl JsonCodec for VType {
    open spec fn writable(v: VTypeView) -> bool {
        true
    }

    /// A variable type is written as an object whose field `type` names the
    /// kind, beside the fields of that kind.
    open spec fn encode(v: VTypeView) -> JsonTree {
        match v {
            VTypeView::String(default) => object(
                seq![
                    ("type"@, JsonTree::Text("string"@)),
                    ("default"@, encode_opt_text(default)),
                ],
            ),
            VTypeView::Boolean(default) => object(
                seq![
                    ("type"@, JsonTree::Text("boolean"@)),
                    ("default"@, encode_opt_bool(default)),
                ],
            ),
            VTypeView::Integer(i) => object(
                seq![
                    ("type"@, JsonTree::Text("integer"@)),
                    ("default"@, encode_opt_i32(opt_int(i.default))),
                    ("min"@, encode_opt_i32(opt_int(i.min))),
                    ("max"@, encode_opt_i32(opt_int(i.max))),
                ],
            ),
        }
    }

    open spec fn decode(t: JsonTree) -> Option<VTypeView> {
        match field_text(t, "type"@) {
            Some(kind) => if kind == "string"@ {
                match field_opt_text(t, "default"@) {
                    Some(default) => Some(VTypeView::String(default)),
                    None => None,
                }
            } else if kind == "boolean"@ {
                match field_opt_bool(t, "default"@) {
                    Some(default) => Some(VTypeView::Boolean(default)),
                    None => None,
                }
            } else if kind == "integer"@ {
                match (
                    field_opt_i32(t, "default"@),
                    field_opt_i32(t, "min"@),
                    field_opt_i32(t, "max"@),
                ) {
                    (Some(default), Some(min), Some(max)) => Some(
                        VTypeView::Integer(
                            VTypeInteger {
                                default: opt_i32(default),
                                min: opt_i32(min),
                                max: opt_i32(max),
                            },
                        ),
                    ),
                    _ => None,
                }
            } else {
                None
            },
            None => None,
        }
    }

    proof fn lemma_round_trip(v: VTypeView) {
        reveal_strlit("type");
        reveal_strlit("default");
        reveal_strlit("min");
        reveal_strlit("max");
        reveal_strlit("string");
        reveal_strlit("boolean");
        reveal_strlit("integer");
        assert("type"@.len() == 4 && "default"@.len() == 7);
        assert("min"@.len() == 3 && "min"@[1] == 'i');
        assert("string"@.len() == 6);
        assert("boolean"@.len() == 7 && "boolean"@[0] == 'b');
        match v {
            VTypeView::String(default) => {
                let fields = seq![
                    ("type"@, JsonTree::Text("string"@)),
                    ("default"@, encode_opt_text(default)),
                ];
                lemma_object_field(fields, 0);
                lemma_object_field(fields, 1);
            },
            VTypeView::Boolean(default) => {
                let fields = seq![
                    ("type"@, JsonTree::Text("boolean"@)),
                    ("default"@, encode_opt_bool(default)),
                ];
                lemma_object_field(fields, 0);
                lemma_object_field(fields, 1);
            },
            VTypeView::Integer(i) => {
                let fields = seq![
                    ("type"@, JsonTree::Text("integer"@)),
                    ("default"@, encode_opt_i32(opt_int(i.default))),
                    ("min"@, encode_opt_i32(opt_int(i.min))),
                    ("max"@, encode_opt_i32(opt_int(i.max))),
                ];
                lemma_object_field(fields, 0);
                lemma_object_field(fields, 1);
                lemma_object_field(fields, 2);
                lemma_object_field(fields, 3);
            },
        }
    }

    fn to_value(&self) -> (v: Value) {
        let mut fields: Vec<(String, Value)> = Vec::new();
        match self {
            VType::VTypeString(s) => {
                put(&mut fields, "type", json_text("string"));
                put(&mut fields, "default", opt_text_to_value(&s.default));
                assert(field_trees(fields@) =~= seq![
                    ("type"@, JsonTree::Text("string"@)),
                    ("default"@, encode_opt_text(s@)),
                ]);
            },
            VType::VTypeBoolean(b) => {
                put(&mut fields, "type", json_text("boolean"));
                put(&mut fields, "default", opt_bool_to_value(b.default));
                assert(field_trees(fields@) =~= seq![
                    ("type"@, JsonTree::Text("boolean"@)),
                    ("default"@, encode_opt_bool(b.default)),
                ]);
            },
            VType::VTypeInteger(i) => {
                put(&mut fields, "type", json_text("integer"));
                put(&mut fields, "default", opt_i32_to_value(i.default));
                put(&mut fields, "min", opt_i32_to_value(i.min));
                put(&mut fields, "max", opt_i32_to_value(i.max));
                assert(field_trees(fields@) =~= seq![
                    ("type"@, JsonTree::Text("integer"@)),
                    ("default"@, encode_opt_i32(opt_int(i.default))),
                    ("min"@, encode_opt_i32(opt_int(i.min))),
                    ("max"@, encode_opt_i32(opt_int(i.max))),
                ]);
            },
        }
        json_object(fields)
    }

    fn from_value(v: &Value) -> (r: Option<Self>) {
        let kind = match get_text(v, "type") {
            Some(kind) => kind,
            None => return None,
        };
        if same_text(kind.as_str(), "string") {
            match get_opt_text(v, "default") {
                Some(default) => Some(VType::VTypeString(VTypeString { default })),
                None => None,
            }
        } else if same_text(kind.as_str(), "boolean") {
            match get_opt_bool(v, "default") {
                Some(default) => Some(VType::VTypeBoolean(VTypeBoolean { default })),
                None => None,
            }
        } else if same_text(kind.as_str(), "integer") {
            match (get_opt_i32(v, "default"), get_opt_i32(v, "min"), get_opt_i32(v, "max")) {
                (Some(default), Some(min), Some(max)) => Some(
                    VType::VTypeInteger(VTypeInteger { default, min, max }),
                ),
                _ => None,
            }
        } else {
            None
        }
    }
}

impl JsonCodec for VariableDefinition {
    open spec fn writable(v: VariableDefinitionView) -> bool {
        fits_i32(v.id)
    }

    open spec fn encode(v: VariableDefinitionView) -> JsonTree {
        object(
            seq![
                ("id"@, JsonTree::Int(v.id)),
                ("name"@, JsonTree::Text(v.name)),
                ("vtype"@, VType::encode(v.vtype)),
            ],
        )
    }

    open spec fn decode(t: JsonTree) -> Option<VariableDefinitionView> {
        match (field_i32(t, "id"@), field_text(t, "name"@), field_value::<VType>(t, "vtype"@)) {
            (Some(id), Some(name), Some(vtype)) => Some(
                VariableDefinitionView { id, name, vtype },
            ),
            _ => None,
        }
    }

    proof fn lemma_round_trip(v: VariableDefinitionView) {
        reveal_strlit("id");
        reveal_strlit("name");
        reveal_strlit("vtype");
        assert("id"@.len() == 2 && "name"@.len() == 4 && "vtype"@.len() == 5);
        let fields = seq![
            ("id"@, JsonTree::Int(v.id)),
            ("name"@, JsonTree::Text(v.name)),
            ("vtype"@, VType::encode(v.vtype)),
        ];
        lemma_object_field(fields, 0);
        lemma_object_field(fields, 1);
        lemma_object_field(fields, 2);
        VType::lemma_round_trip(v.vtype);
    }

    fn to_value(&self) -> (v: Value) {
        let mut fields: Vec<(String, Value)> = Vec::new();
        put(&mut fields, "id", json_int(self.id as i64));
        put(&mut fields, "name", json_text(self.name.as_str()));
        put(&mut fields, "vtype", self.vtype.to_value());
        assert(field_trees(fields@) =~= seq![
            ("id"@, JsonTree::Int(self@.id)),
            ("name"@, JsonTree::Text(self@.name)),
            ("vtype"@, VType::encode(self@.vtype)),
        ]);
        json_object(fields)
    }

    fn from_value(v: &Value) -> (r: Option<Self>) {
        match (get_i32(v, "id"), get_text(v, "name"), get_value::<VType>(v, "vtype")) {
            (Some(id), Some(name), Some(vtype)) => Some(VariableDefinition { id, name, vtype }),
            _ => None,
        }
    }
}

impl JsonCodec for DocumentVariables {
    open spec fn writable(v: DocumentVariablesView) -> bool {
        &&& writable_list::<VariableDefinition>(v.input)
        &&& writable_list::<VariableDefinition>(v.local)
        &&& writable_list::<VariableDefinition>(v.output)
    }

    open spec fn encode(v: DocumentVariablesView) -> JsonTree {
        object(
            seq![
                ("input"@, encode_list::<VariableDefinition>(v.input)),
                ("local"@, encode_list::<VariableDefinition>(v.local)),
                ("output"@, encode_list::<VariableDefinition>(v.output)),
            ],
        )
    }

    open spec fn decode(t: JsonTree) -> Option<DocumentVariablesView> {
        match (
            field_list::<VariableDefinition>(t, "input"@),
            field_list::<VariableDefinition>(t, "local"@),
            field_list::<VariableDefinition>(t, "output"@),
        ) {
            (Some(input), Some(local), Some(output)) => Some(
                DocumentVariablesView { input, local, output },
            ),
            _ => None,
        }
    }

    proof fn lemma_round_trip(v: DocumentVariablesView) {
        reveal_strlit("input");
        reveal_strlit("local");
        reveal_strlit("output");
        assert("input"@.len() == 5 && "input"@[0] == 'i');
        assert("local"@.len() == 5 && "local"@[0] == 'l');
        let fields = seq![
            ("input"@, encode_list::<VariableDefinition>(v.input)),
            ("local"@, encode_list::<VariableDefinition>(v.local)),
            ("output"@, encode_list::<VariableDefinition>(v.output)),
        ];
        lemma_object_field(fields, 0);
        lemma_object_field(fields, 1);
        lemma_object_field(fields, 2);
        lemma_list_round_trip::<VariableDefinition>(v.input);
        lemma_list_round_trip::<VariableDefinition>(v.local);
        lemma_list_round_trip::<VariableDefinition>(v.output);
    }

    fn to_value(&self) -> (v: Value) {
        let mut fields: Vec<(String, Value)> = Vec::new();
        put(&mut fields, "input", list_to_value::<VariableDefinition>(&self.input));
        put(&mut fields, "local", list_to_value::<VariableDefinition>(&self.local));
        put(&mut fields, "output", list_to_value::<VariableDefinition>(&self.output));
        assert(field_trees(fields@) =~= seq![
            ("input"@, encode_list::<VariableDefinition>(self@.input)),
            ("local"@, encode_list::<VariableDefinition>(self@.local)),
            ("output"@, encode_list::<VariableDefinition>(self@.output)),
        ]);
        json_object(fields)
    }

    fn from_value(v: &Value) -> (r: Option<Self>) {
        match (
            get_list::<VariableDefinition>(v, "input"),
            get_list::<VariableDefinition>(v, "local"),
            get_list::<VariableDefinition>(v, "output"),
        ) {
            (Some(input), Some(local), Some(output)) => Some(
                DocumentVariables { input, local, output },
            ),
            _ => None,
        }
    }
}

} // verus!
