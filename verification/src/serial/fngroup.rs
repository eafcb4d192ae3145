//! Function groups as JSON.

use crate::serial::fields::{
    decode_text, encode_list, field_i32, field_list, field_text, field_value, fits_i32, get_i32,
    get_list, get_text, get_value, lemma_list_round_trip, lemma_object_field, list_to_value, put,
    writable_list, JsonCodec,
};
use crate::serial::tree::{as_str, field_trees, json_int, json_object, json_text, object, JsonTree};
use crate::structure::data::VariableDefinition;
use crate::structure::fngroup::{FnDefinition, FnDefinitionView, FnLanguage, Fngroup, FngroupView};
use crate::util::text::same_text;
use serde_json::Value;
use vstd::prelude::*;

verus! {

impl View for FnLanguage {
    type V = FnLanguage;

    open spec fn view(&self) -> FnLanguage {
        *self
    }
}

impl JsonCodec for FnLanguage {
    open spec fn writable(v: FnLanguage) -> bool {
        true
    }

    /// A language is written as its name.
    open spec fn encode(v: FnLanguage) -> JsonTree {
        JsonTree::Text("AssemblyScript"@)
    }

    open spec fn decode(t: JsonTree) -> Option<FnLanguage> {
        match decode_text(t) {
            Some(name) => if name == "AssemblyScript"@ {
                Some(FnLanguage::AssemblyScript)
            } else {
                None
            },
            None => None,
        }
    }

    proof fn lemma_round_trip(v: FnLanguage) {
    }

    fn to_value(&self) -> (v: Value) {
        match self {
            FnLanguage::AssemblyScript => json_text("AssemblyScript"),
        }
    }

    fn from_value(v: &Value) -> (r: Option<Self>) {
        match as_str(v) {
            Some(name) => if same_text(name, "AssemblyScript") {
                Some(FnLanguage::AssemblyScript)
            } else {
                None
            },
            None => None,
        }
    }
}

/// The fields that a function definition is written with.
pub open spec fn fn_fields(v: FnDefinitionView) -> Seq<(Seq<char>, JsonTree)> {
    seq![
        ("id"@, JsonTree::Int(v.id)),
        ("lang"@, FnLanguage::encode(v.lang)),
        ("name"@, JsonTree::Text(v.name)),
        ("description"@, JsonTree::Text(v.description)),
        ("input"@, encode_list::<VariableDefinition>(v.input)),
        ("output"@, encode_list::<VariableDefinition>(v.output)),
        ("body"@, JsonTree::Text(v.body)),
    ]
}

impl JsonCodec for FnDefinition {
    open spec fn writable(v: FnDefinitionView) -> bool {
        &&& fits_i32(v.id)
        &&& writable_list::<VariableDefinition>(v.input)
        &&& writable_list::<VariableDefinition>(v.output)
    }

    open spec fn encode(v: FnDefinitionView) -> JsonTree {
        object(fn_fields(v))
    }

    open spec fn decode(t: JsonTree) -> Option<FnDefinitionView> {
        match (
            field_i32(t, "id"@),
            field_value::<FnLanguage>(t, "lang"@),
            field_text(t, "name"@),
            field_text(t, "description"@),
            field_list::<VariableDefinition>(t, "input"@),
            field_list::<VariableDefinition>(t, "output"@),
            field_text(t, "body"@),
        ) {
            (
                Some(id),
                Some(lang),
                Some(name),
                Some(description),
                Some(input),
                Some(output),
                Some(body),
            ) => Some(FnDefinitionView { id, lang, name, description, input, output, body }),
            _ => None,
        }
    }

    proof fn lemma_round_trip(v: FnDefinitionView) {
        reveal_strlit("id");
        reveal_strlit("lang");
        reveal_strlit("name");
        reveal_strlit("description");
        reveal_strlit("input");
        reveal_strlit("output");
        reveal_strlit("body");
        assert("id"@.len() == 2);
        assert("lang"@.len() == 4 && "lang"@[0] == 'l');
        assert("name"@.len() == 4 && "name"@[0] == 'n');
        assert("body"@.len() == 4 && "body"@[0] == 'b');
        assert("description"@.len() == 11);
        assert("input"@.len() == 5);
        let fields = fn_fields(v);
        lemma_object_field(fields, 0);
        lemma_object_field(fields, 1);
        lemma_object_field(fields, 2);
        lemma_object_field(fields, 3);
        lemma_object_field(fields, 4);
        lemma_object_field(fields, 5);
        lemma_object_field(fields, 6);
        FnLanguage::lemma_round_trip(v.lang);
        lemma_list_round_trip::<VariableDefinition>(v.input);
        lemma_list_round_trip::<VariableDefinition>(v.output);
    }

    fn to_value(&self) -> (v: Value) {
        let mut fields: Vec<(String, Value)> = Vec::new();
        put(&mut fields, "id", json_int(self.id as i64));
        put(&mut fields, "lang", self.lang.to_value());
        put(&mut fields, "name", json_text(self.name.as_str()));
        put(&mut fields, "description", json_text(self.description.as_str()));
        put(&mut fields, "input", list_to_value::<VariableDefinition>(&self.input));
        put(&mut fields, "output", list_to_value::<VariableDefinition>(&self.output));
        put(&mut fields, "body", json_text(self.body.as_str()));
        assert(field_trees(fields@) =~= fn_fields(self@));
        json_object(fields)
    }

    fn from_value(v: &Value) -> (r: Option<Self>) {
        let id = match get_i32(v, "id") {
            Some(x) => x,
            None => return None,
        };
        let lang = match get_value::<FnLanguage>(v, "lang") {
            Some(x) => x,
            None => return None,
        };
        let name = match get_text(v, "name") {
            Some(x) => x,
            None => return None,
        };
        let description = match get_text(v, "description") {
            Some(x) => x,
            None => return None,
        };
        let input = match get_list::<VariableDefinition>(v, "input") {
            Some(x) => x,
            None => return None,
        };
        let output = match get_list::<VariableDefinition>(v, "output") {
            Some(x) => x,
            None => return None,
        };
        let body = match get_text(v, "body") {
            Some(x) => x,
            None => return None,
        };
        Some(FnDefinition { id, lang, name, description, input, output, body })
    }
}

impl JsonCodec for Fngroup {
    open spec fn writable(v: FngroupView) -> bool {
        writable_list::<FnDefinition>(v.fns)
    }

    open spec fn encode(v: FngroupView) -> JsonTree {
        object(seq![("fns"@, encode_list::<FnDefinition>(v.fns))])
    }

    open spec fn decode(t: JsonTree) -> Option<FngroupView> {
        match field_list::<FnDefinition>(t, "fns"@) {
            Some(fns) => Some(FngroupView { fns }),
            None => None,
        }
    }

    proof fn lemma_round_trip(v: FngroupView) {
        let fields = seq![("fns"@, encode_list::<FnDefinition>(v.fns))];
        lemma_object_field(fields, 0);
        lemma_list_round_trip::<FnDefinition>(v.fns);
    }

    fn to_value(&self) -> (v: Value) {
        let mut fields: Vec<(String, Value)> = Vec::new();
        assert(field_trees(fields@) =~= Seq::empty());
        put(&mut fields, "fns", list_to_value::<FnDefinition>(&self.fns));
        json_object(fields)
    }

    fn from_value(v: &Value) -> (r: Option<Self>) {
        match get_list::<FnDefinition>(v, "fns") {
            Some(fns) => Some(Fngroup { fns }),
            None => None,
        }
    }
}

} // verus!
