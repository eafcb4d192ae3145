//! The body of a top-level model document.

use crate::serial::fields::JsonCodec;
use crate::serial::tree::{is_object, json_object, object, JsonTree};
use crate::structure::common::{Doctype, Document, DocumentBody};
use serde_json::Value;
use vstd::prelude::*;

verus! {

/// A model document.
pub type ModelxDocument = Document<Modelx>;

/// The body of a model document: it carries no data of its own. What
/// belongs to a model is found through the project of its document.
#[derive(Debug, PartialEq, Eq)]
pub struct Modelx {}

impl View for Modelx {
    type V = Modelx;

    open spec fn view(&self) -> Modelx {
        *self
    }
}

impl Clone for Modelx {
    fn clone(&self) -> (r: Self)
        ensures
            r == *self,
    {
        Modelx {  }
    }
}

impl Default for Modelx {
    fn default() -> (r: Self)
        ensures
            r == (Modelx {  }),
    {
        Modelx {  }
    }
}

impl Modelx {
    /// The identifier that every model body reports.
    pub fn id(&self) -> (r: i32)
        ensures
            r == 1,
    {
        1
    }
}

impl JsonCodec for Modelx {
    open spec fn writable(v: Modelx) -> bool {
        true
    }

    /// A model body is written as an object without fields.
    open spec fn encode(v: Modelx) -> JsonTree {
        object(Seq::empty())
    }

    /// Every object describes a model body, whatever its fields.
    open spec fn decode(t: JsonTree) -> Option<Modelx> {
        if t is Object {
            Some(Modelx {  })
        } else {
            None
        }
    }

    proof fn lemma_round_trip(v: Modelx) {
    }

    fn to_value(&self) -> (v: Value) {
        let fields: Vec<(String, Value)> = Vec::new();
        json_object(fields)
    }

    fn from_value(v: &Value) -> (r: Option<Self>) {
        if is_object(v) {
            Some(Modelx {  })
        } else {
            None
        }
    }
}

impl DocumentBody for Modelx {
    open spec fn kind() -> Doctype {
        Doctype::Modelx
    }

    proof fn lemma_tag_of_kind() {
    }

    open spec fn doctype_tag() -> Seq<char> {
        "modelx"@
    }

    open spec fn initial() -> Modelx {
        Modelx {  }
    }

    fn doctype() -> (tag: String) {
        "modelx".to_owned()
    }

    fn initial_body() -> (body: Self) {
        Modelx::default()
    }
}

} // verus!
