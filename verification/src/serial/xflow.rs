//! Flows as JSON.

use crate::serial::fields::{
    decode_i32, decode_text, encode_list, field_i32, field_list, field_text, field_value, fits_i32,
    get_i32, get_list, get_text, get_value, lemma_list_round_trip, lemma_object_field,
    list_to_value, put, value_to_i32, writable_list, JsonCodec,
};
use crate::serial::tree::{
    as_array, as_str, field_trees, json_int, json_list, json_object, json_text, object, trees,
    JsonTree,
};
use crate::structure::data::{DocumentVariables, Position, VariableDefinition};
use crate::structure::xflow::{
    CallParameters, FlowParameters, FloxParameters, XFlow, XFlowBranch, XFlowBranchView, XFlowEdge,
    XFlowNode, XFlowNodeParameters, XFlowNodeParametersView, XFlowNodeType, XFlowNodeView,
    XFlowRequirement, XFlowView,
};
use crate::util::text::same_text;
use serde_json::Value;
use vstd::prelude::*;

verus! {

impl View for XFlowNodeType {
    type V = XFlowNodeType;

    open spec fn view(&self) -> XFlowNodeType {
        *self
    }
}

impl JsonCodec for XFlowNodeType {
    open spec fn writable(v: XFlowNodeType) -> bool {
        true
    }

    /// A kind of node is written as its name in lower case.
    open spec fn encode(v: XFlowNodeType) -> JsonTree {
        match v {
            XFlowNodeType::Flow => JsonTree::Text("flow"@),
            XFlowNodeType::Flox => JsonTree::Text("flox"@),
            XFlowNodeType::Call => JsonTree::Text("call"@),
        }
    }

    open spec fn decode(t: JsonTree) -> Option<XFlowNodeType> {
        match decode_text(t) {
            Some(name) => if name == "flow"@ {
                Some(XFlowNodeType::Flow)
            } else if name == "flox"@ {
                Some(XFlowNodeType::Flox)
            } else if name == "call"@ {
                Some(XFlowNodeType::Call)
            } else {
                None
            },
            None => None,
        }
    }

    proof fn lemma_round_trip(v: XFlowNodeType) {
        lemma_kind_names();
    }

    fn to_value(&self) -> (v: Value) {
        match self {
            XFlowNodeType::Flow => json_text("flow"),
            XFlowNodeType::Flox => json_text("flox"),
            XFlowNodeType::Call => json_text("call"),
        }
    }

    fn from_value(v: &Value) -> (r: Option<Self>) {
        match as_str(v) {
            Some(name) => if same_text(name, "flow") {
                Some(XFlowNodeType::Flow)
            } else if same_text(name, "flox") {
                Some(XFlowNodeType::Flox)
            } else if same_text(name, "call") {
                Some(XFlowNodeType::Call)
            } else {
                None
            },
            None => None,
        }
    }
}

/// The names of the three kinds of node differ.
pub proof fn lemma_kind_names()
    ensures
        "flow"@ != "flox"@,
        "flow"@ != "call"@,
        "flox"@ != "call"@,
{
    reveal_strlit("flow");
    reveal_strlit("flox");
    reveal_strlit("call");
    assert("flow"@.len() == 4 && "flow"@[0] == 'f' && "flow"@[3] == 'w');
    assert("flox"@.len() == 4 && "flox"@[0] == 'f' && "flox"@[3] == 'x');
}

impl JsonCodec for XFlowRequirement {
    open spec fn writable(v: XFlowRequirement) -> bool {
        true
    }

    open spec fn encode(v: XFlowRequirement) -> JsonTree {
        object(
            seq![
                ("xtype"@, XFlowNodeType::encode(v.xtype)),
                ("version"@, JsonTree::Int(v.version as int)),
            ],
        )
    }

    open spec fn decode(t: JsonTree) -> Option<XFlowRequirement> {
        match (field_value::<XFlowNodeType>(t, "xtype"@), field_i32(t, "version"@)) {
            (Some(xtype), Some(version)) => Some(
                XFlowRequirement { xtype, version: version as i32 },
            ),
            _ => None,
        }
    }

    proof fn lemma_round_trip(v: XFlowRequirement) {
        reveal_strlit("xtype");
        reveal_strlit("version");
        assert("xtype"@.len() == 5 && "version"@.len() == 7);
        let fields = seq![
            ("xtype"@, XFlowNodeType::encode(v.xtype)),
            ("version"@, JsonTree::Int(v.version as int)),
        ];
        lemma_object_field(fields, 0);
        lemma_object_field(fields, 1);
        XFlowNodeType::lemma_round_trip(v.xtype);
    }

    fn to_value(&self) -> (v: Value) {
        let mut fields: Vec<(String, Value)> = Vec::new();
        put(&mut fields, "xtype", self.xtype.to_value());
        put(&mut fields, "version", json_int(self.version as i64));
        assert(field_trees(fields@) =~= seq![
            ("xtype"@, XFlowNodeType::encode(self.xtype)),
            ("version"@, JsonTree::Int(self.version as int)),
        ]);
        json_object(fields)
    }

    fn from_value(v: &Value) -> (r: Option<Self>) {
        match (get_value::<XFlowNodeType>(v, "xtype"), get_i32(v, "version")) {
            (Some(xtype), Some(version)) => Some(XFlowRequirement { xtype, version }),
            _ => None,
        }
    }
}

impl JsonCodec for XFlowEdge {
    open spec fn writable(v: XFlowEdge) -> bool {
        true
    }

    /// An edge is written as the list of its two ends.
    open spec fn encode(v: XFlowEdge) -> JsonTree {
        JsonTree::List(seq![JsonTree::Int(v.source as int), JsonTree::Int(v.target as int)])
    }

    open spec fn decode(t: JsonTree) -> Option<XFlowEdge> {
        match t {
            JsonTree::List(items) => if items.len() == 2 {
                match (decode_i32(items[0]), decode_i32(items[1])) {
                    (Some(source), Some(target)) => Some(
                        XFlowEdge { source: source as i32, target: target as i32 },
                    ),
                    _ => None,
                }
            } else {
                None
            },
            _ => None,
        }
    }

    proof fn lemma_round_trip(v: XFlowEdge) {
    }

    fn to_value(&self) -> (v: Value) {
        let mut items: Vec<Value> = Vec::new();
        items.push(json_int(self.source as i64));
        items.push(json_int(self.target as i64));
        proof {
            assert(trees(items@) =~= seq![
                JsonTree::Int(self.source as int),
                JsonTree::Int(self.target as int),
            ]);
        }
        json_list(items)
    }

    fn from_value(v: &Value) -> (r: Option<Self>) {
        match as_array(v) {
            Some(items) => {
                if items.len() != 2 {
                    return None;
                }
                match (value_to_i32(&items[0]), value_to_i32(&items[1])) {
                    (Some(source), Some(target)) => Some(XFlowEdge { source, target }),
                    _ => None,
                }
            },
            None => None,
        }
    }
}

impl JsonCodec for XFlowNodeParameters {
    open spec fn writable(v: XFlowNodeParametersView) -> bool {
        match v {
            XFlowNodeParametersView::Flox { expression, returns: target } => VariableDefinition::writable(
                target,
            ),
            _ => true,
        }
    }

    /// Parameters are written as an object whose field `type` names the
    /// kind of node, beside the fields that the kind has.
    open spec fn encode(v: XFlowNodeParametersView) -> JsonTree {
        match v {
            XFlowNodeParametersView::Flow => object(seq![("type"@, JsonTree::Text("flow"@))]),
            XFlowNodeParametersView::Flox { expression, returns: target } => object(
                seq![
                    ("type"@, JsonTree::Text("flox"@)),
                    ("expression"@, JsonTree::Text(expression)),
                    ("returns"@, VariableDefinition::encode(target)),
                ],
            ),
            XFlowNodeParametersView::Call => object(seq![("type"@, JsonTree::Text("call"@))]),
        }
    }

    open spec fn decode(t: JsonTree) -> Option<XFlowNodeParametersView> {
        match field_text(t, "type"@) {
            Some(kind) => if kind == "flow"@ {
                Some(XFlowNodeParametersView::Flow)
            } else if kind == "flox"@ {
                match (
                    field_text(t, "expression"@),
                    field_value::<VariableDefinition>(t, "returns"@),
                ) {
                    (Some(expression), Some(target)) => Some(
                        XFlowNodeParametersView::Flox { expression, returns: target },
                    ),
                    _ => None,
                }
            } else if kind == "call"@ {
                Some(XFlowNodeParametersView::Call)
            } else {
                None
            },
            None => None,
        }
    }

    proof fn lemma_round_trip(v: XFlowNodeParametersView) {
        lemma_kind_names();
        reveal_strlit("type");
        reveal_strlit("expression");
        reveal_strlit("returns");
        assert("type"@.len() == 4 && "expression"@.len() == 10 && "returns"@.len() == 7);
        match v {
            XFlowNodeParametersView::Flow => {
                lemma_object_field(seq![("type"@, JsonTree::Text("flow"@))], 0);
            },
            XFlowNodeParametersView::Flox { expression, returns: target } => {
                let fields = seq![
                    ("type"@, JsonTree::Text("flox"@)),
                    ("expression"@, JsonTree::Text(expression)),
                    ("returns"@, VariableDefinition::encode(target)),
                ];
                lemma_object_field(fields, 0);
                lemma_object_field(fields, 1);
                lemma_object_field(fields, 2);
                VariableDefinition::lemma_round_trip(target);
            },
            XFlowNodeParametersView::Call => {
                lemma_object_field(seq![("type"@, JsonTree::Text("call"@))], 0);
            },
        }
    }

    fn to_value(&self) -> (v: Value) {
        let mut fields: Vec<(String, Value)> = Vec::new();
        assert(field_trees(fields@) =~= Seq::empty());
        match self {
            XFlowNodeParameters::Flow(_) => {
                put(&mut fields, "type", json_text("flow"));
            },
            XFlowNodeParameters::Flox(p) => {
                put(&mut fields, "type", json_text("flox"));
                put(&mut fields, "expression", json_text(p.expression.as_str()));
                put(&mut fields, "returns", p.returns.to_value());
                assert(field_trees(fields@) =~= seq![
                    ("type"@, JsonTree::Text("flox"@)),
                    ("expression"@, JsonTree::Text(p.expression@)),
                    ("returns"@, VariableDefinition::encode(p.returns@)),
                ]);
            },
            XFlowNodeParameters::Call(_) => {
                put(&mut fields, "type", json_text("call"));
            },
        }
        json_object(fields)
    }

    fn from_value(v: &Value) -> (r: Option<Self>) {
        let kind = match get_text(v, "type") {
            Some(kind) => kind,
            None => return None,
        };
        if same_text(kind.as_str(), "flow") {
            Some(XFlowNodeParameters::Flow(FlowParameters {  }))
        } else if same_text(kind.as_str(), "flox") {
            match (get_text(v, "expression"), get_value::<VariableDefinition>(v, "returns")) {
                (Some(expression), Some(target)) => Some(
                    XFlowNodeParameters::Flox(FloxParameters { expression, returns: target }),
                ),
                _ => None,
            }
        } else if same_text(kind.as_str(), "call") {
            Some(XFlowNodeParameters::Call(CallParameters {  }))
        } else {
            None
        }
    }
}

/// The fields that a node is written with.
pub open spec fn node_fields(v: XFlowNodeView) -> Seq<(Seq<char>, JsonTree)> {
    seq![
        ("id"@, JsonTree::Int(v.id)),
        ("nodetype"@, XFlowNodeType::encode(v.nodetype)),
        ("position"@, Position::encode(v.position)),
        ("action"@, JsonTree::Text(v.action)),
        ("label"@, JsonTree::Text(v.label)),
        ("parameters"@, XFlowNodeParameters::encode(v.parameters)),
    ]
}

impl JsonCodec for XFlowNode {
    open spec fn writable(v: XFlowNodeView) -> bool {
        &&& fits_i32(v.id)
        &&& XFlowNodeParameters::writable(v.parameters)
    }

    open spec fn encode(v: XFlowNodeView) -> JsonTree {
        object(node_fields(v))
    }

    open spec fn decode(t: JsonTree) -> Option<XFlowNodeView> {
        match (
            field_i32(t, "id"@),
            field_value::<XFlowNodeType>(t, "nodetype"@),
            field_value::<Position>(t, "position"@),
            field_text(t, "action"@),
            field_text(t, "label"@),
            field_value::<XFlowNodeParameters>(t, "parameters"@),
        ) {
            (
                Some(id),
                Some(nodetype),
                Some(position),
                Some(action),
                Some(label),
                Some(parameters),
            ) => Some(XFlowNodeView { id, nodetype, position, action, label, parameters }),
            _ => None,
        }
    }

    proof fn lemma_round_trip(v: XFlowNodeView) {
        reveal_strlit("id");
        reveal_strlit("nodetype");
        reveal_strlit("position");
        reveal_strlit("action");
        reveal_strlit("label");
        reveal_strlit("parameters");
        assert("id"@.len() == 2);
        assert("nodetype"@.len() == 8 && "nodetype"@[0] == 'n');
        assert("action"@.len() == 6 && "label"@.len() == 5 && "parameters"@.len() == 10);
        let fields = node_fields(v);
        lemma_object_field(fields, 0);
        lemma_object_field(fields, 1);
        lemma_object_field(fields, 2);
        lemma_object_field(fields, 3);
        lemma_object_field(fields, 4);
        lemma_object_field(fields, 5);
        XFlowNodeType::lemma_round_trip(v.nodetype);
        Position::lemma_round_trip(v.position);
        XFlowNodeParameters::lemma_round_trip(v.parameters);
    }

    fn to_value(&self) -> (v: Value) {
        let mut fields: Vec<(String, Value)> = Vec::new();
        put(&mut fields, "id", json_int(self.id as i64));
        put(&mut fields, "nodetype", self.nodetype.to_value());
        put(&mut fields, "position", self.position.to_value());
        put(&mut fields, "action", json_text(self.action.as_str()));
        put(&mut fields, "label", json_text(self.label.as_str()));
        put(&mut fields, "parameters", self.parameters.to_value());
        assert(field_trees(fields@) =~= node_fields(self@));
        json_object(fields)
    }

    fn from_value(v: &Value) -> (r: Option<Self>) {
        let id = match get_i32(v, "id") {
            Some(x) => x,
            None => return None,
        };
        let nodetype = match get_value::<XFlowNodeType>(v, "nodetype") {
            Some(x) => x,
            None => return None,
        };
        let position = match get_value::<Position>(v, "position") {
            Some(x) => x,
            None => return None,
        };
        let action = match get_text(v, "action") {
            Some(x) => x,
            None => return None,
        };
        let label = match get_text(v, "label") {
            Some(x) => x,
            None => return None,
        };
        let parameters = match get_value::<XFlowNodeParameters>(v, "parameters") {
            Some(x) => x,
            None => return None,
        };
        Some(XFlowNode { id, nodetype, position, action, label, parameters })
    }
}

impl JsonCodec for XFlowBranch {
    open spec fn writable(v: XFlowBranchView) -> bool {
        VariableDefinition::writable(v.xvar)
    }

    open spec fn encode(v: XFlowBranchView) -> JsonTree {
        object(
            seq![
                ("edge"@, XFlowEdge::encode(v.edge)),
                ("xvar"@, VariableDefinition::encode(v.xvar)),
            ],
        )
    }

    open spec fn decode(t: JsonTree) -> Option<XFlowBranchView> {
        match (field_value::<XFlowEdge>(t, "edge"@), field_value::<VariableDefinition>(t, "xvar"@)) {
            (Some(edge), Some(xvar)) => Some(XFlowBranchView { edge, xvar }),
            _ => None,
        }
    }

    proof fn lemma_round_trip(v: XFlowBranchView) {
        reveal_strlit("edge");
        reveal_strlit("xvar");
        assert("edge"@.len() == 4 && "edge"@[0] == 'e');
        let fields = seq![
            ("edge"@, XFlowEdge::encode(v.edge)),
            ("xvar"@, VariableDefinition::encode(v.xvar)),
        ];
        lemma_object_field(fields, 0);
        lemma_object_field(fields, 1);
        XFlowEdge::lemma_round_trip(v.edge);
        VariableDefinition::lemma_round_trip(v.xvar);
    }

    fn to_value(&self) -> (v: Value) {
        let mut fields: Vec<(String, Value)> = Vec::new();
        put(&mut fields, "edge", self.edge.to_value());
        put(&mut fields, "xvar", self.xvar.to_value());
        assert(field_trees(fields@) =~= seq![
            ("edge"@, XFlowEdge::encode(self@.edge)),
            ("xvar"@, VariableDefinition::encode(self@.xvar)),
        ]);
        json_object(fields)
    }

    fn from_value(v: &Value) -> (r: Option<Self>) {
        match (get_value::<XFlowEdge>(v, "edge"), get_value::<VariableDefinition>(v, "xvar")) {
            (Some(edge), Some(xvar)) => Some(XFlowBranch { edge, xvar }),
            _ => None,
        }
    }
}

/// The fields that a flow is written with.
pub open spec fn flow_fields(v: XFlowView) -> Seq<(Seq<char>, JsonTree)> {
    seq![
        ("requirements"@, encode_list::<XFlowRequirement>(v.requirements)),
        ("variables"@, DocumentVariables::encode(v.variables)),
        ("nodes"@, encode_list::<XFlowNode>(v.nodes)),
        ("edges"@, encode_list::<XFlowEdge>(v.edges)),
        ("branches"@, encode_list::<XFlowBranch>(v.branches)),
    ]
}

impl JsonCodec for XFlow {
    open spec fn writable(v: XFlowView) -> bool {
        &&& writable_list::<XFlowRequirement>(v.requirements)
        &&& DocumentVariables::writable(v.variables)
        &&& writable_list::<XFlowNode>(v.nodes)
        &&& writable_list::<XFlowEdge>(v.edges)
        &&& writable_list::<XFlowBranch>(v.branches)
    }

    open spec fn encode(v: XFlowView) -> JsonTree {
        object(flow_fields(v))
    }

    open spec fn decode(t: JsonTree) -> Option<XFlowView> {
        match (
            field_list::<XFlowRequirement>(t, "requirements"@),
            field_value::<DocumentVariables>(t, "variables"@),
            field_list::<XFlowNode>(t, "nodes"@),
            field_list::<XFlowEdge>(t, "edges"@),
            field_list::<XFlowBranch>(t, "branches"@),
        ) {
            (Some(requirements), Some(variables), Some(nodes), Some(edges), Some(branches)) => Some(
                XFlowView { requirements, variables, nodes, edges, branches },
            ),
            _ => None,
        }
    }

    proof fn lemma_round_trip(v: XFlowView) {
        reveal_strlit("requirements");
        reveal_strlit("variables");
        reveal_strlit("nodes");
        reveal_strlit("edges");
        reveal_strlit("branches");
        assert("requirements"@.len() == 12 && "variables"@.len() == 9);
        assert("nodes"@.len() == 5 && "nodes"@[0] == 'n');
        assert("edges"@.len() == 5 && "edges"@[0] == 'e');
        let fields = flow_fields(v);
        lemma_object_field(fields, 0);
        lemma_object_field(fields, 1);
        lemma_object_field(fields, 2);
        lemma_object_field(fields, 3);
        lemma_object_field(fields, 4);
        lemma_list_round_trip::<XFlowRequirement>(v.requirements);
        DocumentVariables::lemma_round_trip(v.variables);
        lemma_list_round_trip::<XFlowNode>(v.nodes);
        lemma_list_round_trip::<XFlowEdge>(v.edges);
        lemma_list_round_trip::<XFlowBranch>(v.branches);
    }

    fn to_value(&self) -> (v: Value) {
        let mut fields: Vec<(String, Value)> = Vec::new();
        put(&mut fields, "requirements", list_to_value::<XFlowRequirement>(&self.requirements));
        put(&mut fields, "variables", self.variables.to_value());
        put(&mut fields, "nodes", list_to_value::<XFlowNode>(&self.nodes));
        put(&mut fields, "edges", list_to_value::<XFlowEdge>(&self.edges));
        put(&mut fields, "branches", list_to_value::<XFlowBranch>(&self.branches));
        assert(field_trees(fields@) =~= flow_fields(self@));
        json_object(fields)
    }

    fn from_value(v: &Value) -> (r: Option<Self>) {
        let requirements = match get_list::<XFlowRequirement>(v, "requirements") {
            Some(x) => x,
            None => return None,
        };
        let variables = match get_value::<DocumentVariables>(v, "variables") {
            Some(x) => x,
            None => return None,
        };
        let nodes = match get_list::<XFlowNode>(v, "nodes") {
            Some(x) => x,
            None => return None,
        };
        let edges = match get_list::<XFlowEdge>(v, "edges") {
            Some(x) => x,
            None => return None,
        };
        let branches = match get_list::<XFlowBranch>(v, "branches") {
            Some(x) => x,
            None => return None,
        };
        Some(XFlow { requirements, variables, nodes, edges, branches })
    }
}

} // verus!
