use gearsx::db::models::{DispatchError, Document as StoredDocument, GearsDocument, SaveError};
use gearsx::messages::{AddStringAttributeToEntity, FnGroupFnUpdate};
use gearsx::serial::fields::JsonCodec;
use gearsx::serial::tree::yaml_within_reach;
use gearsx::structure::common::{DocumentReference, ModelLoadError};
use gearsx::structure::data::{
    DocumentVariables, Position, VType, VTypeBoolean, VTypeInteger, VTypeString,
    VariableDefinition,
};
use gearsx::structure::domain::{
    Domain, DomainDocument, Reference, ReferenceType, Validation,
};
use gearsx::structure::fngroup::{Fngroup, FngroupDocument};
use gearsx::structure::modelx::{Modelx, ModelxDocument};
use gearsx::structure::xflow::{
    CallParameters, FloxParameters, XFlow, XFlowBranch, XFlowDocument, XFlowEdge, XFlowNode,
    XFlowNodeParameters, XFlowNodeType,
};
use gearsx::util::naming::{empty_uuid, label_to_uuid};

fn id(n: u8) -> uuid::Uuid {
    label_to_uuid(&format!("936da01f-9abd-4d9d-80c7-02af85c822{:02x}", n)).unwrap()
}

fn reference(n: u8) -> DocumentReference {
    DocumentReference { id: id(n), doctype: "xflow".to_string() }
}

fn variable(id: i32, name: &str, vtype: VType) -> VariableDefinition {
    VariableDefinition { id, name: name.to_string(), vtype }
}

fn rich_domain() -> DomainDocument {
    let mut doc = DomainDocument::new(&id(1), "domain".into());
    doc.id = id(2);
    doc.name = "Shop \u{1F6D2} \"quoted\"\n".to_string();
    doc.version = 7;
    doc.body.events.all.push(reference(3));
    doc.body.events.change.push(reference(4));
    doc.body.events.change.push(reference(5));
    let order = doc.body.add_entity("Order").unwrap();
    let item = doc.body.add_entity("true").unwrap();
    let message = AddStringAttributeToEntity {
        project_id: empty_uuid(),
        domain_id: empty_uuid(),
        entity_id: order.id,
        name: "no".to_string(),
        default: Some("0001".to_string()),
    };
    doc.body.entity_add_string_attribute(order.id, &message).unwrap();
    let message = AddStringAttributeToEntity { default: None, name: "~".to_string(), ..message };
    doc.body.entity_add_string_attribute(item.id, &message).unwrap();
    doc.body.entities[0].attributes[0]
        .validations
        .push(Validation { message: "must be set".to_string(), xflow: reference(6) });
    doc.body.entities[0].attributes[0].vtype =
        VType::VTypeInteger(VTypeInteger { default: Some(-3), min: Some(-2147483648), max: None });
    doc.body.entities[1].attributes[0].vtype = VType::VTypeBoolean(VTypeBoolean { default: None });
    doc.body.entities[1].references.push(Reference {
        id: 9,
        name: "order".to_string(),
        reftype: ReferenceType::BelongsTo,
        other: "Order".to_string(),
    });
    doc.body.entities[0].references.push(Reference {
        id: 10,
        name: "items".to_string(),
        reftype: ReferenceType::HasMany,
        other: "true".to_string(),
    });
    doc
}

fn rich_flow() -> XFlowDocument {
    let mut doc = XFlowDocument::new(&id(1), "xflow".into());
    doc.id = id(7);
    let flag = variable(1, "flag", VType::VTypeBoolean(VTypeBoolean { default: Some(false) }));
    let text = variable(2, "text", VType::VTypeString(VTypeString { default: Some("".into()) }));
    let count = variable(
        3,
        "count",
        VType::VTypeInteger(VTypeInteger { default: None, min: Some(0), max: Some(2147483647) }),
    );
    doc.body.variables = DocumentVariables {
        input: vec![flag.clone()],
        local: vec![text, count.clone()],
        output: vec![],
    };
    doc.body.nodes.push(XFlowNode {
        id: 3,
        nodetype: XFlowNodeType::Flox,
        position: Position { x: -5, y: 100 },
        action: "evalexpr".to_string(),
        label: "Count".to_string(),
        parameters: XFlowNodeParameters::Flox(FloxParameters {
            expression: "count + 1".to_string(),
            returns: count,
        }),
    });
    doc.body.nodes.push(XFlowNode {
        id: 4,
        nodetype: XFlowNodeType::Call,
        position: Position { x: 0, y: 0 },
        action: "call".to_string(),
        label: "".to_string(),
        parameters: XFlowNodeParameters::Call(CallParameters {}),
    });
    doc.body.edges.push(XFlowEdge { source: 1, target: 3 });
    doc.body.branches.push(XFlowBranch { edge: XFlowEdge { source: 1, target: 3 }, xvar: flag });
    doc
}

fn rich_group() -> FngroupDocument {
    let mut doc = FngroupDocument::new(&id(1), "fngroup".into());
    doc.id = id(8);
    doc.body.add_fn("sum").unwrap();
    doc.body.add_fn("max").unwrap();
    doc.body
        .update_fn(&FnGroupFnUpdate {
            id: 2,
            name: None,
            description: Some("the greater".into()),
            body: Some("export function max(a: i32, b: i32): i32 { return a > b ? a : b }".into()),
        })
        .unwrap();
    doc.body.fns[1].input.push(variable(
        1,
        "a",
        VType::VTypeInteger(VTypeInteger { default: None, min: None, max: None }),
    ));
    doc.body.fns[1].output.push(variable(
        2,
        "r",
        VType::VTypeInteger(VTypeInteger { default: Some(0), min: None, max: None }),
    ));
    doc
}

#[test]
fn a_domain_document_reads_back_from_json() {
    let doc = rich_domain();
    assert_eq!(DomainDocument::from_json(&doc.to_json()), Ok(doc.clone()));
    assert_eq!(DomainDocument::from_json(&doc.to_json_compact()), Ok(doc.clone()));
    assert_eq!(DomainDocument::from_value(&doc.to_value()), Some(doc));
}

#[test]
fn a_domain_document_reads_back_from_yaml() {
    let doc = rich_domain();
    let yaml = doc.to_yaml().unwrap();
    assert_eq!(DomainDocument::from_yaml(&yaml), Ok(doc));
}

#[test]
fn an_xflow_document_reads_back() {
    let doc = rich_flow();
    assert_eq!(XFlowDocument::from_json(&doc.to_json()), Ok(doc.clone()));
    assert_eq!(XFlowDocument::from_yaml(&doc.to_yaml().unwrap()), Ok(doc.clone()));
    let fresh = XFlowDocument::default();
    assert_eq!(XFlowDocument::from_json(&fresh.to_json()), Ok(fresh));
}

#[test]
fn a_fngroup_document_reads_back() {
    let doc = rich_group();
    assert_eq!(FngroupDocument::from_json(&doc.to_json()), Ok(doc.clone()));
    assert_eq!(FngroupDocument::from_yaml(&doc.to_yaml().unwrap()), Ok(doc));
}

#[test]
fn a_model_document_reads_back() {
    let mut doc = ModelxDocument::new(&id(1), "modelx".into());
    doc.version = 2147483647;
    assert_eq!(ModelxDocument::from_json(&doc.to_json()), Ok(doc.clone()));
    assert_eq!(ModelxDocument::from_yaml(&doc.to_yaml().unwrap()), Ok(doc));
}

#[test]
fn a_new_domain_as_json() {
    let mut doc = DomainDocument::new(&empty_uuid(), "domain".into());
    doc.id = id(2);
    doc.body.add_entity("Order").unwrap();
    let message = AddStringAttributeToEntity {
        project_id: empty_uuid(),
        domain_id: empty_uuid(),
        entity_id: 1,
        name: "no".to_string(),
        default: None,
    };
    doc.body.entity_add_string_attribute(1, &message).unwrap();
    let expected = "{\"id\":\"936da01f-9abd-4d9d-80c7-02af85c82202\",\"project_id\":\"00000000-0000-0000-0000-000000000000\",\"name\":\"default\",\"doctype\":\"domain\",\"version\":0,\"created_at\":\"1970-01-01T00:00:00\",\"updated_at\":\"1970-01-01T00:00:00\",\"body\":{\"events\":{\"change\":[],\"update\":[],\"read\":[],\"delete\":[],\"all\":[]},\"entities\":[{\"id\":1,\"name\":\"Order\",\"attributes\":[{\"id\":2,\"name\":\"no\",\"vtype\":{\"type\":\"string\",\"default\":null},\"validations\":[]}],\"references\":[]}]}}";
    assert_eq!(doc.to_json_compact(), expected);
}

#[test]
fn the_default_flow_as_json() {
    let body = XFlow::default().to_value();
    let expected = "{\"requirements\":[{\"xtype\":\"flow\",\"version\":1}],\"variables\":{\"input\":[],\"local\":[],\"output\":[]},\"nodes\":[{\"id\":1,\"nodetype\":\"flow\",\"position\":[0,0],\"action\":\"start\",\"label\":\"Start\",\"parameters\":{\"type\":\"flow\"}},{\"id\":2,\"nodetype\":\"flow\",\"position\":[200,0],\"action\":\"end\",\"label\":\"End\",\"parameters\":{\"type\":\"flow\"}}],\"edges\":[[1,2]],\"branches\":[]}";
    assert_eq!(body.to_string(), expected);
}

#[test]
fn a_model_document_as_yaml() {
    let mut doc = ModelxDocument::new(&empty_uuid(), "modelx".into());
    doc.id = id(2);
    let expected = "---\nid: 936da01f-9abd-4d9d-80c7-02af85c82202\nproject_id: 00000000-0000-0000-0000-000000000000\nname: default\ndoctype: modelx\nversion: 0\ncreated_at: \"1970-01-01T00:00:00\"\nupdated_at: \"1970-01-01T00:00:00\"\nbody: {}\n";
    assert_eq!(doc.to_yaml().unwrap(), expected);
    assert_eq!(ModelxDocument::from_yaml(expected), Ok(doc));
}

#[test]
fn text_that_is_no_yaml_is_unparseable() {
    match ModelxDocument::from_yaml("a: [1, 2") {
        Err(ModelLoadError::UnParseable(detail)) => assert!(!detail.is_empty()),
        other => panic!("expected UnParseable, got {:?}", other),
    }
    assert_eq!(
        ModelxDocument::from_yaml("- 1\n- 2\n"),
        Err(ModelLoadError::BadStructure(
            "the text does not describe a document of this kind".to_string()
        ))
    );
}

#[test]
fn optional_values_may_be_null_or_missing() {
    let with_null = "{\"type\":\"integer\",\"default\":null,\"min\":1,\"max\":null}";
    let missing = "{\"type\":\"integer\",\"min\":1}";
    let expected = VType::VTypeInteger(VTypeInteger { default: None, min: Some(1), max: None });
    let read = |text: &str| VType::from_value(&text.parse().unwrap());
    assert_eq!(read(with_null), Some(expected.clone()));
    assert_eq!(read(missing), Some(expected));
    assert_eq!(read("{\"type\":\"integer\",\"min\":1.5}"), None);
    assert_eq!(read("{\"type\":\"integer\",\"min\":\"1\"}"), None);
    assert_eq!(read("{\"type\":\"float\"}"), None);
    assert_eq!(read("{\"default\":\"x\"}"), None);
    assert_eq!(
        read("{\"type\":\"string\",\"default\":\"x\"}"),
        Some(VType::VTypeString(VTypeString { default: Some("x".to_string()) }))
    );
    assert_eq!(read("{\"type\":\"string\",\"default\":1}"), None);
    assert_eq!(
        read("{\"type\":\"boolean\",\"default\":true}"),
        Some(VType::VTypeBoolean(VTypeBoolean { default: Some(true) }))
    );
    assert_eq!(read("{\"type\":\"boolean\",\"default\":0}"), None);
}

#[test]
fn positions_and_edges_are_pairs() {
    let read = |text: &str| Position::from_value(&text.parse().unwrap());
    assert_eq!(read("[3,-4]"), Some(Position { x: 3, y: -4 }));
    assert_eq!(read("[3]"), None);
    assert_eq!(read("[3,4,5]"), None);
    assert_eq!(read("[3,4.0]"), None);
    assert_eq!(read("[3,2147483648]"), None);
    assert_eq!(read("{\"x\":3,\"y\":4}"), None);
    assert_eq!(Position { x: 3, y: -4 }.to_value().to_string(), "[3,-4]");
    let edge = |text: &str| XFlowEdge::from_value(&text.parse().unwrap());
    assert_eq!(edge("[1,2]"), Some(XFlowEdge { source: 1, target: 2 }));
    assert_eq!(edge("[1,\"2\"]"), None);
}

#[test]
fn names_of_kinds_are_lower_case() {
    let kind = |text: &str| XFlowNodeType::from_value(&text.parse().unwrap());
    assert_eq!(kind("\"flow\""), Some(XFlowNodeType::Flow));
    assert_eq!(kind("\"flox\""), Some(XFlowNodeType::Flox));
    assert_eq!(kind("\"call\""), Some(XFlowNodeType::Call));
    assert_eq!(kind("\"Flow\""), None);
    assert_eq!(kind("1"), None);
    assert_eq!(XFlowNodeType::Flox.to_value().to_string(), "\"flox\"");
    let reftype = |text: &str| ReferenceType::from_value(&text.parse().unwrap());
    assert_eq!(reftype("\"has_many\""), Some(ReferenceType::HasMany));
    assert_eq!(reftype("\"belongs_to\""), Some(ReferenceType::BelongsTo));
    assert_eq!(reftype("\"HasMany\""), None);
    assert_eq!(ReferenceType::BelongsTo.to_value().to_string(), "\"belongs_to\"");
}

#[test]
fn node_parameters_are_tagged_by_type() {
    let read = |text: &str| XFlowNodeParameters::from_value(&text.parse().unwrap());
    assert_eq!(read("{\"type\":\"call\"}"), Some(XFlowNodeParameters::Call(CallParameters {})));
    assert_eq!(read("{\"type\":\"flox\"}"), None);
    assert_eq!(read("{\"call\":{}}"), None);
    let flox = XFlowNodeParameters::Flox(FloxParameters {
        expression: "a".to_string(),
        returns: variable(1, "r", VType::VTypeBoolean(VTypeBoolean { default: None })),
    });
    let text = "{\"type\":\"flox\",\"expression\":\"a\",\"returns\":{\"id\":1,\"name\":\"r\",\"vtype\":{\"type\":\"boolean\",\"default\":null}}}";
    assert_eq!(flox.to_value().to_string(), text);
    assert_eq!(read(text), Some(flox));
}

fn stored(doc: &DomainDocument) -> StoredDocument {
    StoredDocument::from_raw(doc.as_raw())
}

#[test]
fn a_stored_document_is_recovered_by_its_kind() {
    let doc = rich_domain();
    let record = stored(&doc);
    assert_eq!(record.id, doc.id);
    assert_eq!(record.version, 7);
    assert_eq!(record.doctype, "domain");
    assert!(record.is_sound());
    assert_eq!(record.as_domain(), Ok(doc.clone()));
    assert_eq!(record.recover::<Domain>(), Ok(doc.clone()));
    assert_eq!(record.concrete(), Some(GearsDocument::Domain(doc)));
}

#[test]
fn a_document_of_another_kind_is_refused() {
    let mut record = stored(&DomainDocument::default());
    record.doctype = "xflow".to_string();
    record.body = XFlow::default().to_value();
    assert!(record.is_sound());
    assert_eq!(record.as_domain(), Err("Not a domain document".to_string()));
    assert_eq!(record.as_fngroup(), Err("Not a fngroup document".to_string()));
    assert_eq!(record.as_modelx(), Err("Not a modelx document".to_string()));
    assert_eq!(
        record.recover::<Domain>(),
        Err(DispatchError::WrongDoctype {
            expected: "domain".to_string(),
            actual: "xflow".to_string()
        })
    );
    let flow = record.as_xflow().unwrap();
    assert_eq!(flow.body, XFlow::default());
    assert_eq!(flow.doctype, "xflow");
    assert_eq!(record.concrete(), Some(GearsDocument::XFlow(flow)));
}

#[test]
fn every_known_kind_is_dispatched() {
    let mut record = stored(&DomainDocument::default());
    record.doctype = "fngroup".to_string();
    record.body = Fngroup::default().to_value();
    assert_eq!(record.as_xflow(), Err("Not a xflow document".to_string()));
    let group = record.as_fngroup().unwrap();
    assert_eq!(record.concrete(), Some(GearsDocument::Fngroup(group)));
    record.doctype = "modelx".to_string();
    record.body = Modelx {}.to_value();
    let model = record.as_modelx().unwrap();
    assert_eq!(record.concrete(), Some(GearsDocument::Modelx(model)));
    record.doctype = "docstore".to_string();
    assert!(record.is_sound());
    assert_eq!(record.concrete(), None);
    assert_eq!(record.as_domain(), Err("Not a domain document".to_string()));
    assert_eq!(record.as_xflow(), Err("Not a xflow document".to_string()));
    assert_eq!(record.as_fngroup(), Err("Not a fngroup document".to_string()));
    assert_eq!(record.as_modelx(), Err("Not a modelx document".to_string()));
}

#[test]
fn a_corrupt_record_is_told_apart() {
    let mut record = stored(&DomainDocument::default());
    record.body = XFlow::default().to_value();
    assert!(!record.is_sound());
    assert_eq!(
        record.recover::<Domain>(),
        Err(DispatchError::CorruptBody { doctype: "domain".to_string() })
    );
}

#[test]
fn only_the_next_revision_is_stored() {
    let mut doc = rich_domain();
    let record = stored(&doc);
    assert_eq!(record.version, 7);
    assert_eq!(
        record.check_save(&doc.as_raw()),
        Err(SaveError::VersionConflict { stored: 7, incoming: 7 })
    );
    assert_eq!(doc.change(), 8);
    assert_eq!(record.check_save(&doc.as_raw()), Ok(()));
    doc.change();
    assert_eq!(
        record.check_save(&doc.as_raw()),
        Err(SaveError::VersionConflict { stored: 7, incoming: 9 })
    );
    let mut last = stored(&doc);
    last.version = 2147483647;
    doc.version = -2147483648;
    assert_eq!(
        last.check_save(&doc.as_raw()),
        Err(SaveError::VersionConflict { stored: 2147483647, incoming: -2147483648 })
    );
}

#[test]
fn booleans_and_missing_bodies() {
    let flag = VType::VTypeBoolean(VTypeBoolean { default: Some(true) });
    assert_eq!(flag.to_value().to_string(), "{\"type\":\"boolean\",\"default\":true}");
    let text = VType::VTypeString(VTypeString { default: Some("a\"b".to_string()) });
    assert_eq!(text.to_value().to_string(), "{\"type\":\"string\",\"default\":\"a\\\"b\"}");
    assert_eq!(Modelx::from_value(&"{}".parse().unwrap()), Some(Modelx {}));
    assert_eq!(Modelx::from_value(&"{\"x\":1}".parse().unwrap()), Some(Modelx {}));
    assert_eq!(Modelx::from_value(&"[]".parse().unwrap()), None);
    assert_eq!(Modelx::from_value(&"null".parse().unwrap()), None);
    assert_eq!(Modelx {}.to_value().to_string(), "{}");
    let text = ModelxDocument::new(&empty_uuid(), "modelx".into()).to_json().replace("{}", "[]");
    assert!(matches!(ModelxDocument::from_json(&text), Err(ModelLoadError::BadStructure(_))));
}

#[test]
fn a_record_of_another_kind_is_refused_whatever_its_body() {
    let mut record = stored(&DomainDocument::default());
    record.doctype = "xflow".to_string();
    record.body = "null".parse().unwrap();
    assert!(!record.reads_as::<XFlow>());
    assert!(!record.reads_as::<Domain>());
    assert!(!record.is_sound());
    assert_eq!(record.as_domain(), Err("Not a domain document".to_string()));
    assert_eq!(record.as_fngroup(), Err("Not a fngroup document".to_string()));
    assert_eq!(record.as_modelx(), Err("Not a modelx document".to_string()));
    record.body = "{\"entities\": 7}".parse().unwrap();
    assert_eq!(record.as_domain(), Err("Not a domain document".to_string()));
    record.doctype = "domain".to_string();
    assert_eq!(record.as_xflow(), Err("Not a xflow document".to_string()));
    record.doctype = "docstore".to_string();
    assert_eq!(record.as_domain(), Err("Not a domain document".to_string()));
    assert_eq!(record.as_xflow(), Err("Not a xflow document".to_string()));
}

#[test]
fn a_body_is_tested_against_one_kind() {
    let mut record = stored(&rich_domain());
    assert!(record.reads_as::<Domain>());
    assert!(!record.reads_as::<XFlow>());
    assert!(!record.reads_as::<Fngroup>());
    // Every object reads as the body of a model, which has no fields.
    assert!(record.reads_as::<Modelx>());
    record.body = XFlow::default().to_value();
    assert!(record.reads_as::<XFlow>());
    assert!(!record.reads_as::<Domain>());
    record.body = "[]".parse().unwrap();
    assert!(!record.reads_as::<Modelx>());
}

#[test]
fn an_envelope_that_is_not_well_formed_is_bad_structure() {
    let bad = ModelLoadError::BadStructure(
        "the text does not describe a document of this kind".to_string(),
    );
    let good = ModelxDocument::new(&empty_uuid(), "modelx".into());
    // Every object reads as the body of a model, so only the tag tells here.
    let text = good.to_json().replace("\"doctype\": \"modelx\"", "\"doctype\": \"xflow\"");
    assert_eq!(ModelxDocument::from_json(&text), Err(bad.clone()));
    let text = good.to_json().replace("\"doctype\": \"modelx\"", "\"doctype\": \"Modelx\"");
    assert_eq!(ModelxDocument::from_json(&text), Err(bad.clone()));
    let text = good.to_json().replace("\"version\": 0", "\"version\": -1");
    assert_eq!(ModelxDocument::from_json(&text), Err(bad.clone()));
    let text = good.to_yaml().unwrap().replace("version: 0", "version: -1");
    assert_eq!(ModelxDocument::from_yaml(&text), Err(bad.clone()));
    let text = good.to_yaml().unwrap().replace("doctype: modelx", "doctype: domain");
    assert_eq!(ModelxDocument::from_yaml(&text), Err(bad.clone()));
    // A domain document under the tag of another kind.
    let text = rich_domain().to_json().replace("\"doctype\": \"domain\"", "\"doctype\": \"xflow\"");
    assert_eq!(DomainDocument::from_json(&text), Err(bad.clone()));
    let mut doc = rich_domain();
    doc.version = -7;
    assert_eq!(DomainDocument::from_value(&doc.to_value()), None);
    doc.version = 0;
    assert_eq!(DomainDocument::from_value(&doc.to_value()), Some(doc));
}

fn too_deep() -> ModelLoadError {
    ModelLoadError::UnParseable("the text is indented too deep".to_string())
}

#[test]
fn yaml_that_nests_beyond_reach_is_not_parsed() {
    let mut text = "- ".repeat(50_000);
    text.push('x');
    assert!(!yaml_within_reach(&text));
    assert_eq!(ModelxDocument::from_yaml(&text), Err(too_deep()));
    let mut doc = ModelxDocument::new(&empty_uuid(), "modelx".into());
    let before = doc.clone();
    assert_eq!(doc.update_from_yaml(&text), Err("the text is indented too deep".to_string()));
    assert_eq!(doc, before);
    // One level to each line, each indented by one more than the last.
    let mut text = String::new();
    for depth in 0..40_000 {
        text.push_str(&" ".repeat(depth % 200));
        text.push_str("a:\n");
    }
    assert_eq!(ModelxDocument::from_yaml(&text), Err(too_deep()));
    let text = format!("{}? x", ": ".repeat(100));
    assert_eq!(ModelxDocument::from_yaml(&text), Err(too_deep()));
}

#[test]
fn the_reach_of_a_yaml_text_is_its_deepest_opening_column() {
    assert!(yaml_within_reach(""));
    assert!(yaml_within_reach("a: 1\nb:\n  - 2\n  - c: 3\n"));
    // Column 128 is within reach, column 129 is not.
    assert!(yaml_within_reach(&format!("{}x", " ".repeat(128))));
    assert!(!yaml_within_reach(&format!("{}x", " ".repeat(129))));
    assert!(yaml_within_reach(&format!("{}x", "- ".repeat(64))));
    assert!(!yaml_within_reach(&format!("{}- x", "- ".repeat(64))));
    assert!(yaml_within_reach(&format!("a:\n{}x", "\t".repeat(128))));
    assert!(!yaml_within_reach(&format!("a:\n{}x", "?:".repeat(65))));
    // What follows other content on a line opens nothing, however long.
    assert!(yaml_within_reach(&format!("name: {}", "- ".repeat(5_000))));
    assert!(yaml_within_reach(&format!("name: \"{}\"\n", "x".repeat(100_000))));
    assert!(yaml_within_reach(&format!("# {}\nkey: value\n", "-".repeat(1_000))));
    // A carriage return alone breaks the line and leaves the column as it is.
    assert!(yaml_within_reach(&format!("{}\r\nb: 1", "a".repeat(500))));
    assert!(!yaml_within_reach(&format!("{}\rb: 1", "a".repeat(500))));
    assert!(yaml_within_reach(&format!("{}\rb: 1", "a".repeat(100))));
}

#[test]
fn yaml_within_reach_is_read_as_before() {
    let mut doc = rich_group();
    doc.body.fns[0].body = "x".repeat(10_000);
    doc.body.fns[1].description = format!("{}\n- - - - -\n", "- ".repeat(300));
    let yaml = doc.to_yaml().unwrap();
    assert!(yaml_within_reach(&yaml));
    assert_eq!(FngroupDocument::from_yaml(&yaml), Ok(doc));
    let nested = format!("{}x", "- ".repeat(60));
    assert!(matches!(ModelxDocument::from_yaml(&nested), Err(ModelLoadError::BadStructure(_))));
    let flow = format!("{}{}", "[".repeat(300), "]".repeat(300));
    assert!(matches!(ModelxDocument::from_yaml(&flow), Err(ModelLoadError::UnParseable(_))));
}

#[test]
fn a_new_document_reads_back() {
    let doc = DomainDocument::new(&id(1), "domain".into());
    assert_eq!(DomainDocument::from_value(&doc.to_value()), Some(doc.clone()));
    assert_eq!(DomainDocument::from_json(&doc.to_json()), Ok(doc.clone()));
    assert_eq!(DomainDocument::from_yaml(&doc.to_yaml().unwrap()), Ok(doc));
    let doc = XFlowDocument::default();
    assert_eq!(XFlowDocument::from_yaml(&doc.to_yaml().unwrap()), Ok(doc));
}
