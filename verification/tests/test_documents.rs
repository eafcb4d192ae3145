use gearsx::messages::DocumentProperties;
use gearsx::structure::common::{Doctype, ModelLoadError};
use gearsx::structure::domain::{Domain, DomainDocument};
use gearsx::structure::fngroup::{Fngroup, FngroupDocument};
use gearsx::structure::modelx::{Modelx, ModelxDocument};
use gearsx::structure::xflow::{XFlow, XFlowDocument};
use gearsx::util::naming::{empty_uuid, label_to_uuid};

#[test]
fn test_init_domain() {
    let doc = DomainDocument::new(&empty_uuid(), "domain".into());
    assert_eq!(doc.doctype, "domain");
}

#[test]
fn test_init_fngroup() {
    let doc = FngroupDocument::new(&empty_uuid(), "fngroup".into());
    assert_eq!(doc.doctype, "fngroup");
}

#[test]
fn test_next_id() {
    let doc = FngroupDocument::new(&empty_uuid(), "docstore".into());
    assert_eq!(doc.doctype, "fngroup");
}

#[test]
fn a_new_document_is_at_version_zero_with_the_default_body() {
    let project = label_to_uuid("936da01f-9abd-4d9d-80c7-02af85c822a8").unwrap();
    let doc = XFlowDocument::new(&project, "xflow".into());
    assert_eq!(doc.project_id, project);
    assert_eq!(doc.name, "default");
    assert_eq!(doc.doctype, "xflow");
    assert_eq!(doc.version, 0);
    assert_eq!(doc.created_at.and_utc().timestamp(), 0);
    assert_eq!(doc.created_at.and_utc().timestamp_subsec_nanos(), 0);
    assert_eq!(doc.updated_at, doc.created_at);
    assert_eq!(doc.body, XFlow::default());
    assert_eq!(doc.id.get_version_num(), 4);
    let other = XFlowDocument::new(&project, "xflow".into());
    assert_ne!(doc.id, other.id);
}

#[test]
fn default_documents_belong_to_no_project() {
    let domain = DomainDocument::default();
    assert_eq!(domain.name, "New Domain");
    assert_eq!(domain.doctype, "domain");
    assert_eq!(domain.project_id, empty_uuid());
    assert_eq!(domain.version, 0);
    assert_eq!(domain.body, Domain::default());
    let flow = XFlowDocument::default();
    assert_eq!(flow.name, "New");
    assert_eq!(flow.doctype, "xflow");
    let group = FngroupDocument::default();
    assert_eq!(group.name, "New");
    assert_eq!(group.doctype, "fngroup");
    assert_eq!(group.body, Fngroup::default());
}

#[test]
fn change_counts_one_revision() {
    let mut doc = ModelxDocument::new(&empty_uuid(), "modelx".into());
    assert_eq!(doc.change(), 1);
    assert_eq!(doc.version, 1);
    assert_eq!(doc.change(), 2);
    assert_eq!(doc.change(), 3);
    assert_eq!(doc.version, 3);
    doc.version = 41;
    assert_eq!(doc.change(), 42);
}

#[test]
fn change_props_takes_the_name_only() {
    let mut doc = DomainDocument::new(&empty_uuid(), "domain".into());
    doc.change();
    doc.change_props(&DocumentProperties { name: None, description: Some("ignored".into()) });
    assert_eq!(doc.name, "default");
    doc.change_props(&DocumentProperties { name: Some("Shop".into()), description: None });
    assert_eq!(doc.name, "Shop");
    assert_eq!(doc.version, 1);
    assert_eq!(doc.doctype, "domain");
}

fn fixed_model() -> ModelxDocument {
    let mut doc = ModelxDocument::new(&empty_uuid(), "modelx".into());
    doc.id = label_to_uuid("936da01f-9abd-4d9d-80c7-02af85c822a8").unwrap();
    doc
}

#[test]
fn documents_describe_themselves() {
    let mut doc = fixed_model();
    doc.name = "say \"hi\"".to_string();
    assert_eq!(doc.to_string(), "document 936da01f-9abd-4d9d-80c7-02af85c822a8");
    assert_eq!(
        doc.summary(),
        "Doc \"modelx\" - 936da01f-9abd-4d9d-80c7-02af85c822a8 - \"say \\\"hi\\\"\""
    );
}

#[test]
fn getters_hand_out_the_fields() {
    let doc = fixed_model();
    assert_eq!(doc.id(), &doc.id);
    assert_eq!(doc.name(), "default");
    assert_eq!(doc.doctype(), "modelx");
    assert_eq!(doc.created_at(), doc.created_at);
    assert_eq!(doc.updated_at(), doc.updated_at);
    assert_eq!(doc.body(), &Modelx {});
    assert_eq!(doc.body().id(), 1);
}

#[test]
fn a_model_document_as_json() {
    let doc = fixed_model();
    let expected = "{\n  \"id\": \"936da01f-9abd-4d9d-80c7-02af85c822a8\",\n  \"project_id\": \"00000000-0000-0000-0000-000000000000\",\n  \"name\": \"default\",\n  \"doctype\": \"modelx\",\n  \"version\": 0,\n  \"created_at\": \"1970-01-01T00:00:00\",\n  \"updated_at\": \"1970-01-01T00:00:00\",\n  \"body\": {}\n}";
    assert_eq!(doc.to_json(), expected);
    let compact = "{\"id\":\"936da01f-9abd-4d9d-80c7-02af85c822a8\",\"project_id\":\"00000000-0000-0000-0000-000000000000\",\"name\":\"default\",\"doctype\":\"modelx\",\"version\":0,\"created_at\":\"1970-01-01T00:00:00\",\"updated_at\":\"1970-01-01T00:00:00\",\"body\":{}}";
    assert_eq!(doc.to_json_compact(), compact);
    assert_eq!(ModelxDocument::from_json(expected), Ok(doc.clone()));
}

#[test]
fn text_that_is_no_json_is_unparseable() {
    match ModelxDocument::from_json("{ not json") {
        Err(ModelLoadError::UnParseable(detail)) => assert!(!detail.is_empty()),
        other => panic!("expected UnParseable, got {:?}", other),
    }
    match ModelxDocument::from_json("") {
        Err(ModelLoadError::UnParseable(_)) => {}
        other => panic!("expected UnParseable, got {:?}", other),
    }
}

#[test]
fn json_that_is_no_document_is_bad_structure() {
    let bad = ModelLoadError::BadStructure(
        "the text does not describe a document of this kind".to_string(),
    );
    assert_eq!(ModelxDocument::from_json("[1, 2, 3]"), Err(bad.clone()));
    assert_eq!(ModelxDocument::from_json("{}"), Err(bad.clone()));
    // version is a text
    let text = fixed_model().to_json().replace("\"version\": 0", "\"version\": \"0\"");
    assert_eq!(ModelxDocument::from_json(&text), Err(bad.clone()));
    // version does not fit
    let text = fixed_model().to_json().replace("\"version\": 0", "\"version\": 2147483648");
    assert_eq!(ModelxDocument::from_json(&text), Err(bad.clone()));
    // the body of a domain is no function group
    let text = DomainDocument::default().to_json();
    assert_eq!(FngroupDocument::from_json(&text), Err(bad.clone()));
    // an identifier that is none
    let text = fixed_model().to_json().replace("936da01f", "936da01g");
    assert_eq!(ModelxDocument::from_json(&text), Err(bad.clone()));
    // a time that is none
    let text = fixed_model().to_json().replace("1970-01-01T00:00:00", "yesterday");
    assert_eq!(ModelxDocument::from_json(&text), Err(bad));
}

#[test]
fn fields_beyond_the_known_ones_are_passed_over() {
    let text = fixed_model().to_json().replace("\"body\": {}", "\"body\": {\"x\": 1}, \"extra\": null");
    assert_eq!(ModelxDocument::from_json(&text), Ok(fixed_model()));
}

#[test]
fn update_from_json_replaces_the_document_or_leaves_it() {
    let mut doc = ModelxDocument::new(&empty_uuid(), "modelx".into());
    let before = doc.to_json();
    assert!(doc.update_from_json("nonsense").is_err());
    assert_eq!(doc.to_json(), before);
    let mut other = fixed_model();
    other.name = "other".to_string();
    other.version = 9;
    assert_eq!(doc.update_from_json(&other.to_json()), Ok(&other));
    assert_eq!(doc, other);
    assert_eq!(
        doc.update_from_json("[]"),
        Err("the text does not describe a document of this kind".to_string())
    );
    assert_eq!(doc, other);
    let mut third = fixed_model();
    assert_eq!(third.update_from_yaml(&other.to_yaml().unwrap()), Ok(&other));
    assert_eq!(third, other);
    assert!(third.update_from_yaml(": : :").is_err());
    assert_eq!(third, other);
}

#[test]
fn kinds_are_told_apart_by_their_tags() {
    let kinds = [Doctype::Domain, Doctype::XFlow, Doctype::Fngroup, Doctype::Modelx];
    let tags = ["domain", "xflow", "fngroup", "modelx"];
    for (kind, tag) in kinds.iter().zip(tags.iter()) {
        assert_eq!(kind.name(), *tag);
        assert_eq!(Doctype::parse(tag).as_ref(), Some(kind));
    }
    assert_eq!(Doctype::parse("Domain"), None);
    assert_eq!(Doctype::parse("docstore"), None);
    assert_eq!(Doctype::parse(""), None);
}
