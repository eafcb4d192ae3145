use gearsx::messages::common::QueryPage;
use gearsx::messages::{NewDocument, NewProject};
use gearsx::structure::common::ModelLoadError;
use gearsx::structure::modelx::ModelxDocument;
use gearsx::util::fs::{
    init_new_model_dir, is_model_dir, model_file_name, model_from_fs, model_to_fs,
};
use gearsx::util::naming::empty_uuid;
use gearsx::util::seqs::next_of;
use gearsx::util::text::{decimal_text, natural_text, same_text};

#[test]
fn a_model_directory_holds_one_file() {
    assert_eq!(model_file_name("/tmp/model"), "/tmp/model/modelx.json");
    assert_eq!(model_file_name(""), "/modelx.json");
    let file = init_new_model_dir("models/shop").unwrap();
    assert_eq!(file.filename, "models/shop/modelx.json");
    let model = model_from_fs(&file.content).unwrap();
    assert_eq!(model.doctype, "modelx");
    assert_eq!(model.name, "default");
    assert_eq!(model.version, 0);
    assert_eq!(model.project_id, empty_uuid());
    assert!(is_model_dir(&file.content));
}

#[test]
fn a_model_is_stored_as_indented_json() {
    let mut model = ModelxDocument::new(&empty_uuid(), "modelx".into());
    model.name = "Shop".to_string();
    let file = model_to_fs(&model, "here").unwrap();
    assert_eq!(file.filename, "here/modelx.json");
    assert_eq!(file.content, model.to_json());
    assert!(file.content.starts_with("{\n  \"id\": \""));
    assert_eq!(model_from_fs(&file.content), Ok(model));
}

#[test]
fn other_texts_make_no_model_directory() {
    assert!(!is_model_dir(""));
    assert!(!is_model_dir("{}"));
    assert!(!is_model_dir("modelx"));
    assert!(matches!(model_from_fs("{"), Err(ModelLoadError::UnParseable(_))));
    assert!(matches!(model_from_fs("[]"), Err(ModelLoadError::BadStructure(_))));
}

#[test]
fn a_page_without_limit_fetches_everything() {
    assert_eq!(QueryPage::default(), QueryPage { limit: None, offset: Some(0) });
    assert_eq!(QueryPage::default().window(), None);
    assert_eq!(QueryPage { limit: None, offset: Some(30) }.window(), None);
    assert_eq!(QueryPage { limit: Some(10), offset: Some(30) }.window(), Some((10, 30)));
    assert_eq!(QueryPage { limit: Some(10), offset: None }.window(), Some((10, 0)));
    assert_eq!(QueryPage::window_of(None), None);
    assert_eq!(QueryPage::window_of(Some(QueryPage { limit: Some(5), offset: None })), Some((5, 0)));
}

#[test]
fn inputs_get_their_owner() {
    let owner = empty_uuid();
    let project = NewProject { name: "Shop".into(), description: Some("a shop".into()) };
    let dto = project.to_dto(&owner);
    assert_eq!(dto.name, "Shop");
    assert_eq!(dto.description, Some("a shop".to_string()));
    assert_eq!(dto.owner, owner);
    let document = NewDocument { name: "Orders".into(), description: None, project_id: owner };
    let dto = document.to_dto(&owner);
    assert_eq!(dto.name, "Orders");
    assert_eq!(dto.description, None);
    assert_eq!(dto.project_id, owner);
    assert_eq!(dto.owner, owner);
}

#[test]
fn texts_are_compared_by_their_characters() {
    assert!(same_text("", ""));
    assert!(same_text("start", "start"));
    assert!(!same_text("start", "Start"));
    assert!(!same_text("start", "star"));
    assert!(same_text("\u{e9}t\u{e9}", "\u{e9}t\u{e9}"));
    assert!(!same_text("\u{e9}", "e\u{301}"));
}

#[test]
fn the_next_identifier_follows_the_greatest() {
    assert_eq!(next_of(&vec![]), 1);
    assert_eq!(next_of(&vec![1, 3, 2]), 4);
    assert_eq!(next_of(&vec![7]), 8);
    assert_eq!(next_of(&vec![-9, -3]), -2);
    assert_eq!(next_of(&vec![0]), 1);
    assert_eq!(next_of(&vec![2147483646, 5]), 2147483647);
}

#[test]
fn numbers_are_written_in_decimal() {
    assert_eq!(natural_text(0), "0");
    assert_eq!(natural_text(7), "7");
    assert_eq!(natural_text(10), "10");
    assert_eq!(natural_text(1_000_000), "1000000");
    assert_eq!(natural_text(4_294_967_295), "4294967295");
    assert_eq!(decimal_text(0), "0");
    assert_eq!(decimal_text(9), "9");
    assert_eq!(decimal_text(-1), "-1");
    assert_eq!(decimal_text(120), "120");
    assert_eq!(decimal_text(-3050), "-3050");
    assert_eq!(decimal_text(2147483647), "2147483647");
    assert_eq!(decimal_text(-2147483648), "-2147483648");
    for n in [-100_001, -99, -10, 5, 11, 99, 100, 101, 65_536, 123_456_789] {
        assert_eq!(decimal_text(n), n.to_string());
    }
}
