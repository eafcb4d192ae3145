use gearsx::util::naming::{empty_uuid, label_to_uuid, uuid_to_label};

#[test]
fn empty_uuid_label_is_all_zero_digits() {
    assert_eq!(uuid_to_label(&empty_uuid()), "00000000000000000000000000000000");
}

#[test]
fn label_round_trip() {
    let id = label_to_uuid("936da01f-9abd-4d9d-80c7-02af85c822a8").unwrap();
    assert_eq!(uuid_to_label(&id), "936da01f9abd4d9d80c702af85c822a8");
    assert_eq!(label_to_uuid(&uuid_to_label(&id)), Ok(id));
}

#[test]
fn bad_label_is_rejected() {
    assert_eq!(label_to_uuid("not-a-uuid"), Err("Invalid uuid form".to_string()));
}
