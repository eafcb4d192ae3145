use gearsx::messages::AddStringAttributeToEntity;
use gearsx::structure::data::{VType, VTypeString};
use gearsx::structure::domain::{Attribute, Domain, DomainError, Entity};
use gearsx::util::naming::empty_uuid;

#[test]
fn test_add_and_remove_entities() {
    let _ = env_logger::try_init();

    let mut domain = Domain::default();
    let order_entity = domain.add_entity("Order").expect("Expect to be able to add an Order Entity");
    assert_eq!(domain.entities.len(), 1);
    let order_item_entity =
        domain.add_entity("OrderItem").expect("Expect to be able to add an OrderItem Entity");
    assert_eq!(domain.entities.len(), 2);
    domain
        .remove_entity(order_item_entity.id)
        .expect("Expect to be able to remove an OrderItem Entity");
    assert_eq!(domain.entities.len(), 1);
    domain.remove_entity(order_entity.id).expect("Expect to be able to remove an Order Entity");
    assert_eq!(domain.entities.len(), 0);
}

#[test]
fn test_add_and_remove_entities_error_scenarios() {
    let _ = env_logger::try_init();

    let mut domain = Domain::default();

    let order_entity = domain.add_entity("Order").expect("Expect to be able to add an Order Entity");
    assert_eq!(domain.entities.len(), 1);

    let order_entity_2 = domain.add_entity("Order");
    assert_eq!(order_entity_2, Err(DomainError::EntityAlreadyExists("Order".into())));

    let remove_entity = domain.remove_entity(55);
    assert_eq!(remove_entity, Err(DomainError::EntityDoesNotExist(55)));

    let remove_entity_2 = domain.remove_entity(order_entity.id);
    assert_eq!(remove_entity_2, Ok(()));
}

fn string_attribute(entity_id: i32, name: &str, default: Option<&str>) -> AddStringAttributeToEntity {
    AddStringAttributeToEntity {
        project_id: empty_uuid(),
        domain_id: empty_uuid(),
        entity_id,
        name: name.to_string(),
        default: default.map(|d| d.to_string()),
    }
}

fn all_ids(domain: &Domain) -> Vec<i32> {
    let mut ids = Vec::new();
    for entity in &domain.entities {
        ids.push(entity.id);
        for attribute in &entity.attributes {
            ids.push(attribute.id);
        }
        for reference in &entity.references {
            ids.push(reference.id);
        }
    }
    ids
}

fn assert_unique(domain: &Domain) {
    let mut ids = all_ids(domain);
    let n = ids.len();
    ids.sort();
    ids.dedup();
    assert_eq!(ids.len(), n);
}

#[test]
fn entity_ids_count_up_from_one() {
    let mut domain = Domain::default();
    assert_eq!(domain.next_id(), 1);
    let order = domain.add_entity("Order").unwrap();
    assert_eq!(order.id, 1);
    assert_eq!(order.name, "Order");
    assert!(order.attributes.is_empty());
    assert!(order.references.is_empty());
    let item = domain.add_entity("OrderItem").unwrap();
    assert_eq!(item.id, 2);
    assert_eq!(domain.entities[1], item);
    assert_eq!(domain.next_id(), 3);
}

#[test]
fn duplicate_entity_leaves_the_domain_alone() {
    let mut domain = Domain::default();
    domain.add_entity("Order").unwrap();
    let before = domain.clone();
    assert_eq!(domain.add_entity("Order"), Err(DomainError::EntityAlreadyExists("Order".into())));
    assert_eq!(domain, before);
    assert_eq!(domain.entities.len(), 1);
}

#[test]
fn entity_names_are_case_sensitive() {
    let mut domain = Domain::default();
    domain.add_entity("Order").unwrap();
    assert_eq!(domain.add_entity("order").unwrap().id, 2);
}

#[test]
fn remove_from_an_empty_domain_fails() {
    let mut domain = Domain::default();
    assert_eq!(domain.remove_entity(55), Err(DomainError::EntityDoesNotExist(55)));
    assert_eq!(domain, Domain::default());
}

#[test]
fn attribute_ids_span_entities() {
    let mut domain = Domain::default();
    let mut a = Entity::new(10, "A");
    a.add_attribute(Attribute::new(1, "first", VType::VTypeString(VTypeString { default: None })))
        .unwrap();
    // Entity ids out of the way, so that the attribute's id is what counts.
    a.id = 0;
    let mut b = Entity::new(-1, "B");
    b.id = -1;
    domain.entities.push(a);
    domain.entities.push(b);
    let made = domain
        .entity_add_string_attribute(-1, &string_attribute(-1, "second", Some("x")))
        .unwrap();
    assert_eq!(made.id, 2);
    assert_eq!(made.name, "second");
    assert_eq!(made.vtype, VType::VTypeString(VTypeString { default: Some("x".to_string()) }));
    assert!(made.validations.is_empty());
    assert_eq!(domain.entities[1].attributes, vec![made]);
    assert_eq!(domain.entities[0].attributes.len(), 1);
}

#[test]
fn attribute_of_a_missing_entity_is_refused() {
    let mut domain = Domain::default();
    domain.add_entity("Order").unwrap();
    let before = domain.clone();
    assert_eq!(
        domain.entity_add_string_attribute(7, &string_attribute(7, "x", None)),
        Err(DomainError::EntityDoesNotExist(7))
    );
    assert_eq!(domain, before);
}

#[test]
fn ids_stay_unique_over_a_run_of_edits() {
    let mut domain = Domain::default();
    let order = domain.add_entity("Order").unwrap();
    let item = domain.add_entity("OrderItem").unwrap();
    domain.entity_add_string_attribute(order.id, &string_attribute(order.id, "no", None)).unwrap();
    domain.entity_add_string_attribute(item.id, &string_attribute(item.id, "sku", None)).unwrap();
    assert_unique(&domain);
    assert_eq!(all_ids(&domain), vec![1, 3, 2, 4]);
    domain.remove_entity(order.id).unwrap();
    assert_unique(&domain);
    let customer = domain.add_entity("Customer").unwrap();
    assert_eq!(customer.id, 5);
    domain
        .entity_add_string_attribute(customer.id, &string_attribute(customer.id, "name", None))
        .unwrap();
    assert_unique(&domain);
    assert_eq!(all_ids(&domain), vec![2, 4, 5, 6]);
}

#[test]
fn a_freed_highest_id_is_handed_out_again() {
    let mut domain = Domain::default();
    domain.add_entity("Order").unwrap();
    let item = domain.add_entity("OrderItem").unwrap();
    assert_eq!(item.id, 2);
    domain.remove_entity(2).unwrap();
    assert_eq!(domain.add_entity("Customer").unwrap().id, 2);
}

#[test]
fn next_id_follows_the_greatest_id_even_below_zero() {
    let mut domain = Domain::default();
    domain.entities.push(Entity::new(-5, "Low"));
    assert_eq!(domain.next_id(), -4);
    domain.entities.push(Entity::new(41, "High"));
    assert_eq!(domain.next_id(), 42);
}

#[test]
fn lookups_need_exactly_one_match() {
    let mut domain = Domain::default();
    domain.add_entity("Order").unwrap();
    assert!(domain.has_entity(1));
    assert!(!domain.has_entity(2));
    assert!(domain.has_entity_name("Order"));
    assert!(!domain.has_entity_name("Nope"));
    assert_eq!(domain.get_entity(1).unwrap().name, "Order");
    assert_eq!(domain.get_entity(9), Err(DomainError::EntityDoesNotExist(9)));
    assert_eq!(domain.get_entity_name("Order").unwrap().id, 1);
    assert_eq!(domain.get_entity_name("Nope"), Err(DomainError::EntityDoesNotExist(0)));
    domain.get_entity_mut(1).unwrap().name = "Purchase".to_string();
    assert_eq!(domain.entities[0].name, "Purchase");
    assert_eq!(domain.get_entity_mut(9).err(), Some(DomainError::EntityDoesNotExist(9)));

    // Legacy data with a doubled identifier or name: no lookup settles on one.
    domain.entities.push(Entity::new(1, "Purchase"));
    assert!(!domain.has_entity(1));
    assert!(!domain.has_entity_name("Purchase"));
    assert_eq!(domain.get_entity(1), Err(DomainError::EntityDoesNotExist(1)));
    assert_eq!(domain.get_entity_mut(1).err(), Some(DomainError::EntityDoesNotExist(1)));
    assert_eq!(domain.get_entity_name("Purchase"), Err(DomainError::EntityDoesNotExist(0)));
    assert_eq!(
        domain.entity_add_string_attribute(1, &string_attribute(1, "x", None)),
        Err(DomainError::EntityDoesNotExist(1))
    );
    assert_eq!(
        domain.add_entity("Purchase"),
        Err(DomainError::EntityAlreadyExists("Purchase".to_string()))
    );
    // Removal takes the first of them.
    assert_eq!(domain.remove_entity(1), Ok(()));
    assert_eq!(domain.entities.len(), 1);
}

#[test]
fn entity_attributes_by_name() {
    let mut entity = Entity::new(1, "Order");
    let attribute = Attribute::new(2, "no", VType::VTypeString(VTypeString { default: None }));
    assert_eq!(entity.add_attribute(attribute.clone()), Ok(()));
    assert_eq!(entity.clone().get_attribute("no"), Ok(attribute.clone()));
    assert_eq!(
        entity.clone().get_attribute("sku"),
        Err("Attribute sku does not exist".to_string())
    );
    entity.add_attribute(attribute).unwrap();
    assert_eq!(entity.get_attribute("no"), Err("Attribute no does not exist".to_string()));
}

#[test]
fn domain_errors_as_text() {
    assert_eq!(DomainError::EntityDoesNotExist(55).to_string(), "id:55");
    assert_eq!(DomainError::EntityDoesNotExist(-7).to_string(), "id:-7");
    assert_eq!(DomainError::AttributeDoesNotExist(1, 20).to_string(), "id:1/id:20");
    assert_eq!(DomainError::ReferenceDoesNotExist(3, 0).to_string(), "id:3/id:0");
    assert_eq!(DomainError::EntityAlreadyExists("Order".into()).to_string(), "Order");
    assert_eq!(DomainError::AttributeAlreadyExists(1, "no".into()).to_string(), "id:1/no");
    assert_eq!(DomainError::ReferenceAlreadyExists(2147483647, "r".into()).to_string(), "id:2147483647/r");
}

#[test]
fn a_taken_name_and_a_full_counter_are_told_beforehand() {
    let mut domain = Domain::default();
    assert!(!domain.entity_name_taken("Order"));
    assert!(domain.has_next_id());
    domain.add_entity("Order").unwrap();
    assert!(domain.entity_name_taken("Order"));
    assert!(!domain.entity_name_taken("order"));
    domain.entities.push(Entity::new(2147483647, "Order"));
    assert!(domain.entity_name_taken("Order"));
    assert!(!domain.has_entity_name("Order"));
    assert!(!domain.has_next_id());
    // Refused for the name, so the full counter does not matter.
    assert_eq!(
        domain.add_entity("Order"),
        Err(DomainError::EntityAlreadyExists("Order".to_string()))
    );
    assert_eq!(domain.all_ids(), vec![1, 2147483647]);
}
