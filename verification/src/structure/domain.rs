//! The entity model of a domain document: entities with attributes and
//! references, and one shared counter for all their identifiers.

use crate::messages::AddStringAttributeToEntity;
use crate::structure::common::{
    Doctype, Document, DocumentBody, DocumentReference, DocumentReferenceView,
};
use crate::structure::data::{clone_opt_string, opt_text, VType, VTypeString, VTypeView};
use crate::util::seqs::{
    has_next, ints, lemma_cut_keeps_unique, lemma_filter_first, lemma_filter_take_succ,
    lemma_flat_map_concat, lemma_insert_fresh, lemma_next_after_is_fresh, next_after, next_of,
    views,
};
use crate::util::text::{decimal_form, decimal_text, same_text};
use vstd::prelude::*;
use vstd::string::StringExecFns;

verus! {

/// A domain document.
pub type DomainDocument = Document<Domain>;

/// The entities of a domain, in order.
pub type Entities = Vec<Entity>;

/// The attributes of an entity, in order.
pub type Attributes = Vec<Attribute>;

/// The references of an entity, in order.
pub type References = Vec<Reference>;

/// The validations of an attribute, in order.
pub type Validations = Vec<Validation>;

/// Why an edit of a domain was refused.
#[derive(Debug, PartialEq, Eq)]
pub enum DomainError {
    EntityDoesNotExist(i32),
    AttributeDoesNotExist(i32, i32),
    ReferenceDoesNotExist(i32, i32),
    EntityAlreadyExists(String),
    AttributeAlreadyExists(i32, String),
    ReferenceAlreadyExists(i32, String),
}

/// For each kind of event, the documents that describe what follows it.
#[derive(Debug, PartialEq, Eq)]
pub struct Events {
    pub change: Vec<DocumentReference>,
    pub update: Vec<DocumentReference>,
    pub read: Vec<DocumentReference>,
    pub delete: Vec<DocumentReference>,
    pub all: Vec<DocumentReference>,
}

/// A rule that an attribute's values must meet, checked by a flow.
#[derive(Debug, PartialEq, Eq)]
pub struct Validation {
    pub message: String,
    pub xflow: DocumentReference,
}

/// A field of an entity.
#[derive(Debug, PartialEq, Eq)]
pub struct Attribute {
    pub id: i32,
    pub name: String,
    pub vtype: VType,
    pub validations: Vec<Validation>,
}

/// How an entity relates to the one it refers to.
#[derive(Debug, PartialEq, Eq)]
pub enum ReferenceType {
    HasMany,
    BelongsTo,
}

/// A relationship of an entity to another, which it names.
#[derive(Debug, PartialEq, Eq)]
pub struct Reference {
    pub id: i32,
    pub name: String,
    pub reftype: ReferenceType,
    pub other: String,
}

/// A table-like shape: a name, fields and relationships.
#[derive(Debug, PartialEq, Eq)]
pub struct Entity {
    pub id: i32,
    pub name: String,
    pub attributes: Attributes,
    pub references: References,
}

/// The body of a domain document.
#[derive(Debug, PartialEq, Eq)]
pub struct Domain {
    pub events: Events,
    pub entities: Entities,
}

/// The events of a domain, with the references by their views.
pub struct EventsView {
    pub change: Seq<DocumentReferenceView>,
    pub update: Seq<DocumentReferenceView>,
    pub read: Seq<DocumentReferenceView>,
    pub delete: Seq<DocumentReferenceView>,
    pub all: Seq<DocumentReferenceView>,
}

/// A validation, with texts as sequences of characters.
pub struct ValidationView {
    pub message: Seq<char>,
    pub xflow: DocumentReferenceView,
}

/// An attribute, with its identifier as a mathematical integer and its texts as
/// sequences of characters.
pub struct AttributeView {
    pub id: int,
    pub name: Seq<char>,
    pub vtype: VTypeView,
    pub validations: Seq<ValidationView>,
}

/// A reference, with its identifier as a mathematical integer and its texts as
/// sequences of characters.
pub struct ReferenceView {
    pub id: int,
    pub name: Seq<char>,
    pub reftype: ReferenceType,
    pub other: Seq<char>,
}

/// An entity, with its identifier as a mathematical integer, its name as a
/// sequence of characters, and what is inside it by its views.
pub struct EntityView {
    pub id: int,
    pub name: Seq<char>,
    pub attributes: Seq<AttributeView>,
    pub references: Seq<ReferenceView>,
}

/// A domain, with its entities by their views.
pub struct DomainView {
    pub events: EventsView,
    pub entities: Seq<EntityView>,
}

impl View for Events {
    type V = EventsView;

    open spec fn view(&self) -> EventsView {
        EventsView {
            change: views(self.change@),
            update: views(self.update@),
            read: views(self.read@),
            delete: views(self.delete@),
            all: views(self.all@),
        }
    }
}

impl View for Validation {
    type V = ValidationView;

    open spec fn view(&self) -> ValidationView {
        ValidationView { message: self.message@, xflow: self.xflow@ }
    }
}

impl View for Attribute {
    type V = AttributeView;

    open spec fn view(&self) -> AttributeView {
        AttributeView {
            id: self.id as int,
            name: self.name@,
            vtype: self.vtype@,
            validations: views(self.validations@),
        }
    }
}

impl View for Reference {
    type V = ReferenceView;

    open spec fn view(&self) -> ReferenceView {
        ReferenceView {
            id: self.id as int,
            name: self.name@,
            reftype: self.reftype,
            other: self.other@,
        }
    }
}

impl View for Entity {
    type V = EntityView;

    open spec fn view(&self) -> EntityView {
        EntityView {
            id: self.id as int,
            name: self.name@,
            attributes: views(self.attributes@),
            references: views(self.references@),
        }
    }
}

impl View for Domain {
    type V = DomainView;

    open spec fn view(&self) -> DomainView {
        DomainView { events: self.events@, entities: views(self.entities@) }
    }
}

/// Copies a list of document references.
pub fn clone_references(list: &Vec<DocumentReference>) -> (r: Vec<DocumentReference>)
    ensures
        views(r@) == views(list@),
{
    let r = list.clone();
    r
}

impl Clone for Events {
    fn clone(&self) -> (r: Self)
        ensures
            r@ == self@,
    {
        Events {
            change: clone_references(&self.change),
            update: clone_references(&self.update),
            read: clone_references(&self.read),
            delete: clone_references(&self.delete),
            all: clone_references(&self.all),
        }
    }
}

impl Clone for Validation {
    fn clone(&self) -> (r: Self)
        ensures
            r@ == self@,
    {
        Validation { message: self.message.clone(), xflow: self.xflow.clone() }
    }
}

impl Clone for Attribute {
    fn clone(&self) -> (r: Self)
        ensures
            r@ == self@,
    {
        let validations = self.validations.clone();
        assert(views(validations@) =~= views(self.validations@));
        Attribute {
            id: self.id,
            name: self.name.clone(),
            vtype: self.vtype.clone(),
            validations,
        }
    }
}

impl Clone for ReferenceType {
    fn clone(&self) -> (r: Self)
        ensures
            r == *self,
    {
        match self {
            ReferenceType::HasMany => ReferenceType::HasMany,
            ReferenceType::BelongsTo => ReferenceType::BelongsTo,
        }
    }
}

impl Clone for Reference {
    fn clone(&self) -> (r: Self)
        ensures
            r@ == self@,
    {
        Reference {
            id: self.id,
            name: self.name.clone(),
            reftype: self.reftype.clone(),
            other: self.other.clone(),
        }
    }
}

impl Clone for Entity {
    fn clone(&self) -> (r: Self)
        ensures
            r@ == self@,
    {
        let attributes = self.attributes.clone();
        assert(views(attributes@) =~= views(self.attributes@));
        let references = self.references.clone();
        assert(views(references@) =~= views(self.references@));
        Entity { id: self.id, name: self.name.clone(), attributes, references }
    }
}

impl Clone for Domain {
    fn clone(&self) -> (r: Self)
        ensures
            r@ == self@,
    {
        let entities = self.entities.clone();
        assert(views(entities@) =~= views(self.entities@));
        Domain { events: self.events.clone(), entities }
    }
}

impl EventsView {
    /// No document for any event.
    pub open spec fn empty() -> EventsView {
        EventsView {
            change: Seq::empty(),
            update: Seq::empty(),
            read: Seq::empty(),
            delete: Seq::empty(),
            all: Seq::empty(),
        }
    }
}

impl EntityView {
    /// An entity without attributes and references.
    pub open spec fn bare(id: int, name: Seq<char>) -> EntityView {
        EntityView { id, name, attributes: Seq::empty(), references: Seq::empty() }
    }

    /// The identifiers inside the entity: those of its attributes, then those
    /// of its references.
    pub open spec fn member_ids(self) -> Seq<int> {
        self.attributes.map_values(|a: AttributeView| a.id) + self.references.map_values(
            |r: ReferenceView| r.id,
        )
    }

    /// The attributes with a given name.
    pub open spec fn attributes_named(self, name: Seq<char>) -> Seq<AttributeView> {
        self.attributes.filter(|a: AttributeView| a.name == name)
    }

    /// The entity with one more attribute at the end.
    pub open spec fn with_attribute(self, attribute: AttributeView) -> EntityView {
        EntityView { attributes: self.attributes.push(attribute), ..self }
    }
}

impl AttributeView {
    /// A string attribute without validations.
    pub open spec fn string(id: int, name: Seq<char>, default: Option<Seq<char>>) -> AttributeView {
        AttributeView { id, name, vtype: VTypeView::String(default), validations: Seq::empty() }
    }
}

impl DomainView {
    /// The domain that a new document starts with: nothing in it.
    pub open spec fn empty() -> DomainView {
        DomainView { events: EventsView::empty(), entities: Seq::empty() }
    }

    /// Every identifier in the domain, scanned flat: those of the entities,
    /// then, entity by entity, those of its attributes and references.
    pub open spec fn all_ids(self) -> Seq<int> {
        self.entities.map_values(|e: EntityView| e.id) + self.entities.flat_map(
            |e: EntityView| e.member_ids(),
        )
    }

    /// The identifier that the next new element gets: one more than the
    /// greatest in use, or 1 in a domain without any.
    pub open spec fn next_id(self) -> int {
        next_after(self.all_ids())
    }

    /// No identifier is used twice, whatever it identifies.
    pub open spec fn ids_unique(self) -> bool {
        self.all_ids().no_duplicates()
    }

    /// The entities with a given identifier.
    pub open spec fn entities_with_id(self, id: int) -> Seq<EntityView> {
        self.entities.filter(|e: EntityView| e.id == id)
    }

    /// The entities with a given name.
    pub open spec fn entities_named(self, name: Seq<char>) -> Seq<EntityView> {
        self.entities.filter(|e: EntityView| e.name == name)
    }

    /// Whether `at` is the place of the first entity with a given identifier.
    pub open spec fn is_first_with_id(self, id: int, at: int) -> bool {
        &&& 0 <= at < self.entities.len()
        &&& self.entities[at].id == id
        &&& forall|j: int| 0 <= j < at ==> self.entities[j].id != id
    }

    /// The place of the first entity with a given identifier, where there is one.
    pub open spec fn first_with_id(self, id: int) -> int {
        choose|at: int| self.is_first_with_id(id, at)
    }

    /// Whether `at` is the place of the first entity with a given name.
    pub open spec fn is_first_named(self, name: Seq<char>, at: int) -> bool {
        &&& 0 <= at < self.entities.len()
        &&& self.entities[at].name == name
        &&& forall|j: int| 0 <= j < at ==> self.entities[j].name != name
    }

    /// The place of the first entity with a given name, where there is one.
    pub open spec fn first_named(self, name: Seq<char>) -> int {
        choose|at: int| self.is_first_named(name, at)
    }

    /// The entity that `add_entity` makes for a name.
    pub open spec fn new_entity(self, name: Seq<char>) -> EntityView {
        EntityView::bare(self.next_id(), name)
    }

    /// The domain after an entity with a new name was added.
    pub open spec fn with_entity(self, name: Seq<char>) -> DomainView {
        DomainView { entities: self.entities.push(self.new_entity(name)), ..self }
    }

    /// The domain without the entity at a place.
    pub open spec fn without_entity_at(self, at: int) -> DomainView {
        DomainView { entities: self.entities.remove(at), ..self }
    }

    /// The attribute that `entity_add_string_attribute` makes.
    pub open spec fn new_string_attribute(
        self,
        name: Seq<char>,
        default: Option<Seq<char>>,
    ) -> AttributeView {
        AttributeView::string(self.next_id(), name, default)
    }

    /// The domain after the entity at a place got one more attribute.
    pub open spec fn with_attribute_at(self, at: int, attribute: AttributeView) -> DomainView {
        DomainView {
            entities: self.entities.update(at, self.entities[at].with_attribute(attribute)),
            ..self
        }
    }
}

impl Default for Events {
    /// No document for any event.
    fn default() -> (events: Self)
        ensures
            events@ == EventsView::empty(),
    {
        let events = Events {
            change: Vec::new(),
            update: Vec::new(),
            read: Vec::new(),
            delete: Vec::new(),
            all: Vec::new(),
        };
        assert(events@.change =~= Seq::empty());
        events
    }
}

impl Default for Domain {
    /// The domain that a new document starts with: nothing in it.
    fn default() -> (domain: Self)
        ensures
            domain@ == DomainView::empty(),
    {
        let domain = Domain { events: Events::default(), entities: Vec::new() };
        assert(domain@.entities =~= Seq::empty());
        domain
    }
}

impl DocumentBody for Domain {
    open spec fn kind() -> Doctype {
        Doctype::Domain
    }

    proof fn lemma_tag_of_kind() {
    }

    open spec fn doctype_tag() -> Seq<char> {
        "domain"@
    }

    open spec fn initial() -> DomainView {
        DomainView::empty()
    }

    fn doctype() -> (tag: String) {
        "domain".to_owned()
    }

    fn initial_body() -> (body: Self) {
        Domain::default()
    }
}

impl Attribute {
    /// An attribute without validations.
    pub fn new(id: i32, name: &str, vtype: VType) -> (attribute: Self)
        ensures
            attribute@ == (AttributeView {
                id: id as int,
                name: name@,
                vtype: vtype@,
                validations: Seq::empty(),
            }),
    {
        let attribute = Attribute { id, name: name.to_owned(), vtype, validations: Vec::new() };
        assert(attribute@.validations =~= Seq::empty());
        attribute
    }
}

impl Entity {
    /// An entity without attributes and references.
    pub fn new(id: i32, name: &str) -> (entity: Self)
        ensures
            entity@ == EntityView::bare(id as int, name@),
    {
        let entity = Entity {
            id,
            name: name.to_owned(),
            attributes: Vec::new(),
            references: Vec::new(),
        };
        assert(entity@.attributes =~= Seq::empty());
        assert(entity@.references =~= Seq::empty());
        entity
    }

    /// What `get_attribute` says when it finds no single attribute.
    pub open spec fn missing_attribute_message(name: Seq<char>) -> Seq<char> {
        "Attribute "@ + name + " does not exist"@
    }

    /// The one attribute with a given name; where none or several have it, a
    /// message that says so.
    pub fn get_attribute(self, name: &str) -> (r: Result<Attribute, String>)
        ensures
            match r {
                Ok(a) => self@.attributes_named(name@).len() == 1 && a@
                    == self@.attributes_named(name@)[0],
                Err(m) => self@.attributes_named(name@).len() != 1 && m@
                    == Self::missing_attribute_message(name@),
            },
    {
        let ghost p = |a: AttributeView| a.name == name@;
        let mut count: usize = 0;
        let mut found: usize = 0;
        let mut i: usize = 0;
        while i < self.attributes.len()
            invariant
                0 <= i <= self.attributes.len(),
                p == |a: AttributeView| a.name == name@,
                count == self@.attributes.take(i as int).filter(p).len(),
                count <= i,
                count > 0 ==> found < i && p(self@.attributes[found as int]),
            decreases self.attributes.len() - i,
        {
            proof {
                lemma_filter_take_succ(self@.attributes, p, i as int);
            }
            if same_text(self.attributes[i].name.as_str(), name) {
                count = count + 1;
                found = i;
            }
            i = i + 1;
        }
        proof {
            assert(self@.attributes.take(i as int) =~= self@.attributes);
            lemma_filter_first(self@.attributes, p);
        }
        if count == 1 {
            Ok(self.attributes[found].clone())
        } else {
            let mut m = "Attribute ".to_owned();
            m.append(name);
            m.append(" does not exist");
            Err(m)
        }
    }

    /// Puts an attribute at the end of the entity's attributes. This never
    /// fails.
    pub fn add_attribute(&mut self, attr: Attribute) -> (r: Result<(), String>)
        ensures
            r is Ok,
            final(self)@ == old(self)@.with_attribute(attr@),
    {
        self.attributes.push(attr);
        proof {
            assert(final(self)@.attributes =~= old(self)@.attributes.push(attr@));
        }
        Ok(())
    }
}

impl DomainView {
    /// There is at most one first place.
    pub proof fn lemma_first_with_id(self, id: int, at: int)
        requires
            self.is_first_with_id(id, at),
        ensures
            self.first_with_id(id) == at,
    {
    }

    /// There is at most one first place.
    pub proof fn lemma_first_named(self, name: Seq<char>, at: int)
        requires
            self.is_first_named(name, at),
        ensures
            self.first_named(name) == at,
    {
    }
}

impl Domain {
    /// Counts the entities with an identifier and finds the first of them.
    fn scan_id(&self, id: i32) -> (r: (usize, usize))
        ensures
            r.0 == self@.entities_with_id(id as int).len(),
            r.0 > 0 ==> self@.is_first_with_id(id as int, r.1 as int),
            r.0 == 1 ==> self@.entities_with_id(id as int)[0] == self@.entities[r.1 as int],
    {
        let ghost p = |e: EntityView| e.id == id as int;
        let mut count: usize = 0;
        let mut first: usize = 0;
        let mut i: usize = 0;
        while i < self.entities.len()
            invariant
                0 <= i <= self.entities.len(),
                p == |e: EntityView| e.id == id as int,
                count == self@.entities.take(i as int).filter(p).len(),
                count <= i,
                count > 0 ==> first < i && self@.is_first_with_id(id as int, first as int),
                count == 0 ==> forall|j: int| 0 <= j < i ==> self@.entities[j].id != id,
            decreases self.entities.len() - i,
        {
            proof {
                lemma_filter_take_succ(self@.entities, p, i as int);
            }
            if self.entities[i].id == id {
                if count == 0 {
                    first = i;
                }
                count = count + 1;
            }
            i = i + 1;
        }
        proof {
            assert(self@.entities.take(i as int) =~= self@.entities);
            lemma_filter_first(self@.entities, p);
        }
        (count, first)
    }

    /// Counts the entities with a name and finds the first of them.
    fn scan_name(&self, name: &str) -> (r: (usize, usize))
        ensures
            r.0 == self@.entities_named(name@).len(),
            r.0 > 0 ==> self@.is_first_named(name@, r.1 as int),
            r.0 == 1 ==> self@.entities_named(name@)[0] == self@.entities[r.1 as int],
    {
        let ghost p = |e: EntityView| e.name == name@;
        let mut count: usize = 0;
        let mut first: usize = 0;
        let mut i: usize = 0;
        while i < self.entities.len()
            invariant
                0 <= i <= self.entities.len(),
                p == |e: EntityView| e.name == name@,
                count == self@.entities.take(i as int).filter(p).len(),
                count <= i,
                count > 0 ==> first < i && self@.is_first_named(name@, first as int),
                count == 0 ==> forall|j: int| 0 <= j < i ==> self@.entities[j].name != name@,
            decreases self.entities.len() - i,
        {
            proof {
                lemma_filter_take_succ(self@.entities, p, i as int);
            }
            if same_text(self.entities[i].name.as_str(), name) {
                if count == 0 {
                    first = i;
                }
                count = count + 1;
            }
            i = i + 1;
        }
        proof {
            assert(self@.entities.take(i as int) =~= self@.entities);
            lemma_filter_first(self@.entities, p);
        }
        (count, first)
    }

    /// Every identifier in the domain, scanned flat: those of the entities,
    /// then, entity by entity, those of its attributes and references.
    pub fn all_ids(&self) -> (ids: Vec<i32>)
        ensures
            ints(ids@) == self@.all_ids(),
    {
        let ghost by_entity = |e: EntityView| e.id;
        let ghost inside = |e: EntityView| e.member_ids();
        let mut ids: Vec<i32> = Vec::new();
        let mut i: usize = 0;
        while i < self.entities.len()
            invariant
                0 <= i <= self.entities.len(),
                by_entity == |e: EntityView| e.id,
                ints(ids@) == self@.entities.take(i as int).map_values(by_entity),
            decreases self.entities.len() - i,
        {
            let ghost prev = ints(ids@);
            ids.push(self.entities[i].id);
            proof {
                assert(ints(ids@) =~= prev.push(self.entities[i as int].id as int));
            }
            i = i + 1;
        }
        proof {
            assert(self@.entities.take(i as int) =~= self@.entities);
        }
        let mut k: usize = 0;
        while k < self.entities.len()
            invariant
                0 <= k <= self.entities.len(),
                by_entity == |e: EntityView| e.id,
                inside == |e: EntityView| e.member_ids(),
                ints(ids@) == self@.entities.map_values(by_entity) + self@.entities.take(
                    k as int,
                ).flat_map(inside),
            decreases self.entities.len() - k,
        {
            let entity = &self.entities[k];
            let ghost before = ints(ids@);
            let ghost attrs = entity@.attributes.map_values(|a: AttributeView| a.id);
            let ghost refs = entity@.references.map_values(|r: ReferenceView| r.id);
            let mut a: usize = 0;
            while a < entity.attributes.len()
                invariant
                    0 <= a <= entity.attributes.len(),
                    attrs == entity@.attributes.map_values(|a: AttributeView| a.id),
                    ints(ids@) == before + attrs.take(a as int),
                decreases entity.attributes.len() - a,
            {
                let ghost prev = ints(ids@);
                ids.push(entity.attributes[a].id);
                proof {
                    assert(ints(ids@) =~= prev.push(entity.attributes[a as int].id as int));
                }
                a = a + 1;
            }
            let mut r: usize = 0;
            while r < entity.references.len()
                invariant
                    0 <= r <= entity.references.len(),
                    a == entity.attributes.len(),
                    attrs == entity@.attributes.map_values(|a: AttributeView| a.id),
                    refs == entity@.references.map_values(|r: ReferenceView| r.id),
                    ints(ids@) == before + attrs + refs.take(r as int),
                decreases entity.references.len() - r,
            {
                let ghost prev = ints(ids@);
                ids.push(entity.references[r].id);
                proof {
                    assert(ints(ids@) =~= prev.push(entity.references[r as int].id as int));
                }
                r = r + 1;
            }
            proof {
                self@.entities.lemma_flat_map_take_append(inside, k as int);
            }
            k = k + 1;
        }
        ids
    }

    /// The identifier that the next new element gets: one more than the
    /// greatest identifier of any entity, attribute or reference, or 1 in a
    /// domain without any. It is computed afresh on every call.
    pub fn next_id(&self) -> (id: i32)
        requires
            self@.next_id() <= i32::MAX,
        ensures
            id == self@.next_id(),
    {
        next_of(&self.all_ids())
    }

    /// Whether the next identifier still fits: whether there is room for
    /// one more entity or attribute.
    pub fn has_next_id(&self) -> (has: bool)
        ensures
            has == (self@.next_id() <= i32::MAX),
    {
        has_next(&self.all_ids())
    }
}

impl Domain {
    /// Whether some entity has this name, so that `add_entity` refuses it.
    pub fn entity_name_taken(&self, name: &str) -> (taken: bool)
        ensures
            taken == (self@.entities_named(name@).len() > 0),
    {
        let (count, _) = self.scan_name(name);
        count > 0
    }

    /// Whether exactly one entity has this name.
    pub fn has_entity_name(&mut self, name: &str) -> (has: bool)
        ensures
            has == (old(self)@.entities_named(name@).len() == 1),
            *final(self) == *old(self),
    {
        let (count, _) = self.scan_name(name);
        count == 1
    }

    /// Whether exactly one entity has this identifier.
    pub fn has_entity(&mut self, id: i32) -> (has: bool)
        ensures
            has == (old(self)@.entities_with_id(id as int).len() == 1),
            *final(self) == *old(self),
    {
        let (count, _) = self.scan_id(id);
        count == 1
    }

    /// The one entity with this identifier. Where none or several have it,
    /// the lookup fails.
    pub fn get_entity(&mut self, id: i32) -> (r: Result<&Entity, DomainError>)
        ensures
            match r {
                Ok(e) => old(self)@.entities_with_id(id as int).len() == 1 && e@ == old(
                    self,
                )@.entities_with_id(id as int)[0] && *e == old(self).entities[old(
                    self,
                )@.first_with_id(id as int)],
                Err(e) => old(self)@.entities_with_id(id as int).len() != 1 && e
                    == DomainError::EntityDoesNotExist(id),
            },
            *final(self) == *old(self),
    {
        let (count, first) = self.scan_id(id);
        if count == 1 {
            proof {
                self@.lemma_first_with_id(id as int, first as int);
            }
            Ok(&self.entities[first])
        } else {
            Err(DomainError::EntityDoesNotExist(id))
        }
    }

    /// The one entity with this identifier, to change in place. Where none
    /// or several have it, the lookup fails and the domain is as before.
    pub fn get_entity_mut(&mut self, id: i32) -> (r: Result<&mut Entity, DomainError>)
        ensures
            match r {
                Ok(e) => {
                    let at = old(self)@.first_with_id(id as int);
                    &&& old(self)@.entities_with_id(id as int).len() == 1
                    &&& old(self)@.is_first_with_id(id as int, at)
                    &&& *e == old(self).entities[at]
                    &&& final(self).entities@ == old(self).entities@.update(at, *final(e))
                    &&& final(self).events == old(self).events
                },
                Err(e) => old(self)@.entities_with_id(id as int).len() != 1 && e
                    == DomainError::EntityDoesNotExist(id) && *final(self) == *old(self),
            },
    {
        let (count, first) = self.scan_id(id);
        if count == 1 {
            proof {
                self@.lemma_first_with_id(id as int, first as int);
            }
            Ok(&mut self.entities[first])
        } else {
            Err(DomainError::EntityDoesNotExist(id))
        }
    }

    /// The one entity with this name. Where none or several have it, the
    /// lookup fails, and the error carries 0 in place of an identifier.
    pub fn get_entity_name(&mut self, name: &str) -> (r: Result<&Entity, DomainError>)
        ensures
            match r {
                Ok(e) => old(self)@.entities_named(name@).len() == 1 && e@ == old(
                    self,
                )@.entities_named(name@)[0] && *e == old(self).entities[old(self)@.first_named(
                    name@,
                )],
                Err(e) => old(self)@.entities_named(name@).len() != 1 && e
                    == DomainError::EntityDoesNotExist(0),
            },
            *final(self) == *old(self),
    {
        let (count, first) = self.scan_name(name);
        if count == 1 {
            proof {
                self@.lemma_first_named(name@, first as int);
            }
            Ok(&self.entities[first])
        } else {
            Err(DomainError::EntityDoesNotExist(0))
        }
    }
}

impl DomainView {
    /// The flat scan, cut around the entity at a place: the entities' own
    /// identifiers, those inside the entities before it, those inside it,
    /// and those inside the entities after it.
    pub proof fn lemma_ids_around(self, at: int)
        requires
            0 <= at < self.entities.len(),
        ensures
            self.all_ids() == self.entities.map_values(|e: EntityView| e.id)
                + self.entities.take(at).flat_map(|e: EntityView| e.member_ids())
                + self.entities[at].member_ids() + self.entities.skip(at + 1).flat_map(
                |e: EntityView| e.member_ids(),
            ),
    {
        let inside = |e: EntityView| e.member_ids();
        let head = self.entities.take(at);
        let one = seq![self.entities[at]];
        let tail = self.entities.skip(at + 1);
        assert(self.entities =~= head + one + tail);
        lemma_flat_map_concat(head + one, tail, inside);
        lemma_flat_map_concat(head, one, inside);
        one.lemma_flat_map_singleton(inside);
    }

    /// An empty domain uses no identifier twice.
    pub proof fn lemma_empty_unique()
        ensures
            DomainView::empty().ids_unique(),
    {
    }

    /// Adding an entity gives it an identifier that nothing else has.
    pub proof fn lemma_with_entity_unique(self, name: Seq<char>)
        requires
            self.ids_unique(),
        ensures
            self.with_entity(name).ids_unique(),
            self.with_entity(name).all_ids() == self.all_ids().insert(
                self.entities.len() as int,
                self.next_id(),
            ),
    {
        let inside = |e: EntityView| e.member_ids();
        let e = self.new_entity(name);
        let after = self.with_entity(name);
        self.entities.lemma_flat_map_push(inside, e);
        assert(after.all_ids() =~= self.all_ids().insert(self.entities.len() as int, e.id));
        lemma_next_after_is_fresh(self.all_ids());
        lemma_insert_fresh(self.all_ids(), self.entities.len() as int, e.id);
    }

    /// Taking an entity out frees its identifiers and touches no other.
    pub proof fn lemma_without_entity_unique(self, at: int)
        requires
            self.ids_unique(),
            0 <= at < self.entities.len(),
        ensures
            self.without_entity_at(at).ids_unique(),
    {
        let inside = |e: EntityView| e.member_ids();
        let after = self.without_entity_at(at);
        let head = self.entities.take(at);
        let tail = self.entities.skip(at + 1);
        let n = self.entities.len() as int;
        self.lemma_ids_around(at);
        lemma_flat_map_concat(head, tail, inside);
        let all = self.all_ids();
        let first = all.subrange(0, at) + all.subrange(at + 1, all.len() as int);
        lemma_cut_keeps_unique(all, at, at + 1);
        let from = n - 1 + head.flat_map(inside).len();
        let to = from + self.entities[at].member_ids().len();
        lemma_cut_keeps_unique(first, from, to);
        assert(after.all_ids() =~= first.subrange(0, from) + first.subrange(
            to,
            first.len() as int,
        ));
    }

    /// Adding an attribute gives it an identifier that nothing else has.
    pub proof fn lemma_with_attribute_unique(self, at: int, name: Seq<char>, default: Option<Seq<char>>)
        requires
            self.ids_unique(),
            0 <= at < self.entities.len(),
        ensures
            self.with_attribute_at(at, self.new_string_attribute(name, default)).ids_unique(),
    {
        let inside = |e: EntityView| e.member_ids();
        let a = self.new_string_attribute(name, default);
        let after = self.with_attribute_at(at, a);
        let e = self.entities[at];
        self.lemma_ids_around(at);
        after.lemma_ids_around(at);
        assert(after.entities.take(at) =~= self.entities.take(at));
        assert(after.entities.skip(at + 1) =~= self.entities.skip(at + 1));
        let attrs = e.attributes.map_values(|a: AttributeView| a.id);
        let place = (self.entities.len() + self.entities.take(at).flat_map(inside).len()
            + attrs.len()) as int;
        assert(after.all_ids() =~= self.all_ids().insert(place, a.id));
        lemma_next_after_is_fresh(self.all_ids());
        lemma_insert_fresh(self.all_ids(), place, a.id);
    }
}

/// An edit of a domain, as a value.
pub enum DomainEdit {
    AddEntity { name: Seq<char> },
    RemoveEntity { id: int },
    AddStringAttribute { entity_id: int, name: Seq<char>, default: Option<Seq<char>> },
}

impl DomainView {
    /// The domain after an edit: what `add_entity`, `remove_entity` and
    /// `entity_add_string_attribute` leave behind, the domain itself where
    /// they refuse.
    pub open spec fn after(self, edit: DomainEdit) -> DomainView {
        match edit {
            DomainEdit::AddEntity { name } => if self.entities_named(name).len() == 0 {
                self.with_entity(name)
            } else {
                self
            },
            DomainEdit::RemoveEntity { id } => if self.entities_with_id(id).len() > 0 {
                self.without_entity_at(self.first_with_id(id))
            } else {
                self
            },
            DomainEdit::AddStringAttribute { entity_id, name, default } => if self.entities_with_id(
                entity_id,
            ).len() == 1 {
                self.with_attribute_at(
                    self.first_with_id(entity_id),
                    self.new_string_attribute(name, default),
                )
            } else {
                self
            },
        }
    }

    /// The domain after a run of edits, first to last.
    pub open spec fn after_all(self, edits: Seq<DomainEdit>) -> DomainView
        decreases edits.len(),
    {
        if edits.len() == 0 {
            self
        } else {
            self.after_all(edits.drop_last()).after(edits.last())
        }
    }

    /// Where an entity has an identifier, one of them comes first.
    pub proof fn lemma_some_first_with_id(self, id: int, at: int)
        requires
            0 <= at < self.entities.len(),
            self.entities[at].id == id,
        ensures
            self.is_first_with_id(id, self.first_with_id(id)),
        decreases at,
    {
        if exists|j: int| 0 <= j < at && self.entities[j].id == id {
            let j = choose|j: int| 0 <= j < at && self.entities[j].id == id;
            self.lemma_some_first_with_id(id, j);
        } else {
            assert(self.is_first_with_id(id, at));
        }
    }

    /// Where the entities with an identifier are not none, one of them comes
    /// first.
    pub proof fn lemma_first_of_some(self, id: int)
        requires
            self.entities_with_id(id).len() > 0,
        ensures
            self.is_first_with_id(id, self.first_with_id(id)),
    {
        let p = |e: EntityView| e.id == id;
        lemma_filter_first(self.entities, p);
        let at = choose|i: int| 0 <= i < self.entities.len() && p(self.entities[i]);
        self.lemma_some_first_with_id(id, at);
    }

    /// No edit makes two identifiers equal.
    pub proof fn lemma_edit_keeps_ids_unique(self, edit: DomainEdit)
        requires
            self.ids_unique(),
        ensures
            self.after(edit).ids_unique(),
    {
        match edit {
            DomainEdit::AddEntity { name } => {
                self.lemma_with_entity_unique(name);
            },
            DomainEdit::RemoveEntity { id } => {
                if self.entities_with_id(id).len() > 0 {
                    self.lemma_first_of_some(id);
                    self.lemma_without_entity_unique(self.first_with_id(id));
                }
            },
            DomainEdit::AddStringAttribute { entity_id, name, default } => {
                if self.entities_with_id(entity_id).len() == 1 {
                    self.lemma_first_of_some(entity_id);
                    self.lemma_with_attribute_unique(self.first_with_id(entity_id), name, default);
                }
            },
        }
    }

    /// Identifiers stay unique: after any run of edits of a domain in which
    /// no two identifiers are equal, whether of entities, attributes or
    /// references, no two are equal.
    pub proof fn lemma_edits_keep_ids_unique(self, edits: Seq<DomainEdit>)
        requires
            self.ids_unique(),
        ensures
            self.after_all(edits).ids_unique(),
        decreases edits.len(),
    {
        if edits.len() > 0 {
            self.lemma_edits_keep_ids_unique(edits.drop_last());
            self.after_all(edits.drop_last()).lemma_edit_keeps_ids_unique(edits.last());
        }
    }

    /// Identifiers are not kept for what is gone: taking out the entity
    /// that was added last gives back the domain as it was, so that the
    /// next element gets the identifier that the removed entity had.
    pub proof fn lemma_freed_id_is_reused(self, name: Seq<char>)
        ensures
            self.with_entity(name).without_entity_at(self.entities.len() as int) == self,
            self.with_entity(name).without_entity_at(self.entities.len() as int).next_id()
                == self.with_entity(name).entities.last().id,
    {
        let back = self.with_entity(name).without_entity_at(self.entities.len() as int);
        assert(back.entities =~= self.entities);
    }

    /// Identifiers are unique in every domain that edits make of a new one.
    pub proof fn lemma_ids_unique_from_empty(edits: Seq<DomainEdit>)
        ensures
            DomainView::empty().after_all(edits).ids_unique(),
    {
        Self::lemma_empty_unique();
        DomainView::empty().lemma_edits_keep_ids_unique(edits);
    }
}

impl DomainError {
    /// What the error says: identifiers as "id:" and the number, names as
    /// they are, an entity and what is inside it separated by a slash.
    pub open spec fn message(self) -> Seq<char> {
        match self {
            DomainError::EntityDoesNotExist(e) => "id:"@ + decimal_form(e as int),
            DomainError::AttributeDoesNotExist(e, a) => "id:"@ + decimal_form(e as int) + "/id:"@
                + decimal_form(a as int),
            DomainError::ReferenceDoesNotExist(e, r) => "id:"@ + decimal_form(e as int) + "/id:"@
                + decimal_form(r as int),
            DomainError::EntityAlreadyExists(e) => e@,
            DomainError::AttributeAlreadyExists(e, a) => "id:"@ + decimal_form(e as int) + "/"@
                + a@,
            DomainError::ReferenceAlreadyExists(e, r) => "id:"@ + decimal_form(e as int) + "/"@
                + r@,
        }
    }

    /// What the error says, as a text.
    pub fn to_string(&self) -> (text: String)
        ensures
            text@ == self.message(),
    {
        match self {
            DomainError::EntityDoesNotExist(e) => {
                let mut text = "id:".to_owned();
                text.append(decimal_text(*e).as_str());
                text
            },
            DomainError::AttributeDoesNotExist(e, a) => {
                let mut text = "id:".to_owned();
                text.append(decimal_text(*e).as_str());
                text.append("/id:");
                text.append(decimal_text(*a).as_str());
                text
            },
            DomainError::ReferenceDoesNotExist(e, r) => {
                let mut text = "id:".to_owned();
                text.append(decimal_text(*e).as_str());
                text.append("/id:");
                text.append(decimal_text(*r).as_str());
                text
            },
            DomainError::EntityAlreadyExists(e) => e.clone(),
            DomainError::AttributeAlreadyExists(e, a) => {
                let mut text = "id:".to_owned();
                text.append(decimal_text(*e).as_str());
                text.append("/");
                text.append(a.as_str());
                text
            },
            DomainError::ReferenceAlreadyExists(e, r) => {
                let mut text = "id:".to_owned();
                text.append(decimal_text(*e).as_str());
                text.append("/");
                text.append(r.as_str());
                text
            },
        }
    }
}

impl Domain {
    /// Adds an entity with a new name, without attributes and references,
    /// under the next identifier, and returns a copy of it. Where an entity
    /// has that name already, nothing changes and the error names it.
    pub fn add_entity(&mut self, name: &str) -> (r: Result<Entity, DomainError>)
        requires
            old(self)@.entities_named(name@).len() == 0 ==> old(self)@.next_id() <= i32::MAX,
        ensures
            match r {
                Ok(e) => {
                    &&& old(self)@.entities_named(name@).len() == 0
                    &&& e@ == old(self)@.new_entity(name@)
                    &&& final(self)@ == old(self)@.with_entity(name@)
                },
                Err(e) => {
                    &&& old(self)@.entities_named(name@).len() > 0
                    &&& e matches DomainError::EntityAlreadyExists(n) && n@ == name@
                    &&& *final(self) == *old(self)
                },
            },
            final(self)@ == old(self)@.after(DomainEdit::AddEntity { name: name@ }),
            old(self)@.ids_unique() ==> final(self)@.ids_unique(),
    {
        let (count, _) = self.scan_name(name);
        if count > 0 {
            Err(DomainError::EntityAlreadyExists(name.to_owned()))
        } else {
            let entity = Entity::new(self.next_id(), name);
            self.entities.push(entity.clone());
            proof {
                assert(final(self)@.entities =~= old(self)@.entities.push(entity@));
                if old(self)@.ids_unique() {
                    old(self)@.lemma_with_entity_unique(name@);
                }
            }
            Ok(entity)
        }
    }

    /// Takes out the first entity with this identifier. The others keep
    /// their places and identifiers. Where no entity has it, nothing changes.
    pub fn remove_entity(&mut self, id: i32) -> (r: Result<(), DomainError>)
        ensures
            match r {
                Ok(()) => {
                    &&& old(self)@.entities_with_id(id as int).len() > 0
                    &&& old(self)@.is_first_with_id(id as int, old(self)@.first_with_id(id as int))
                    &&& final(self)@ == old(self)@.without_entity_at(
                        old(self)@.first_with_id(id as int),
                    )
                },
                Err(e) => {
                    &&& old(self)@.entities_with_id(id as int).len() == 0
                    &&& e == DomainError::EntityDoesNotExist(id)
                    &&& *final(self) == *old(self)
                },
            },
            final(self)@ == old(self)@.after(DomainEdit::RemoveEntity { id: id as int }),
            old(self)@.ids_unique() ==> final(self)@.ids_unique(),
    {
        let (count, first) = self.scan_id(id);
        if count > 0 {
            proof {
                self@.lemma_first_with_id(id as int, first as int);
            }
            let _ = self.entities.remove(first);
            proof {
                assert(final(self)@.entities =~= old(self)@.entities.remove(first as int));
                if old(self)@.ids_unique() {
                    old(self)@.lemma_without_entity_unique(first as int);
                }
            }
            Ok(())
        } else {
            Err(DomainError::EntityDoesNotExist(id))
        }
    }

    /// Adds a string attribute to the one entity with this identifier, under
    /// the next identifier of the whole domain, and returns a copy of it.
    /// Where none or several entities have the identifier, nothing changes.
    pub fn entity_add_string_attribute(
        &mut self,
        entity_id: i32,
        message: &AddStringAttributeToEntity,
    ) -> (r: Result<Attribute, DomainError>)
        requires
            old(self)@.entities_with_id(entity_id as int).len() == 1 ==> old(self)@.next_id()
                <= i32::MAX,
        ensures
            match r {
                Ok(a) => {
                    let at = old(self)@.first_with_id(entity_id as int);
                    &&& old(self)@.entities_with_id(entity_id as int).len() == 1
                    &&& old(self)@.is_first_with_id(entity_id as int, at)
                    &&& a@ == old(self)@.new_string_attribute(
                        message.name@,
                        opt_text(message.default),
                    )
                    &&& final(self)@ == old(self)@.with_attribute_at(at, a@)
                },
                Err(e) => {
                    &&& old(self)@.entities_with_id(entity_id as int).len() != 1
                    &&& e == DomainError::EntityDoesNotExist(entity_id)
                    &&& *final(self) == *old(self)
                },
            },
            final(self)@ == old(self)@.after(
                DomainEdit::AddStringAttribute {
                    entity_id: entity_id as int,
                    name: message.name@,
                    default: opt_text(message.default),
                },
            ),
            old(self)@.ids_unique() ==> final(self)@.ids_unique(),
    {
        let (count, first) = self.scan_id(entity_id);
        if count != 1 {
            return Err(DomainError::EntityDoesNotExist(entity_id));
        }
        proof {
            self@.lemma_first_with_id(entity_id as int, first as int);
        }
        let id = self.next_id();
        let vtype = VTypeString { default: clone_opt_string(&message.default) };
        let attribute = Attribute {
            id,
            name: message.name.clone(),
            vtype: VType::VTypeString(vtype),
            validations: Vec::new(),
        };
        proof {
            assert(attribute@.validations =~= Seq::empty());
        }
        let attr_clone = attribute.clone();
        self.entities[first].attributes.push(attribute);
        proof {
            let at = first as int;
            assert(final(self)@.entities[at].attributes =~= old(self)@.entities[at].attributes.push(
                attribute@,
            ));
            assert(final(self)@.entities =~= old(self)@.entities.update(
                at,
                old(self)@.entities[at].with_attribute(attribute@),
            ));
            if old(self)@.ids_unique() {
                old(self)@.lemma_with_attribute_unique(
                    at,
                    message.name@,
                    opt_text(message.default),
                );
            }
        }
        Ok(attr_clone)
    }
}

impl Default for DomainDocument {
    /// A new domain document that belongs to no project yet.
    fn default() -> (doc: Self)
        ensures
            doc.well_formed(),
            doc@.name == "New Domain"@,
            doc@.version == 0,
            doc@.body == Domain::initial(),
    {
        Document::unfiled("New Domain")
    }
}

} // verus!
