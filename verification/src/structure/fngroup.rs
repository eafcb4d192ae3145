//! The function table of a function-group document.

use crate::messages::FnGroupFnUpdate;
use crate::structure::common::{Doctype, Document, DocumentBody};
use crate::structure::data::{clone_definitions, VariableDefinitionView, VariableDefinitions};
use crate::util::seqs::{
    has_next, ints, lemma_filter_first, lemma_filter_take_succ, lemma_insert_fresh,
    lemma_next_after_is_fresh, next_after, next_of, views,
};
use crate::util::text::{decimal_form, decimal_text};
use vstd::prelude::*;
use vstd::string::StringExecFns;

verus! {

/// A function-group document.
pub type FngroupDocument = Document<Fngroup>;

/// The functions of a group, in order.
pub type FnDefinitions = Vec<FnDefinition>;

/// Why an edit of a function group was refused.
#[derive(Debug, PartialEq, Eq)]
pub enum FngroupError {
    FnDoesNotExist(i32),
}

/// The language that a function's source is written in.
#[derive(Debug, PartialEq, Eq)]
pub enum FnLanguage {
    AssemblyScript,
}

/// A named function: its signature and its source text.
#[derive(Debug, PartialEq, Eq)]
pub struct FnDefinition {
    pub id: i32,
    pub lang: FnLanguage,
    pub name: String,
    pub description: String,
    pub input: VariableDefinitions,
    pub output: VariableDefinitions,
    pub body: String,
}

/// The body of a function-group document.
#[derive(Debug, PartialEq, Eq)]
pub struct Fngroup {
    pub fns: FnDefinitions,
}

/// A function definition, with its identifier as a mathematical integer and
/// its texts as sequences of characters.
pub struct FnDefinitionView {
    pub id: int,
    pub lang: FnLanguage,
    pub name: Seq<char>,
    pub description: Seq<char>,
    pub input: Seq<VariableDefinitionView>,
    pub output: Seq<VariableDefinitionView>,
    pub body: Seq<char>,
}

/// A function group, with its functions by their views.
pub struct FngroupView {
    pub fns: Seq<FnDefinitionView>,
}

impl View for FnDefinition {
    type V = FnDefinitionView;

    open spec fn view(&self) -> FnDefinitionView {
        FnDefinitionView {
            id: self.id as int,
            lang: self.lang,
            name: self.name@,
            description: self.description@,
            input: views(self.input@),
            output: views(self.output@),
            body: self.body@,
        }
    }
}

impl View for Fngroup {
    type V = FngroupView;

    open spec fn view(&self) -> FngroupView {
        FngroupView { fns: views(self.fns@) }
    }
}

impl Clone for FnLanguage {
    fn clone(&self) -> (r: Self)
        ensures
            r == *self,
    {
        match self {
            FnLanguage::AssemblyScript => FnLanguage::AssemblyScript,
        }
    }
}

impl Clone for FnDefinition {
    fn clone(&self) -> (r: Self)
        ensures
            r@ == self@,
    {
        FnDefinition {
            id: self.id,
            lang: self.lang.clone(),
            name: self.name.clone(),
            description: self.description.clone(),
            input: clone_definitions(&self.input),
            output: clone_definitions(&self.output),
            body: self.body.clone(),
        }
    }
}

impl Clone for Fngroup {
    fn clone(&self) -> (r: Self)
        ensures
            r@ == self@,
    {
        let fns = self.fns.clone();
        assert(views(fns@) =~= views(self.fns@));
        Fngroup { fns }
    }
}

impl Clone for FngroupError {
    fn clone(&self) -> (r: Self)
        ensures
            r == *self,
    {
        match self {
            FngroupError::FnDoesNotExist(id) => FngroupError::FnDoesNotExist(*id),
        }
    }
}

impl FngroupError {
    /// What the error says: "id:" and the identifier that was not found.
    pub open spec fn message(self) -> Seq<char> {
        match self {
            FngroupError::FnDoesNotExist(id) => "id:"@ + decimal_form(id as int),
        }
    }

    /// What the error says, as a text.
    pub fn to_string(&self) -> (text: String)
        ensures
            text@ == self.message(),
    {
        match self {
            FngroupError::FnDoesNotExist(id) => {
                let mut text = "id:".to_owned();
                text.append(decimal_text(*id).as_str());
                text
            },
        }
    }
}

/// New values for a function; a missing one is left as it is.
pub struct FnUpdateView {
    pub id: int,
    pub name: Option<Seq<char>>,
    pub description: Option<Seq<char>>,
    pub body: Option<Seq<char>>,
}

impl View for FnGroupFnUpdate {
    type V = FnUpdateView;

    open spec fn view(&self) -> FnUpdateView {
        FnUpdateView {
            id: self.id as int,
            name: match self.name {
                Some(s) => Some(s@),
                None => None,
            },
            description: match self.description {
                Some(s) => Some(s@),
                None => None,
            },
            body: match self.body {
                Some(s) => Some(s@),
                None => None,
            },
        }
    }
}

impl FnDefinitionView {
    /// The function that `add_fn` makes: no inputs, no outputs, no source,
    /// and a description that says that there is none.
    pub open spec fn fresh(id: int, name: Seq<char>) -> FnDefinitionView {
        FnDefinitionView {
            id,
            lang: FnLanguage::AssemblyScript,
            name,
            description: "No description"@,
            input: Seq::empty(),
            output: Seq::empty(),
            body: Seq::empty(),
        }
    }

    /// The function with the values that an update gives; where it gives
    /// none, the value stays.
    pub open spec fn updated(self, update: FnUpdateView) -> FnDefinitionView {
        FnDefinitionView {
            name: match update.name {
                Some(n) => n,
                None => self.name,
            },
            description: match update.description {
                Some(d) => d,
                None => self.description,
            },
            body: match update.body {
                Some(b) => b,
                None => self.body,
            },
            ..self
        }
    }
}

/// An edit of a function group, as a value.
pub enum FngroupEdit {
    AddFn { name: Seq<char> },
    UpdateFn { update: FnUpdateView },
}

impl FngroupView {
    /// The group that a new document starts with: no function.
    pub open spec fn empty() -> FngroupView {
        FngroupView { fns: Seq::empty() }
    }

    /// The identifiers of the functions, in order.
    pub open spec fn all_ids(self) -> Seq<int> {
        self.fns.map_values(|f: FnDefinitionView| f.id)
    }

    /// The identifier that the next new function gets: one more than the
    /// greatest in use, or 1 in a group without functions.
    pub open spec fn next_id(self) -> int {
        next_after(self.all_ids())
    }

    /// No identifier is used twice.
    pub open spec fn ids_unique(self) -> bool {
        self.all_ids().no_duplicates()
    }

    /// The functions with a given identifier.
    pub open spec fn fns_with_id(self, id: int) -> Seq<FnDefinitionView> {
        self.fns.filter(|f: FnDefinitionView| f.id == id)
    }

    /// Whether `at` is the place of the first function with an identifier.
    pub open spec fn is_first_with_id(self, id: int, at: int) -> bool {
        &&& 0 <= at < self.fns.len()
        &&& self.fns[at].id == id
        &&& forall|j: int| 0 <= j < at ==> self.fns[j].id != id
    }

    /// The place of the first function with an identifier, where there is one.
    pub open spec fn first_with_id(self, id: int) -> int {
        choose|at: int| self.is_first_with_id(id, at)
    }

    /// The function that `add_fn` makes for a name.
    pub open spec fn new_fn(self, name: Seq<char>) -> FnDefinitionView {
        FnDefinitionView::fresh(self.next_id(), name)
    }

    /// The group after a function was added.
    pub open spec fn with_fn(self, name: Seq<char>) -> FngroupView {
        FngroupView { fns: self.fns.push(self.new_fn(name)) }
    }

    /// The group after the function at a place was updated.
    pub open spec fn with_update_at(self, at: int, update: FnUpdateView) -> FngroupView {
        FngroupView { fns: self.fns.update(at, self.fns[at].updated(update)) }
    }

    /// The group after an edit: what `add_fn` and `update_fn` leave behind,
    /// the group itself where `update_fn` refuses.
    pub open spec fn after(self, edit: FngroupEdit) -> FngroupView {
        match edit {
            FngroupEdit::AddFn { name } => self.with_fn(name),
            FngroupEdit::UpdateFn { update } => if self.fns_with_id(update.id).len() == 1 {
                self.with_update_at(self.first_with_id(update.id), update)
            } else {
                self
            },
        }
    }

    /// The group after a run of edits, first to last.
    pub open spec fn after_all(self, edits: Seq<FngroupEdit>) -> FngroupView
        decreases edits.len(),
    {
        if edits.len() == 0 {
            self
        } else {
            self.after_all(edits.drop_last()).after(edits.last())
        }
    }

    /// There is at most one first place.
    pub proof fn lemma_first_with_id(self, id: int, at: int)
        requires
            self.is_first_with_id(id, at),
        ensures
            self.first_with_id(id) == at,
    {
    }

    /// Adding a function gives it an identifier that no other function has.
    pub proof fn lemma_with_fn_unique(self, name: Seq<char>)
        requires
            self.ids_unique(),
        ensures
            self.with_fn(name).ids_unique(),
    {
        let n = self.next_id();
        assert(self.with_fn(name).all_ids() =~= self.all_ids().insert(self.fns.len() as int, n));
        lemma_next_after_is_fresh(self.all_ids());
        lemma_insert_fresh(self.all_ids(), self.fns.len() as int, n);
    }

    /// An update changes no identifier.
    pub proof fn lemma_with_update_ids(self, at: int, update: FnUpdateView)
        requires
            0 <= at < self.fns.len(),
        ensures
            self.with_update_at(at, update).all_ids() == self.all_ids(),
    {
    }

    /// Identifiers stay unique: after any run of edits of a group in which
    /// no two functions have the same identifier, no two have.
    pub proof fn lemma_edits_keep_ids_unique(self, edits: Seq<FngroupEdit>)
        requires
            self.ids_unique(),
        ensures
            self.after_all(edits).ids_unique(),
        decreases edits.len(),
    {
        if edits.len() > 0 {
            self.lemma_edits_keep_ids_unique(edits.drop_last());
            let before = self.after_all(edits.drop_last());
            match edits.last() {
                FngroupEdit::AddFn { name } => {
                    before.lemma_with_fn_unique(name);
                },
                FngroupEdit::UpdateFn { update } => {
                    if before.fns_with_id(update.id).len() == 1 {
                        let p = |f: FnDefinitionView| f.id == update.id;
                        lemma_filter_first(before.fns, p);
                        let at = choose|i: int| 0 <= i < before.fns.len() && p(before.fns[i]);
                        assert(before.is_first_with_id(update.id, at)) by {
                            assert forall|j: int| 0 <= j < at implies before.fns[j].id
                                != update.id by {
                            }
                        }
                        before.lemma_first_with_id(update.id, at);
                        before.lemma_with_update_ids(at, update);
                    }
                },
            }
        }
    }

    /// Identifiers are unique in every group that edits make of a new one.
    pub proof fn lemma_ids_unique_from_empty(edits: Seq<FngroupEdit>)
        ensures
            FngroupView::empty().after_all(edits).ids_unique(),
    {
        FngroupView::empty().lemma_edits_keep_ids_unique(edits);
    }
}

impl Default for Fngroup {
    /// The group that a new document starts with: no function.
    fn default() -> (group: Self)
        ensures
            group@ == FngroupView::empty(),
    {
        let group = Fngroup { fns: Vec::new() };
        assert(group@.fns =~= Seq::empty());
        group
    }
}

impl DocumentBody for Fngroup {
    open spec fn kind() -> Doctype {
        Doctype::Fngroup
    }

    proof fn lemma_tag_of_kind() {
    }

    open spec fn doctype_tag() -> Seq<char> {
        "fngroup"@
    }

    open spec fn initial() -> FngroupView {
        FngroupView::empty()
    }

    fn doctype() -> (tag: String) {
        "fngroup".to_owned()
    }

    fn initial_body() -> (body: Self) {
        Fngroup::default()
    }
}

impl Fngroup {
    /// Counts the functions with an identifier and finds the first of them.
    fn scan_id(&self, id: i32) -> (r: (usize, usize))
        ensures
            r.0 == self@.fns_with_id(id as int).len(),
            r.0 > 0 ==> self@.is_first_with_id(id as int, r.1 as int),
    {
        let ghost p = |f: FnDefinitionView| f.id == id as int;
        let mut count: usize = 0;
        let mut first: usize = 0;
        let mut i: usize = 0;
        while i < self.fns.len()
            invariant
                0 <= i <= self.fns.len(),
                p == |f: FnDefinitionView| f.id == id as int,
                count == self@.fns.take(i as int).filter(p).len(),
                count <= i,
                count > 0 ==> first < i && self@.is_first_with_id(id as int, first as int),
                count == 0 ==> forall|j: int| 0 <= j < i ==> self@.fns[j].id != id,
            decreases self.fns.len() - i,
        {
            proof {
                lemma_filter_take_succ(self@.fns, p, i as int);
            }
            if self.fns[i].id == id {
                if count == 0 {
                    first = i;
                }
                count = count + 1;
            }
            i = i + 1;
        }
        proof {
            assert(self@.fns.take(i as int) =~= self@.fns);
        }
        (count, first)
    }

    /// The identifiers of the functions, in order.
    pub fn all_ids(&self) -> (ids: Vec<i32>)
        ensures
            ints(ids@) == self@.all_ids(),
    {
        let mut ids: Vec<i32> = Vec::new();
        let mut i: usize = 0;
        while i < self.fns.len()
            invariant
                0 <= i <= self.fns.len(),
                ints(ids@) == self@.all_ids().take(i as int),
            decreases self.fns.len() - i,
        {
            let ghost prev = ints(ids@);
            ids.push(self.fns[i].id);
            proof {
                assert(ints(ids@) =~= prev.push(self.fns[i as int].id as int));
            }
            i = i + 1;
        }
        ids
    }

    /// The identifier that the next new function gets: one more than the
    /// greatest in use, or 1 in a group without functions.
    pub fn next_id(&self) -> (id: i32)
        requires
            self@.next_id() <= i32::MAX,
        ensures
            id == self@.next_id(),
    {
        next_of(&self.all_ids())
    }

    /// Whether the next identifier still fits: whether there is room for
    /// one more function.
    pub fn has_next_id(&self) -> (has: bool)
        ensures
            has == (self@.next_id() <= i32::MAX),
    {
        has_next(&self.all_ids())
    }

    /// Adds a function under the next identifier, with no inputs, outputs
    /// and source, and returns a copy of it. This never fails.
    pub fn add_fn(&mut self, name: &str) -> (r: Result<FnDefinition, FngroupError>)
        requires
            old(self)@.next_id() <= i32::MAX,
        ensures
            r is Ok,
            r->Ok_0@ == old(self)@.new_fn(name@),
            final(self)@ == old(self)@.with_fn(name@),
            final(self)@ == old(self)@.after(FngroupEdit::AddFn { name: name@ }),
            old(self)@.ids_unique() ==> final(self)@.ids_unique(),
    {
        let f = FnDefinition {
            id: self.next_id(),
            name: name.to_owned(),
            description: "No description".to_owned(),
            body: String::new(),
            lang: FnLanguage::AssemblyScript,
            input: Vec::new(),
            output: Vec::new(),
        };
        proof {
            assert(f@.input =~= Seq::empty());
        }
        self.fns.push(f.clone());
        proof {
            assert(final(self)@.fns =~= old(self)@.fns.push(f@));
            if old(self)@.ids_unique() {
                old(self)@.lemma_with_fn_unique(name@);
            }
        }
        Ok(f)
    }

    /// The one function with this identifier, to change in place. Where
    /// none or several have it, the lookup fails and the group is as before.
    pub fn get_fn_mut(&mut self, id: i32) -> (r: Result<&mut FnDefinition, FngroupError>)
        ensures
            match r {
                Ok(f) => {
                    let at = old(self)@.first_with_id(id as int);
                    &&& old(self)@.fns_with_id(id as int).len() == 1
                    &&& old(self)@.is_first_with_id(id as int, at)
                    &&& *f == old(self).fns[at]
                    &&& final(self).fns@ == old(self).fns@.update(at, *final(f))
                },
                Err(e) => old(self)@.fns_with_id(id as int).len() != 1 && e
                    == FngroupError::FnDoesNotExist(id) && *final(self) == *old(self),
            },
    {
        let (count, first) = self.scan_id(id);
        if count == 1 {
            proof {
                self@.lemma_first_with_id(id as int, first as int);
            }
            Ok(&mut self.fns[first])
        } else {
            Err(FngroupError::FnDoesNotExist(id))
        }
    }

    /// Replaces name, description and source of the one function with the
    /// update's identifier, each only where the update gives a value, and
    /// returns a copy of the function as it is then. Where none or several
    /// functions have the identifier, nothing changes.
    pub fn update_fn(&mut self, input: &FnGroupFnUpdate) -> (r: Result<FnDefinition, FngroupError>)
        ensures
            match r {
                Ok(f) => {
                    let at = old(self)@.first_with_id(input.id as int);
                    &&& old(self)@.fns_with_id(input.id as int).len() == 1
                    &&& old(self)@.is_first_with_id(input.id as int, at)
                    &&& f@ == old(self)@.fns[at].updated(input@)
                    &&& final(self)@ == old(self)@.with_update_at(at, input@)
                },
                Err(e) => {
                    &&& old(self)@.fns_with_id(input.id as int).len() != 1
                    &&& e == FngroupError::FnDoesNotExist(input.id)
                    &&& *final(self) == *old(self)
                },
            },
            final(self)@ == old(self)@.after(FngroupEdit::UpdateFn { update: input@ }),
            old(self)@.ids_unique() ==> final(self)@.ids_unique(),
    {
        let (count, first) = self.scan_id(input.id);
        if count != 1 {
            return Err(FngroupError::FnDoesNotExist(input.id));
        }
        proof {
            self@.lemma_first_with_id(input.id as int, first as int);
        }
        if let Some(name) = &input.name {
            self.fns[first].name = name.clone();
        }
        if let Some(description) = &input.description {
            self.fns[first].description = description.clone();
        }
        if let Some(body) = &input.body {
            self.fns[first].body = body.clone();
        }
        proof {
            let at = first as int;
            assert(final(self)@.fns =~= old(self)@.fns.update(
                at,
                old(self)@.fns[at].updated(input@),
            ));
            old(self)@.lemma_with_update_ids(at, input@);
        }
        Ok(self.fns[first].clone())
    }
}

impl Default for FngroupDocument {
    /// A new function-group document that belongs to no project yet.
    fn default() -> (doc: Self)
        ensures
            doc.well_formed(),
            doc@.name == "New"@,
            doc@.version == 0,
            doc@.body == Fngroup::initial(),
    {
        Document::unfiled("New")
    }
}

} // verus!
