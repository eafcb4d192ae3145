//! Value types shared by the document bodies: positions, variable
//! definitions and the small closed set of primitive variable types.

use crate::util::seqs::views;
use vstd::prelude::*;

verus! {

/// Where a node is drawn. Display only.
#[derive(Debug, PartialEq, Eq)]
pub struct Position {
    pub x: i32,
    pub y: i32,
}

impl Clone for Position {
    fn clone(&self) -> (r: Self)
        ensures
            r == *self,
    {
        Position { x: self.x, y: self.y }
    }
}

/// A string-typed variable: an optional default.
#[derive(Debug, PartialEq, Eq)]
pub struct VTypeString {
    pub default: Option<String>,
}

/// The value that a string-typed variable holds once instantiated.
#[derive(Debug, PartialEq, Eq)]
pub struct VTypeStringContainer {
    pub value: String,
}

/// A boolean-typed variable: an optional default.
#[derive(Debug, PartialEq, Eq)]
pub struct VTypeBoolean {
    pub default: Option<bool>,
}

/// The value that a boolean-typed variable holds once instantiated.
#[derive(Debug, PartialEq, Eq)]
pub struct VTypeBooleanContainer {
    pub value: bool,
}

/// An integer-typed variable: an optional default and optional bounds.
#[derive(Debug, PartialEq, Eq)]
pub struct VTypeInteger {
    pub default: Option<i32>,
    pub min: Option<i32>,
    pub max: Option<i32>,
}

/// The value that an integer-typed variable holds once instantiated.
#[derive(Debug, PartialEq, Eq)]
pub struct VTypeIntegerContainer {
    pub value: i32,
}

/// The type of a variable, with its default and bounds.
#[derive(Debug, PartialEq, Eq)]
pub enum VType {
    VTypeString(VTypeString),
    VTypeBoolean(VTypeBoolean),
    VTypeInteger(VTypeInteger),
}

/// An instantiated variable of any of the primitive types.
#[derive(Debug, PartialEq, Eq)]
pub enum VTypeContainer {
    VTypeStringContainer(VTypeStringContainer),
    VTypeBooleanContainer(VTypeBooleanContainer),
    VTypeIntegerContainer(VTypeIntegerContainer),
}

/// The characters of an optional string, where there is one.
pub open spec fn opt_text(s: Option<String>) -> Option<Seq<char>> {
    match s {
        Some(t) => Some(t@),
        None => None,
    }
}

/// Copies an optional string.
pub fn clone_opt_string(s: &Option<String>) -> (r: Option<String>)
    ensures
        opt_text(r) == opt_text(*s),
{
    match s {
        Some(t) => Some(t.clone()),
        None => None,
    }
}

impl View for VTypeString {
    type V = Option<Seq<char>>;

    open spec fn view(&self) -> Option<Seq<char>> {
        opt_text(self.default)
    }
}

impl Clone for VTypeString {
    fn clone(&self) -> (r: Self)
        ensures
            r@ == self@,
    {
        VTypeString { default: clone_opt_string(&self.default) }
    }
}

impl View for VTypeStringContainer {
    type V = Seq<char>;

    open spec fn view(&self) -> Seq<char> {
        self.value@
    }
}

impl Clone for VTypeStringContainer {
    fn clone(&self) -> (r: Self)
        ensures
            r@ == self@,
    {
        VTypeStringContainer { value: self.value.clone() }
    }
}

impl View for VTypeBoolean {
    type V = Option<bool>;

    open spec fn view(&self) -> Option<bool> {
        self.default
    }
}

impl Clone for VTypeBoolean {
    fn clone(&self) -> (r: Self)
        ensures
            r == *self,
    {
        VTypeBoolean { default: self.default }
    }
}

impl View for VTypeBooleanContainer {
    type V = bool;

    open spec fn view(&self) -> bool {
        self.value
    }
}

impl Clone for VTypeBooleanContainer {
    fn clone(&self) -> (r: Self)
        ensures
            r == *self,
    {
        VTypeBooleanContainer { value: self.value }
    }
}

impl View for VTypeInteger {
    type V = VTypeInteger;

    open spec fn view(&self) -> VTypeInteger {
        *self
    }
}

impl Clone for VTypeInteger {
    fn clone(&self) -> (r: Self)
        ensures
            r == *self,
    {
        VTypeInteger { default: self.default, min: self.min, max: self.max }
    }
}

impl View for VTypeIntegerContainer {
    type V = int;

    open spec fn view(&self) -> int {
        self.value as int
    }
}

impl Clone for VTypeIntegerContainer {
    fn clone(&self) -> (r: Self)
        ensures
            r == *self,
    {
        VTypeIntegerContainer { value: self.value }
    }
}

/// What a variable type says, with strings as sequences of characters.
pub enum VTypeView {
    String(Option<Seq<char>>),
    Boolean(Option<bool>),
    Integer(VTypeInteger),
}

impl View for VType {
    type V = VTypeView;

    open spec fn view(&self) -> VTypeView {
        match *self {
            VType::VTypeString(s) => VTypeView::String(s@),
            VType::VTypeBoolean(b) => VTypeView::Boolean(b@),
            VType::VTypeInteger(i) => VTypeView::Integer(i),
        }
    }
}

impl Clone for VType {
    fn clone(&self) -> (r: Self)
        ensures
            r@ == self@,
    {
        match self {
            VType::VTypeString(s) => VType::VTypeString(s.clone()),
            VType::VTypeBoolean(b) => VType::VTypeBoolean(b.clone()),
            VType::VTypeInteger(i) => VType::VTypeInteger(i.clone()),
        }
    }
}

/// What an instantiated variable holds.
pub enum VTypeContainerView {
    String(Seq<char>),
    Boolean(bool),
    Integer(int),
}

impl View for VTypeContainer {
    type V = VTypeContainerView;

    open spec fn view(&self) -> VTypeContainerView {
        match *self {
            VTypeContainer::VTypeStringContainer(s) => VTypeContainerView::String(s@),
            VTypeContainer::VTypeBooleanContainer(b) => VTypeContainerView::Boolean(b@),
            VTypeContainer::VTypeIntegerContainer(i) => VTypeContainerView::Integer(i@),
        }
    }
}

impl Clone for VTypeContainer {
    fn clone(&self) -> (r: Self)
        ensures
            r@ == self@,
    {
        match self {
            VTypeContainer::VTypeStringContainer(s) => VTypeContainer::VTypeStringContainer(
                s.clone(),
            ),
            VTypeContainer::VTypeBooleanContainer(b) => VTypeContainer::VTypeBooleanContainer(
                b.clone(),
            ),
            VTypeContainer::VTypeIntegerContainer(i) => VTypeContainer::VTypeIntegerContainer(
                i.clone(),
            ),
        }
    }
}

/// A variable type that can be instantiated and checked against its bounds.
pub trait VTypeVariableDefinition: Sized {
    /// The container that an instance lives in.
    type Container: View;

    /// What a fresh instance holds: the default where one is given, else the
    /// type's neutral value.
    spec fn instance(&self) -> <Self::Container as View>::V;

    /// Whether the default lies inside the bounds.
    spec fn consistent(&self) -> bool;

    fn new_instance(&self) -> (c: Self::Container)
        ensures
            c@ == self.instance(),
    ;

    fn is_consistent(&self) -> (ok: bool)
        ensures
            ok == self.consistent(),
    ;
}

impl VTypeVariableDefinition for VTypeString {
    type Container = VTypeStringContainer;

    open spec fn instance(&self) -> Seq<char> {
        match self.default {
            Some(s) => s@,
            None => Seq::empty(),
        }
    }

    open spec fn consistent(&self) -> bool {
        true
    }

    fn new_instance(&self) -> (c: VTypeStringContainer) {
        match &self.default {
            Some(s) => VTypeStringContainer { value: s.clone() },
            None => VTypeStringContainer { value: String::new() },
        }
    }

    fn is_consistent(&self) -> (ok: bool) {
        true
    }
}

impl VTypeVariableDefinition for VTypeBoolean {
    type Container = VTypeBooleanContainer;

    open spec fn instance(&self) -> bool {
        match self.default {
            Some(b) => b,
            None => false,
        }
    }

    open spec fn consistent(&self) -> bool {
        true
    }

    fn new_instance(&self) -> (c: VTypeBooleanContainer) {
        match self.default {
            Some(b) => VTypeBooleanContainer { value: b },
            None => VTypeBooleanContainer { value: false },
        }
    }

    fn is_consistent(&self) -> (ok: bool) {
        true
    }
}

impl VTypeVariableDefinition for VTypeInteger {
    type Container = VTypeIntegerContainer;

    open spec fn instance(&self) -> int {
        match self.default {
            Some(n) => n as int,
            None => 0,
        }
    }

    open spec fn consistent(&self) -> bool {
        &&& self.min matches Some(lo) ==> lo <= self.instance()
        &&& self.max matches Some(hi) ==> self.instance() <= hi
    }

    fn new_instance(&self) -> (c: VTypeIntegerContainer) {
        match self.default {
            Some(n) => VTypeIntegerContainer { value: n },
            None => VTypeIntegerContainer { value: 0 },
        }
    }

    fn is_consistent(&self) -> (ok: bool) {
        let x: i32 = match self.default {
            Some(n) => n,
            None => 0,
        };
        if let Some(min) = self.min {
            if min > x {
                return false;
            }
        }
        if let Some(max) = self.max {
            if max < x {
                return false;
            }
        }
        true
    }
}

impl VTypeVariableDefinition for VType {
    type Container = VTypeContainer;

    open spec fn instance(&self) -> VTypeContainerView {
        match *self {
            VType::VTypeString(s) => VTypeContainerView::String(s.instance()),
            VType::VTypeBoolean(b) => VTypeContainerView::Boolean(b.instance()),
            VType::VTypeInteger(i) => VTypeContainerView::Integer(i.instance()),
        }
    }

    open spec fn consistent(&self) -> bool {
        match *self {
            VType::VTypeString(s) => s.consistent(),
            VType::VTypeBoolean(b) => b.consistent(),
            VType::VTypeInteger(i) => i.consistent(),
        }
    }

    fn new_instance(&self) -> (c: VTypeContainer) {
        match self {
            VType::VTypeString(s) => VTypeContainer::VTypeStringContainer(s.new_instance()),
            VType::VTypeBoolean(b) => VTypeContainer::VTypeBooleanContainer(b.new_instance()),
            VType::VTypeInteger(i) => VTypeContainer::VTypeIntegerContainer(i.new_instance()),
        }
    }

    fn is_consistent(&self) -> (ok: bool) {
        match self {
            VType::VTypeString(s) => s.is_consistent(),
            VType::VTypeBoolean(b) => b.is_consistent(),
            VType::VTypeInteger(i) => i.is_consistent(),
        }
    }
}

/// A named, typed variable.
#[derive(Debug, PartialEq, Eq)]
pub struct VariableDefinition {
    pub id: i32,
    pub name: String,
    pub vtype: VType,
}

/// A variable definition, with its identifier as a mathematical integer and
/// its name as a sequence of characters.
pub struct VariableDefinitionView {
    pub id: int,
    pub name: Seq<char>,
    pub vtype: VTypeView,
}

impl View for VariableDefinition {
    type V = VariableDefinitionView;

    open spec fn view(&self) -> VariableDefinitionView {
        VariableDefinitionView { id: self.id as int, name: self.name@, vtype: self.vtype@ }
    }
}

impl Clone for VariableDefinition {
    fn clone(&self) -> (r: Self)
        ensures
            r@ == self@,
    {
        VariableDefinition { id: self.id, name: self.name.clone(), vtype: self.vtype.clone() }
    }
}

/// Variable definitions, in order.
pub type VariableDefinitions = Vec<VariableDefinition>;

/// Copies a list of variable definitions.
pub fn clone_definitions(list: &Vec<VariableDefinition>) -> (r: Vec<VariableDefinition>)
    ensures
        views(r@) == views(list@),
{
    let r = list.clone();
    r
}

/// The variables of a document: what it takes, what it keeps to itself and
/// what it gives back.
#[derive(Debug, PartialEq, Eq)]
pub struct DocumentVariables {
    pub input: VariableDefinitions,
    pub local: VariableDefinitions,
    pub output: VariableDefinitions,
}

/// The variables of a document, by their views.
pub struct DocumentVariablesView {
    pub input: Seq<VariableDefinitionView>,
    pub local: Seq<VariableDefinitionView>,
    pub output: Seq<VariableDefinitionView>,
}

impl DocumentVariablesView {
    /// No variable of any kind.
    pub open spec fn empty() -> DocumentVariablesView {
        DocumentVariablesView { input: Seq::empty(), local: Seq::empty(), output: Seq::empty() }
    }
}

impl View for DocumentVariables {
    type V = DocumentVariablesView;

    open spec fn view(&self) -> DocumentVariablesView {
        DocumentVariablesView {
            input: views(self.input@),
            local: views(self.local@),
            output: views(self.output@),
        }
    }
}

impl Clone for DocumentVariables {
    fn clone(&self) -> (r: Self)
        ensures
            r@ == self@,
    {
        DocumentVariables {
            input: clone_definitions(&self.input),
            local: clone_definitions(&self.local),
            output: clone_definitions(&self.output),
        }
    }
}

impl Default for DocumentVariables {
    /// No variable of any kind.
    fn default() -> (variables: Self)
        ensures
            variables@ == DocumentVariablesView::empty(),
    {
        let variables = DocumentVariables {
            input: Vec::new(),
            local: Vec::new(),
            output: Vec::new(),
        };
        assert(variables@.input =~= Seq::empty());
        variables
    }
}

} // verus!
