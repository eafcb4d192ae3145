//! The flow graph of an xflow document: nodes, edges between them and
//! branches that guard edges, with the queries that check its shape.

use crate::structure::common::{Doctype, Document, DocumentBody};
use crate::structure::data::{
    DocumentVariables, DocumentVariablesView, Position, VariableDefinition, VariableDefinitionView,
};
use crate::util::seqs::{lemma_filter_take_succ, views};
use crate::util::text::same_text;
use vstd::prelude::*;

verus! {

/// An xflow document.
pub type XFlowDocument = Document<XFlow>;

/// A directed edge from one node to another, by their identifiers.
#[derive(Debug, PartialEq, Eq)]
pub struct XFlowEdge {
    pub source: i32,
    pub target: i32,
}

/// What a flow's shape can lack.
#[derive(Debug, PartialEq, Eq)]
pub enum XFlowError {
    NoEntryNode,
    NoTerminalNode,
    MultipleEntryNodes,
    DuplicateNodeIDs,
    NodeNotFound,
}

/// The kind of a node.
#[derive(Debug, PartialEq, Eq, Hash, Structural)]
pub enum XFlowNodeType {
    Flow,
    Flox,
    Call,
}

/// A capability that a flow needs: a kind of node, in a version.
#[derive(Debug, PartialEq, Eq)]
pub struct XFlowRequirement {
    pub xtype: XFlowNodeType,
    pub version: i32,
}

/// What a node of kind `flow` is set up with: nothing.
#[derive(Debug, PartialEq, Eq)]
pub struct FlowParameters {}

/// What a node of kind `flox` is set up with: an expression and the variable
/// that takes its value.
#[derive(Debug, PartialEq, Eq)]
pub struct FloxParameters {
    pub expression: String,
    pub returns: VariableDefinition,
}

/// What a node of kind `call` is set up with: nothing.
#[derive(Debug, PartialEq, Eq)]
pub struct CallParameters {}

/// What a node is set up with, by its kind.
#[derive(Debug, PartialEq, Eq)]
pub enum XFlowNodeParameters {
    Flow(FlowParameters),
    Flox(FloxParameters),
    Call(CallParameters),
}

/// A node of a flow.
#[derive(Debug, PartialEq, Eq)]
pub struct XFlowNode {
    pub id: i32,
    pub nodetype: XFlowNodeType,
    pub position: Position,
    pub action: String,
    pub label: String,
    pub parameters: XFlowNodeParameters,
}

/// An edge that is taken only under a guard variable.
#[derive(Debug, PartialEq, Eq)]
pub struct XFlowBranch {
    pub edge: XFlowEdge,
    pub xvar: VariableDefinition,
}

/// The body of an xflow document.
#[derive(Debug, PartialEq, Eq)]
pub struct XFlow {
    pub requirements: Vec<XFlowRequirement>,
    pub variables: DocumentVariables,
    pub nodes: Vec<XFlowNode>,
    pub edges: Vec<XFlowEdge>,
    pub branches: Vec<XFlowBranch>,
}

/// The parameters of a node, with texts as sequences of characters.
pub enum XFlowNodeParametersView {
    Flow,
    Flox { expression: Seq<char>, returns: VariableDefinitionView },
    Call,
}

/// A node, with its identifier as a mathematical integer and its texts as
/// sequences of characters.
pub struct XFlowNodeView {
    pub id: int,
    pub nodetype: XFlowNodeType,
    pub position: Position,
    pub action: Seq<char>,
    pub label: Seq<char>,
    pub parameters: XFlowNodeParametersView,
}

/// A branch, with its guard variable by its view.
pub struct XFlowBranchView {
    pub edge: XFlowEdge,
    pub xvar: VariableDefinitionView,
}

/// A flow, with its nodes, branches and variables by their views.
pub struct XFlowView {
    pub requirements: Seq<XFlowRequirement>,
    pub variables: DocumentVariablesView,
    pub nodes: Seq<XFlowNodeView>,
    pub edges: Seq<XFlowEdge>,
    pub branches: Seq<XFlowBranchView>,
}

impl View for XFlowEdge {
    type V = XFlowEdge;

    open spec fn view(&self) -> XFlowEdge {
        *self
    }
}

impl View for XFlowRequirement {
    type V = XFlowRequirement;

    open spec fn view(&self) -> XFlowRequirement {
        *self
    }
}

impl View for XFlowNodeParameters {
    type V = XFlowNodeParametersView;

    open spec fn view(&self) -> XFlowNodeParametersView {
        match *self {
            XFlowNodeParameters::Flow(_) => XFlowNodeParametersView::Flow,
            XFlowNodeParameters::Flox(p) => XFlowNodeParametersView::Flox {
                expression: p.expression@,
                returns: p.returns@,
            },
            XFlowNodeParameters::Call(_) => XFlowNodeParametersView::Call,
        }
    }
}

impl View for XFlowNode {
    type V = XFlowNodeView;

    open spec fn view(&self) -> XFlowNodeView {
        XFlowNodeView {
            id: self.id as int,
            nodetype: self.nodetype,
            position: self.position,
            action: self.action@,
            label: self.label@,
            parameters: self.parameters@,
        }
    }
}

impl View for XFlowBranch {
    type V = XFlowBranchView;

    open spec fn view(&self) -> XFlowBranchView {
        XFlowBranchView { edge: self.edge, xvar: self.xvar@ }
    }
}

impl View for XFlow {
    type V = XFlowView;

    open spec fn view(&self) -> XFlowView {
        XFlowView {
            requirements: views(self.requirements@),
            variables: self.variables@,
            nodes: views(self.nodes@),
            edges: views(self.edges@),
            branches: views(self.branches@),
        }
    }
}

impl Clone for XFlowEdge {
    fn clone(&self) -> (r: Self)
        ensures
            r == *self,
    {
        XFlowEdge { source: self.source, target: self.target }
    }
}

impl Clone for XFlowError {
    fn clone(&self) -> (r: Self)
        ensures
            r == *self,
    {
        match self {
            XFlowError::NoEntryNode => XFlowError::NoEntryNode,
            XFlowError::NoTerminalNode => XFlowError::NoTerminalNode,
            XFlowError::MultipleEntryNodes => XFlowError::MultipleEntryNodes,
            XFlowError::DuplicateNodeIDs => XFlowError::DuplicateNodeIDs,
            XFlowError::NodeNotFound => XFlowError::NodeNotFound,
        }
    }
}

impl Clone for XFlowNodeType {
    fn clone(&self) -> (r: Self)
        ensures
            r == *self,
    {
        match self {
            XFlowNodeType::Flow => XFlowNodeType::Flow,
            XFlowNodeType::Flox => XFlowNodeType::Flox,
            XFlowNodeType::Call => XFlowNodeType::Call,
        }
    }
}

impl Clone for XFlowRequirement {
    fn clone(&self) -> (r: Self)
        ensures
            r == *self,
    {
        XFlowRequirement { xtype: self.xtype.clone(), version: self.version }
    }
}

impl Clone for FlowParameters {
    fn clone(&self) -> (r: Self)
        ensures
            r == *self,
    {
        FlowParameters {  }
    }
}

impl Default for FlowParameters {
    fn default() -> (r: Self)
        ensures
            r == (FlowParameters {  }),
    {
        FlowParameters {  }
    }
}

impl Clone for CallParameters {
    fn clone(&self) -> (r: Self)
        ensures
            r == *self,
    {
        CallParameters {  }
    }
}

impl Clone for FloxParameters {
    fn clone(&self) -> (r: Self)
        ensures
            r.expression@ == self.expression@,
            r.returns@ == self.returns@,
    {
        FloxParameters { expression: self.expression.clone(), returns: self.returns.clone() }
    }
}

impl Clone for XFlowNodeParameters {
    fn clone(&self) -> (r: Self)
        ensures
            r@ == self@,
    {
        match self {
            XFlowNodeParameters::Flow(p) => XFlowNodeParameters::Flow(p.clone()),
            XFlowNodeParameters::Flox(p) => XFlowNodeParameters::Flox(p.clone()),
            XFlowNodeParameters::Call(p) => XFlowNodeParameters::Call(p.clone()),
        }
    }
}

impl Clone for XFlowNode {
    fn clone(&self) -> (r: Self)
        ensures
            r@ == self@,
    {
        XFlowNode {
            id: self.id,
            nodetype: self.nodetype.clone(),
            position: self.position.clone(),
            action: self.action.clone(),
            label: self.label.clone(),
            parameters: self.parameters.clone(),
        }
    }
}

impl Clone for XFlowBranch {
    fn clone(&self) -> (r: Self)
        ensures
            r@ == self@,
    {
        XFlowBranch { edge: self.edge.clone(), xvar: self.xvar.clone() }
    }
}

impl Clone for XFlow {
    fn clone(&self) -> (r: Self)
        ensures
            r@ == self@,
    {
        let requirements = self.requirements.clone();
        let nodes = self.nodes.clone();
        assert(views(nodes@) =~= views(self.nodes@));
        let edges = self.edges.clone();
        let branches = self.branches.clone();
        assert(views(branches@) =~= views(self.branches@));
        XFlow { requirements, variables: self.variables.clone(), nodes, edges, branches }
    }
}

impl XFlowNodeView {
    /// Whether the node is of a kind and does an action.
    pub open spec fn is(self, nodetype: XFlowNodeType, action: Seq<char>) -> bool {
        self.nodetype == nodetype && self.action == action
    }

    /// Whether the node's parameters are those of its kind.
    pub open spec fn well_typed(self) -> bool {
        match self.parameters {
            XFlowNodeParametersView::Flow => self.nodetype == XFlowNodeType::Flow,
            XFlowNodeParametersView::Flox { .. } => self.nodetype == XFlowNodeType::Flox,
            XFlowNodeParametersView::Call => self.nodetype == XFlowNodeType::Call,
        }
    }
}

impl XFlowView {
    /// The nodes of a kind that do an action, in order.
    pub open spec fn nodes_by(self, nodetype: XFlowNodeType, action: Seq<char>) -> Seq<
        XFlowNodeView,
    > {
        self.nodes.filter(|n: XFlowNodeView| n.is(nodetype, action))
    }

    /// The nodes of a kind, in order.
    pub open spec fn nodes_of_type(self, nodetype: XFlowNodeType) -> Seq<XFlowNodeView> {
        self.nodes.filter(|n: XFlowNodeView| n.nodetype == nodetype)
    }

    /// The nodes with an identifier, in order.
    pub open spec fn nodes_with_id(self, id: int) -> Seq<XFlowNodeView> {
        self.nodes.filter(|n: XFlowNodeView| n.id == id)
    }

    /// The edges that end in a node, in order.
    pub open spec fn in_edges(self, id: int) -> Seq<XFlowEdge> {
        self.edges.filter(|e: XFlowEdge| e.target == id)
    }

    /// The edges that start from a node, in order.
    pub open spec fn out_edges(self, id: int) -> Seq<XFlowEdge> {
        self.edges.filter(|e: XFlowEdge| e.source == id)
    }

    /// The branches on an edge, in order.
    pub open spec fn branches_for(self, edge: XFlowEdge) -> Seq<XFlowBranchView> {
        self.branches.filter(
            |b: XFlowBranchView| edge.source == b.edge.source && edge.target == b.edge.target,
        )
    }

    /// The branches on edges that start from a node, in order.
    pub open spec fn out_branches(self, id: int) -> Seq<XFlowBranchView> {
        self.branches.filter(|b: XFlowBranchView| b.edge.source == id)
    }

    /// The nodes at which the flow starts.
    pub open spec fn entry_nodes(self) -> Seq<XFlowNodeView> {
        self.nodes_by(XFlowNodeType::Flow, "start"@)
    }

    /// The nodes at which the flow ends.
    pub open spec fn terminal_nodes(self) -> Seq<XFlowNodeView> {
        self.nodes_by(XFlowNodeType::Flow, "end"@)
    }

    /// No two nodes have the same identifier.
    pub open spec fn node_ids_unique(self) -> bool {
        self.nodes.map_values(|n: XFlowNodeView| n.id).no_duplicates()
    }

    /// Whether some node has an identifier.
    pub open spec fn has_node(self, id: int) -> bool {
        exists|i: int| 0 <= i < self.nodes.len() && self.nodes[i].id == id
    }

    /// Every edge starts from a node of the flow and ends in one.
    pub open spec fn edges_resolve(self) -> bool {
        forall|i: int|
            0 <= i < self.edges.len() ==> self.has_node(#[trigger] self.edges[i].source as int)
                && self.has_node(self.edges[i].target as int)
    }

    /// What is wrong with the flow's shape, if anything: the first of
    /// duplicate node identifiers, no entry node, several entry nodes, no
    /// terminal node, an edge without one of its nodes.
    pub open spec fn defect(self) -> Option<XFlowError> {
        if !self.node_ids_unique() {
            Some(XFlowError::DuplicateNodeIDs)
        } else if self.entry_nodes().len() == 0 {
            Some(XFlowError::NoEntryNode)
        } else if self.entry_nodes().len() > 1 {
            Some(XFlowError::MultipleEntryNodes)
        } else if self.terminal_nodes().len() == 0 {
            Some(XFlowError::NoTerminalNode)
        } else if !self.edges_resolve() {
            Some(XFlowError::NodeNotFound)
        } else {
            None
        }
    }

    /// A well-formed flow: node identifiers are unique, there is exactly one
    /// entry node and at least one terminal node, and every edge joins nodes
    /// of the flow.
    pub open spec fn valid(self) -> bool {
        &&& self.node_ids_unique()
        &&& self.entry_nodes().len() == 1
        &&& self.terminal_nodes().len() >= 1
        &&& self.edges_resolve()
    }

    /// The node at which the canonical flow starts.
    pub open spec fn start_node() -> XFlowNodeView {
        XFlowNodeView {
            id: 1,
            nodetype: XFlowNodeType::Flow,
            position: Position { x: 0, y: 0 },
            action: "start"@,
            label: "Start"@,
            parameters: XFlowNodeParametersView::Flow,
        }
    }

    /// The node at which the canonical flow ends.
    pub open spec fn end_node() -> XFlowNodeView {
        XFlowNodeView {
            id: 2,
            nodetype: XFlowNodeType::Flow,
            position: Position { x: 200, y: 0 },
            action: "end"@,
            label: "End"@,
            parameters: XFlowNodeParametersView::Flow,
        }
    }

    /// The flow that a new document starts with: a start node and an end
    /// node, one edge from the first to the second, one requirement (flow
    /// nodes, version 1), and no variables or branches.
    pub open spec fn canonical() -> XFlowView {
        XFlowView {
            requirements: seq![XFlowRequirement { xtype: XFlowNodeType::Flow, version: 1 }],
            variables: DocumentVariablesView::empty(),
            nodes: seq![Self::start_node(), Self::end_node()],
            edges: seq![XFlowEdge { source: 1, target: 2 }],
            branches: Seq::empty(),
        }
    }

    /// The flow that a new document starts with is well-formed: it has
    /// exactly one entry node and exactly one terminal node, and its one
    /// edge leads from the first to the second.
    pub proof fn lemma_canonical_is_valid()
        ensures
            Self::canonical().valid(),
            Self::canonical().defect() is None,
            Self::canonical().entry_nodes() == seq![Self::start_node()],
            Self::canonical().terminal_nodes() == seq![Self::end_node()],
            Self::canonical().edges.len() == 1,
            Self::canonical().edges[0].source == Self::canonical().entry_nodes()[0].id,
            Self::canonical().edges[0].target == Self::canonical().terminal_nodes()[0].id,
            forall|i: int|
                0 <= i < Self::canonical().nodes.len() ==> Self::canonical().nodes[i].well_typed(),
    {
        let flow = Self::canonical();
        reveal_strlit("start");
        reveal_strlit("end");
        assert("start"@ != "end"@) by {
            assert("start"@.len() == 5);
        }
        reveal_with_fuel(Seq::filter, 3);
        assert(flow.has_node(1));
        assert(flow.has_node(2));
    }
}

impl Default for XFlow {
    /// The flow that a new document starts with.
    fn default() -> (flow: Self)
        ensures
            flow@ == XFlowView::canonical(),
            flow@.valid(),
    {
        let mut nodes: Vec<XFlowNode> = Vec::new();
        nodes.push(
            XFlowNode {
                id: 1,
                nodetype: XFlowNodeType::Flow,
                action: "start".to_owned(),
                label: "Start".to_owned(),
                position: Position { x: 0, y: 0 },
                parameters: XFlowNodeParameters::Flow(FlowParameters::default()),
            },
        );
        nodes.push(
            XFlowNode {
                id: 2,
                nodetype: XFlowNodeType::Flow,
                action: "end".to_owned(),
                label: "End".to_owned(),
                position: Position { x: 200, y: 0 },
                parameters: XFlowNodeParameters::Flow(FlowParameters::default()),
            },
        );
        let mut edges: Vec<XFlowEdge> = Vec::new();
        edges.push(XFlowEdge { source: 1, target: 2 });
        let mut requirements: Vec<XFlowRequirement> = Vec::new();
        requirements.push(XFlowRequirement { xtype: XFlowNodeType::Flow, version: 1 });
        let flow = XFlow {
            requirements,
            variables: DocumentVariables::default(),
            nodes,
            edges,
            branches: Vec::new(),
        };
        proof {
            assert(flow@.requirements =~= XFlowView::canonical().requirements);
            assert(flow@.nodes =~= XFlowView::canonical().nodes);
            assert(flow@.edges =~= XFlowView::canonical().edges);
            assert(flow@.branches =~= XFlowView::canonical().branches);
            XFlowView::lemma_canonical_is_valid();
        }
        flow
    }
}

impl DocumentBody for XFlow {
    open spec fn kind() -> Doctype {
        Doctype::XFlow
    }

    proof fn lemma_tag_of_kind() {
    }

    open spec fn doctype_tag() -> Seq<char> {
        "xflow"@
    }

    open spec fn initial() -> XFlowView {
        XFlowView::canonical()
    }

    fn doctype() -> (tag: String) {
        "xflow".to_owned()
    }

    fn initial_body() -> (body: Self) {
        XFlow::default()
    }
}

impl XFlow {
    /// The nodes of a kind that do an action, in the order of the flow.
    pub fn get_nodes_by(&self, nodetype: &XFlowNodeType, action: &str) -> (found: Vec<&XFlowNode>)
        ensures
            views(found@) == self@.nodes_by(*nodetype, action@),
    {
        let ghost p = |n: XFlowNodeView| n.is(*nodetype, action@);
        let mut found: Vec<&XFlowNode> = Vec::new();
        let mut i: usize = 0;
        proof {
            assert(views(found@) =~= self@.nodes.take(0).filter(p)) by {
                reveal(Seq::filter);
            }
        }
        while i < self.nodes.len()
            invariant
                0 <= i <= self.nodes.len(),
                p == |n: XFlowNodeView| n.is(*nodetype, action@),
                views(found@) == self@.nodes.take(i as int).filter(p),
            decreases self.nodes.len() - i,
        {
            let node = &self.nodes[i];
            proof {
                lemma_filter_take_succ(self@.nodes, p, i as int);
            }
            if node.nodetype == *nodetype && same_text(node.action.as_str(), action) {
                found.push(node);
            }
            i = i + 1;
        }
        proof {
            assert(self@.nodes.take(i as int) =~= self@.nodes);
        }
        found
    }

    /// The nodes of a kind, in the order of the flow.
    pub fn get_nodes_of_type(&self, nodetype: &XFlowNodeType) -> (found: Vec<&XFlowNode>)
        ensures
            views(found@) == self@.nodes_of_type(*nodetype),
    {
        let ghost p = |n: XFlowNodeView| n.nodetype == *nodetype;
        let mut found: Vec<&XFlowNode> = Vec::new();
        let mut i: usize = 0;
        proof {
            assert(views(found@) =~= self@.nodes.take(0).filter(p)) by {
                reveal(Seq::filter);
            }
        }
        while i < self.nodes.len()
            invariant
                0 <= i <= self.nodes.len(),
                p == |n: XFlowNodeView| n.nodetype == *nodetype,
                views(found@) == self@.nodes.take(i as int).filter(p),
            decreases self.nodes.len() - i,
        {
            let node = &self.nodes[i];
            proof {
                lemma_filter_take_succ(self@.nodes, p, i as int);
            }
            if node.nodetype == *nodetype {
                found.push(node);
            }
            i = i + 1;
        }
        proof {
            assert(self@.nodes.take(i as int) =~= self@.nodes);
        }
        found
    }

    /// The edges that end in a node, in the order of the flow.
    pub fn get_in_edges(&self, node: &XFlowNode) -> (found: Vec<&XFlowEdge>)
        ensures
            views(found@) == self@.in_edges(node.id as int),
    {
        let ghost p = |e: XFlowEdge| e.target == node.id as int;
        let mut found: Vec<&XFlowEdge> = Vec::new();
        let mut i: usize = 0;
        proof {
            assert(views(found@) =~= self@.edges.take(0).filter(p)) by {
                reveal(Seq::filter);
            }
        }
        while i < self.edges.len()
            invariant
                0 <= i <= self.edges.len(),
                p == |e: XFlowEdge| e.target == node.id as int,
                views(found@) == self@.edges.take(i as int).filter(p),
            decreases self.edges.len() - i,
        {
            let edge = &self.edges[i];
            proof {
                lemma_filter_take_succ(self@.edges, p, i as int);
            }
            if edge.target == node.id {
                found.push(edge);
            }
            i = i + 1;
        }
        proof {
            assert(self@.edges.take(i as int) =~= self@.edges);
        }
        found
    }

    /// The edges that start from a node, in the order of the flow.
    pub fn get_out_edges(&self, node: &XFlowNode) -> (found: Vec<&XFlowEdge>)
        ensures
            views(found@) == self@.out_edges(node.id as int),
    {
        let ghost p = |e: XFlowEdge| e.source == node.id as int;
        let mut found: Vec<&XFlowEdge> = Vec::new();
        let mut i: usize = 0;
        proof {
            assert(views(found@) =~= self@.edges.take(0).filter(p)) by {
                reveal(Seq::filter);
            }
        }
        while i < self.edges.len()
            invariant
                0 <= i <= self.edges.len(),
                p == |e: XFlowEdge| e.source == node.id as int,
                views(found@) == self@.edges.take(i as int).filter(p),
            decreases self.edges.len() - i,
        {
            let edge = &self.edges[i];
            proof {
                lemma_filter_take_succ(self@.edges, p, i as int);
            }
            if edge.source == node.id {
                found.push(edge);
            }
            i = i + 1;
        }
        proof {
            assert(self@.edges.take(i as int) =~= self@.edges);
        }
        found
    }

    /// The branches on an edge, in the order of the flow.
    pub fn get_branches_for(&self, edge: &XFlowEdge) -> (found: Vec<&XFlowBranch>)
        ensures
            views(found@) == self@.branches_for(*edge),
    {
        let ghost p = |b: XFlowBranchView|
            edge.source == b.edge.source && edge.target == b.edge.target;
        let mut found: Vec<&XFlowBranch> = Vec::new();
        let mut i: usize = 0;
        proof {
            assert(views(found@) =~= self@.branches.take(0).filter(p)) by {
                reveal(Seq::filter);
            }
        }
        while i < self.branches.len()
            invariant
                0 <= i <= self.branches.len(),
                p == |b: XFlowBranchView|
                    edge.source == b.edge.source && edge.target == b.edge.target,
                views(found@) == self@.branches.take(i as int).filter(p),
            decreases self.branches.len() - i,
        {
            let branch = &self.branches[i];
            proof {
                lemma_filter_take_succ(self@.branches, p, i as int);
            }
            if edge.source == branch.edge.source && edge.target == branch.edge.target {
                found.push(branch);
            }
            i = i + 1;
        }
        proof {
            assert(self@.branches.take(i as int) =~= self@.branches);
        }
        found
    }

    /// The branches on edges that start from a node, in the order of the flow.
    pub fn get_out_branches(&self, id: i32) -> (found: Vec<&XFlowBranch>)
        ensures
            views(found@) == self@.out_branches(id as int),
    {
        let ghost p = |b: XFlowBranchView| b.edge.source == id as int;
        let mut found: Vec<&XFlowBranch> = Vec::new();
        let mut i: usize = 0;
        proof {
            assert(views(found@) =~= self@.branches.take(0).filter(p)) by {
                reveal(Seq::filter);
            }
        }
        while i < self.branches.len()
            invariant
                0 <= i <= self.branches.len(),
                p == |b: XFlowBranchView| b.edge.source == id as int,
                views(found@) == self@.branches.take(i as int).filter(p),
            decreases self.branches.len() - i,
        {
            let branch = &self.branches[i];
            proof {
                lemma_filter_take_succ(self@.branches, p, i as int);
            }
            if branch.edge.source == id {
                found.push(branch);
            }
            i = i + 1;
        }
        proof {
            assert(self@.branches.take(i as int) =~= self@.branches);
        }
        found
    }

    /// The node at which the flow starts: the one flow node with the action
    /// "start". A flow with none, or with several, has no entry node.
    pub fn get_entry_node(&self) -> (r: Result<&XFlowNode, XFlowError>)
        ensures
            match r {
                Ok(node) => self@.entry_nodes().len() == 1 && node@ == self@.entry_nodes()[0],
                Err(e) => if self@.entry_nodes().len() == 0 {
                    e == XFlowError::NoEntryNode
                } else {
                    self@.entry_nodes().len() > 1 && e == XFlowError::MultipleEntryNodes
                },
            },
    {
        let res = self.get_nodes_by(&XFlowNodeType::Flow, "start");
        if res.len() == 0 {
            Err(XFlowError::NoEntryNode)
        } else if res.len() == 1 {
            Ok(res[0])
        } else {
            Err(XFlowError::MultipleEntryNodes)
        }
    }

    /// The nodes at which the flow ends: the flow nodes with the action
    /// "end", of which there must be at least one.
    pub fn get_terminal_nodes(&self) -> (r: Result<Vec<&XFlowNode>, XFlowError>)
        ensures
            match r {
                Ok(nodes) => nodes@.len() > 0 && views(nodes@) == self@.terminal_nodes(),
                Err(e) => self@.terminal_nodes().len() == 0 && e == XFlowError::NoTerminalNode,
            },
    {
        let res = self.get_nodes_by(&XFlowNodeType::Flow, "end");
        if res.len() == 0 {
            Err(XFlowError::NoTerminalNode)
        } else {
            Ok(res)
        }
    }

    /// The node with an identifier, unless none or several have it.
    pub fn get_node_id(&self, id: i32) -> (r: Option<&XFlowNode>)
        ensures
            match r {
                Some(node) => self@.nodes_with_id(id as int).len() == 1 && node@
                    == self@.nodes_with_id(id as int)[0],
                None => self@.nodes_with_id(id as int).len() != 1,
            },
    {
        let ghost p = |n: XFlowNodeView| n.id == id as int;
        let mut found: Vec<&XFlowNode> = Vec::new();
        let mut i: usize = 0;
        proof {
            assert(views(found@) =~= self@.nodes.take(0).filter(p)) by {
                reveal(Seq::filter);
            }
        }
        while i < self.nodes.len()
            invariant
                0 <= i <= self.nodes.len(),
                p == |n: XFlowNodeView| n.id == id as int,
                views(found@) == self@.nodes.take(i as int).filter(p),
            decreases self.nodes.len() - i,
        {
            let node = &self.nodes[i];
            proof {
                lemma_filter_take_succ(self@.nodes, p, i as int);
            }
            if node.id == id {
                found.push(node);
            }
            i = i + 1;
        }
        proof {
            assert(self@.nodes.take(i as int) =~= self@.nodes);
        }
        if found.len() == 1 {
            Some(found[0])
        } else {
            None
        }
    }
}

impl XFlowView {
    /// A flow has no defect exactly if it is well-formed.
    pub proof fn lemma_valid_iff_no_defect(self)
        ensures
            self.valid() <==> self.defect() is None,
    {
    }
}

impl XFlow {
    /// Whether some node has an identifier.
    pub fn has_node(&self, id: i32) -> (has: bool)
        ensures
            has == self@.has_node(id as int),
    {
        let mut i: usize = 0;
        while i < self.nodes.len()
            invariant
                0 <= i <= self.nodes.len(),
                forall|j: int| 0 <= j < i ==> self@.nodes[j].id != id,
            decreases self.nodes.len() - i,
        {
            if self.nodes[i].id == id {
                assert(self@.nodes[i as int].id == id);
                return true;
            }
            i = i + 1;
        }
        false
    }

    /// Whether no two nodes have the same identifier.
    fn node_ids_unique(&self) -> (unique: bool)
        ensures
            unique == self@.node_ids_unique(),
    {
        let ghost ids = self@.nodes.map_values(|n: XFlowNodeView| n.id);
        let mut i: usize = 0;
        while i < self.nodes.len()
            invariant
                0 <= i <= self.nodes.len(),
                ids == self@.nodes.map_values(|n: XFlowNodeView| n.id),
                forall|a: int, b: int| 0 <= a < b < i ==> ids[a] != ids[b],
            decreases self.nodes.len() - i,
        {
            let mut j: usize = 0;
            while j < i
                invariant
                    0 <= j <= i < self.nodes.len(),
                    ids == self@.nodes.map_values(|n: XFlowNodeView| n.id),
                    forall|a: int| 0 <= a < j ==> ids[a] != ids[i as int],
                decreases i - j,
            {
                if self.nodes[j].id == self.nodes[i].id {
                    assert(ids[j as int] == ids[i as int]);
                    return false;
                }
                j = j + 1;
            }
            i = i + 1;
        }
        proof {
            assert forall|a: int, b: int| 0 <= a < ids.len() && 0 <= b < ids.len() && a
                != b implies ids[a] != ids[b] by {
            }
        }
        true
    }

    /// Whether every edge joins nodes of the flow.
    fn edges_resolve(&self) -> (resolve: bool)
        ensures
            resolve == self@.edges_resolve(),
    {
        let mut i: usize = 0;
        while i < self.edges.len()
            invariant
                0 <= i <= self.edges.len(),
                forall|j: int|
                    0 <= j < i ==> self@.has_node(#[trigger] self@.edges[j].source as int)
                        && self@.has_node(self@.edges[j].target as int),
            decreases self.edges.len() - i,
        {
            let edge = &self.edges[i];
            assert(self@.edges[i as int] == *edge);
            if !self.has_node(edge.source) || !self.has_node(edge.target) {
                return false;
            }
            i = i + 1;
        }
        true
    }

    /// Checks the flow's shape and names the first defect: duplicate node
    /// identifiers, then a missing entry node or several of them, then a
    /// missing terminal node, then an edge without one of its nodes.
    pub fn validate(&self) -> (r: Result<(), XFlowError>)
        ensures
            match r {
                Ok(()) => self@.valid() && self@.defect() is None,
                Err(e) => !self@.valid() && self@.defect() == Some(e),
            },
    {
        if !self.node_ids_unique() {
            return Err(XFlowError::DuplicateNodeIDs);
        }
        let entries = self.get_nodes_by(&XFlowNodeType::Flow, "start");
        if entries.len() == 0 {
            return Err(XFlowError::NoEntryNode);
        }
        if entries.len() > 1 {
            return Err(XFlowError::MultipleEntryNodes);
        }
        let terminals = self.get_nodes_by(&XFlowNodeType::Flow, "end");
        if terminals.len() == 0 {
            return Err(XFlowError::NoTerminalNode);
        }
        if !self.edges_resolve() {
            return Err(XFlowError::NodeNotFound);
        }
        Ok(())
    }
}

impl Default for XFlowDocument {
    /// A new xflow document that belongs to no project yet.
    fn default() -> (doc: Self)
        ensures
            doc.well_formed(),
            doc@.name == "New"@,
            doc@.version == 0,
            doc@.body == XFlow::initial(),
    {
        Document::unfiled("New")
    }
}

} // verus!
