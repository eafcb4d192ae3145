use gearsx::structure::data::{Position, VType, VTypeBoolean, VariableDefinition};
use gearsx::structure::xflow::{
    CallParameters, FlowParameters, FloxParameters, XFlow, XFlowBranch, XFlowEdge, XFlowError,
    XFlowNode, XFlowNodeParameters, XFlowNodeType, XFlowRequirement,
};

fn node(id: i32, nodetype: XFlowNodeType, action: &str) -> XFlowNode {
    let parameters = match nodetype {
        XFlowNodeType::Flow => XFlowNodeParameters::Flow(FlowParameters {}),
        XFlowNodeType::Flox => XFlowNodeParameters::Flox(FloxParameters {
            expression: "1 + 1".to_string(),
            returns: guard(9, "sum"),
        }),
        XFlowNodeType::Call => XFlowNodeParameters::Call(CallParameters {}),
    };
    XFlowNode {
        id,
        nodetype,
        position: Position { x: 10 * id, y: 0 },
        action: action.to_string(),
        label: action.to_string(),
        parameters,
    }
}

fn guard(id: i32, name: &str) -> VariableDefinition {
    VariableDefinition {
        id,
        name: name.to_string(),
        vtype: VType::VTypeBoolean(VTypeBoolean { default: Some(true) }),
    }
}

fn branch(source: i32, target: i32, id: i32) -> XFlowBranch {
    XFlowBranch { edge: XFlowEdge { source, target }, xvar: guard(id, "go") }
}

/// start(1) -> flox(3) -> end(2), and flox(3) -> end(4) under a guard.
fn forked() -> XFlow {
    let mut flow = XFlow::default();
    flow.nodes.push(node(3, XFlowNodeType::Flox, "evalexpr"));
    flow.nodes.push(node(4, XFlowNodeType::Flow, "end"));
    flow.nodes.push(node(5, XFlowNodeType::Call, "start"));
    flow.edges = vec![
        XFlowEdge { source: 1, target: 3 },
        XFlowEdge { source: 3, target: 2 },
        XFlowEdge { source: 3, target: 4 },
    ];
    flow.branches = vec![branch(3, 2, 7), branch(3, 4, 8), branch(1, 3, 9), branch(3, 4, 10)];
    flow
}

#[test]
fn the_default_flow_is_the_canonical_one() {
    let flow = XFlow::default();
    assert_eq!(flow.requirements, vec![XFlowRequirement { xtype: XFlowNodeType::Flow, version: 1 }]);
    assert!(flow.variables.input.is_empty());
    assert!(flow.variables.local.is_empty());
    assert!(flow.variables.output.is_empty());
    assert_eq!(flow.nodes.len(), 2);
    assert_eq!(flow.nodes[0].id, 1);
    assert_eq!(flow.nodes[0].action, "start");
    assert_eq!(flow.nodes[0].label, "Start");
    assert_eq!(flow.nodes[0].position, Position { x: 0, y: 0 });
    assert_eq!(flow.nodes[1].id, 2);
    assert_eq!(flow.nodes[1].action, "end");
    assert_eq!(flow.nodes[1].label, "End");
    assert_eq!(flow.nodes[1].position, Position { x: 200, y: 0 });
    assert_eq!(flow.edges, vec![XFlowEdge { source: 1, target: 2 }]);
    assert!(flow.branches.is_empty());
}

#[test]
fn the_default_flow_is_valid() {
    let flow = XFlow::default();
    let entry = flow.get_entry_node().unwrap();
    assert_eq!(entry.id, 1);
    let terminals = flow.get_terminal_nodes().unwrap();
    assert_eq!(terminals.len(), 1);
    assert_eq!(terminals[0].id, 2);
    assert_eq!(flow.edges.len(), 1);
    assert_eq!(flow.get_out_edges(entry), vec![&XFlowEdge { source: 1, target: 2 }]);
    assert_eq!(flow.get_in_edges(terminals[0]), vec![&XFlowEdge { source: 1, target: 2 }]);
    assert_eq!(flow.validate(), Ok(()));
    assert_eq!(flow.get_nodes_by(&XFlowNodeType::Flow, "start").len(), 1);
    assert_eq!(flow.get_nodes_of_type(&XFlowNodeType::Flow).len(), 2);
}

#[test]
fn nodes_are_found_by_kind_and_action() {
    let flow = forked();
    let ids = |nodes: Vec<&XFlowNode>| nodes.iter().map(|n| n.id).collect::<Vec<i32>>();
    assert_eq!(ids(flow.get_nodes_by(&XFlowNodeType::Flow, "end")), vec![2, 4]);
    assert_eq!(ids(flow.get_nodes_by(&XFlowNodeType::Flow, "start")), vec![1]);
    assert_eq!(ids(flow.get_nodes_by(&XFlowNodeType::Call, "start")), vec![5]);
    assert_eq!(ids(flow.get_nodes_by(&XFlowNodeType::Flox, "start")), Vec::<i32>::new());
    assert_eq!(ids(flow.get_nodes_of_type(&XFlowNodeType::Flow)), vec![1, 2, 4]);
    assert_eq!(ids(flow.get_nodes_of_type(&XFlowNodeType::Flox)), vec![3]);
    assert_eq!(ids(flow.get_nodes_of_type(&XFlowNodeType::Call)), vec![5]);
}

#[test]
fn edges_and_branches_are_found_by_their_ends() {
    let flow = forked();
    let flox = flow.get_node_id(3).unwrap();
    assert_eq!(flow.get_in_edges(flox), vec![&XFlowEdge { source: 1, target: 3 }]);
    assert_eq!(
        flow.get_out_edges(flox),
        vec![&XFlowEdge { source: 3, target: 2 }, &XFlowEdge { source: 3, target: 4 }]
    );
    assert!(flow.get_out_edges(flow.get_node_id(4).unwrap()).is_empty());
    let on_edge = flow.get_branches_for(&XFlowEdge { source: 3, target: 4 });
    assert_eq!(on_edge.iter().map(|b| b.xvar.id).collect::<Vec<i32>>(), vec![8, 10]);
    assert!(flow.get_branches_for(&XFlowEdge { source: 4, target: 3 }).is_empty());
    let out = flow.get_out_branches(3);
    assert_eq!(out.iter().map(|b| b.xvar.id).collect::<Vec<i32>>(), vec![7, 8, 10]);
    assert_eq!(flow.get_out_branches(1).len(), 1);
    assert!(flow.get_out_branches(2).is_empty());
}

#[test]
fn a_node_is_found_by_id_unless_the_id_is_doubled() {
    let mut flow = forked();
    assert_eq!(flow.get_node_id(4).unwrap().action, "end");
    assert!(flow.get_node_id(6).is_none());
    assert!(flow.has_node(4));
    assert!(!flow.has_node(6));
    flow.nodes.push(node(4, XFlowNodeType::Call, "again"));
    assert!(flow.get_node_id(4).is_none());
    assert!(flow.has_node(4));
}

#[test]
fn entry_and_terminal_nodes_are_checked() {
    let mut flow = XFlow::default();
    flow.nodes.remove(0);
    assert_eq!(flow.get_entry_node(), Err(XFlowError::NoEntryNode));
    assert_eq!(flow.get_terminal_nodes().unwrap().len(), 1);
    flow.nodes.push(node(7, XFlowNodeType::Flow, "start"));
    flow.nodes.push(node(8, XFlowNodeType::Flow, "start"));
    assert_eq!(flow.get_entry_node(), Err(XFlowError::MultipleEntryNodes));
    flow.nodes.remove(0);
    assert_eq!(flow.get_terminal_nodes(), Err(XFlowError::NoTerminalNode));
    // A node of another kind with the action "start" is no entry node.
    let mut flow = XFlow::default();
    flow.nodes[0].nodetype = XFlowNodeType::Call;
    assert_eq!(flow.get_entry_node(), Err(XFlowError::NoEntryNode));
}

#[test]
fn validate_names_the_first_defect() {
    assert_eq!(forked().validate(), Ok(()));

    let mut flow = forked();
    flow.nodes.push(node(3, XFlowNodeType::Flow, "start"));
    assert_eq!(flow.validate(), Err(XFlowError::DuplicateNodeIDs));

    let mut flow = forked();
    flow.nodes.remove(0);
    assert_eq!(flow.validate(), Err(XFlowError::NoEntryNode));

    let mut flow = forked();
    flow.nodes.push(node(6, XFlowNodeType::Flow, "start"));
    assert_eq!(flow.validate(), Err(XFlowError::MultipleEntryNodes));

    let mut flow = XFlow::default();
    flow.nodes[1].action = "stop".to_string();
    assert_eq!(flow.validate(), Err(XFlowError::NoTerminalNode));

    let mut flow = forked();
    flow.edges.push(XFlowEdge { source: 2, target: 99 });
    assert_eq!(flow.validate(), Err(XFlowError::NodeNotFound));
    let mut flow = forked();
    flow.edges.push(XFlowEdge { source: 99, target: 2 });
    assert_eq!(flow.validate(), Err(XFlowError::NodeNotFound));
}
