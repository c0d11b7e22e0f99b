use rust_pilot::flatten::{
    flatten_steps, join_path, parent_dir, FlatStep, FlattenError, FlowEntry, FlowStore,
};
use rust_pilot::flow::{Step, TapOn};

fn tap(s: &str) -> Step {
    Step::TapOn { tapOn: TapOn::TapOnTextOrDescription(s.to_string()) }
}

fn assert_visible(s: &str) -> Step {
    Step::AssertVisible { assertVisible: s.to_string() }
}

fn run_flow(p: &str) -> Step {
    Step::RunFlow { runFlow: p.to_string() }
}

fn empty_store() -> FlowStore {
    FlowStore { entries: Vec::new() }
}

#[test]
fn test_join_and_parent() {
    assert_eq!(join_path("flows", "sub.yaml"), "flows/sub.yaml");
    assert_eq!(join_path("", "sub.yaml"), "sub.yaml");
    assert_eq!(parent_dir("flows/nested/sub.yaml"), "flows/nested");
    assert_eq!(parent_dir("sub.yaml"), "");
}

#[test]
fn test_flatten_without_subflows_is_identity() {
    let steps = vec![tap("Login"), assert_visible("Welcome"), Step::InputText {
        inputText: "hello".to_string(),
    }];
    let expected = vec![tap("Login"), assert_visible("Welcome"), Step::InputText {
        inputText: "hello".to_string(),
    }];
    let (flat, trace) =
        flatten_steps(steps, "flows", "idRoot0(flows)".to_string(), &empty_store()).unwrap();
    assert_eq!(flat.len(), 3);
    for (i, f) in flat.iter().enumerate() {
        assert_eq!(f.step, expected[i]);
        assert_eq!(f.depth, 0);
    }
    assert_eq!(trace.len(), 3);
    assert_eq!(trace[0].parent, "idRoot0(flows)");
}

#[test]
fn test_flatten_one_level_splices_subflow() {
    let steps = vec![tap("A"), run_flow("sub.yaml"), assert_visible("B")];
    let store = FlowStore {
        entries: vec![FlowEntry {
            path: "flows/sub.yaml".to_string(),
            steps: vec![Step::InputText { inputText: "hi".to_string() }, tap("C")],
        }],
    };
    let (flat, _) = flatten_steps(steps, "flows", "idRoot0(flows)".to_string(), &store).unwrap();
    let expected = vec![
        FlatStep { step: tap("A"), depth: 0 },
        FlatStep { step: Step::InputText { inputText: "hi".to_string() }, depth: 1 },
        FlatStep { step: tap("C"), depth: 1 },
        FlatStep { step: assert_visible("B"), depth: 0 },
    ];
    assert_eq!(flat, expected);
}

#[test]
fn test_flatten_missing_subflow_aborts() {
    let steps = vec![tap("A"), run_flow("missing.yaml")];
    let r = flatten_steps(steps, "flows", "idRoot0(flows)".to_string(), &empty_store());
    assert_eq!(r.unwrap_err(), FlattenError::MissingFlowFile("flows/missing.yaml".to_string()));
}

#[test]
fn test_flatten_detects_cycle() {
    let store = FlowStore {
        entries: vec![FlowEntry {
            path: "a.yaml".to_string(),
            steps: vec![run_flow("a.yaml")],
        }],
    };
    let steps = vec![run_flow("a.yaml")];
    let r = flatten_steps(steps, "", "idRoot0()".to_string(), &store);
    assert_eq!(r.unwrap_err(), FlattenError::CyclicFlowReference("a.yaml".to_string()));
}

#[test]
fn test_flatten_diamond_inclusion_is_allowed() {
    // The same sub-flow referenced twice in sequence is not a cycle.
    let store = FlowStore {
        entries: vec![FlowEntry { path: "s.yaml".to_string(), steps: vec![tap("X")] }],
    };
    let steps = vec![run_flow("s.yaml"), run_flow("s.yaml")];
    let (flat, _) = flatten_steps(steps, "", "idRoot0()".to_string(), &store).unwrap();
    assert_eq!(flat.len(), 2);
    assert_eq!(flat[0].step, tap("X"));
    assert_eq!(flat[0].depth, 1);
    assert_eq!(flat[1].step, tap("X"));
    assert_eq!(flat[1].depth, 1);
}

#[test]
fn test_flatten_nested_depth_tags() {
    let store = FlowStore {
        entries: vec![
            FlowEntry {
                path: "outer.yaml".to_string(),
                steps: vec![run_flow("inner.yaml"), tap("O")],
            },
            FlowEntry { path: "inner.yaml".to_string(), steps: vec![tap("I")] },
        ],
    };
    let steps = vec![run_flow("outer.yaml")];
    let (flat, _) = flatten_steps(steps, "", "idRoot0()".to_string(), &store).unwrap();
    assert_eq!(flat.len(), 2);
    assert_eq!(flat[0].step, tap("I"));
    assert_eq!(flat[0].depth, 2);
    assert_eq!(flat[1].step, tap("O"));
    assert_eq!(flat[1].depth, 1);
}

#[test]
fn test_flatten_trace_names_subflow_reference() {
    let store = FlowStore {
        entries: vec![FlowEntry { path: "s.yaml".to_string(), steps: vec![tap("X")] }],
    };
    let steps = vec![run_flow("s.yaml")];
    let (_, trace) = flatten_steps(steps, "", "idRoot0()".to_string(), &store).unwrap();
    // One edge for the reference itself, one for the step inside it.
    assert_eq!(trace.len(), 2);
    assert_eq!(trace[0].parent, "idRoot0()");
    assert!(trace[0].child.contains("idRunFlow"));
    assert!(trace[0].child.contains("s.yaml"));
    assert!(trace[1].parent.contains("idRunFlow"));
    assert!(trace[1].child.contains("TapOn"));
}
