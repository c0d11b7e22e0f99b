use rust_pilot::actions::{
    on_action_event, resolve_android_steps, resolve_ios_steps, start_actions, ElementAction,
    ResolvedStep,
};
use rust_pilot::android::{
    android_transform_into_actions, assert_visible_steps_from_texts, AndroidAction,
    AndroidFlowEntry, AndroidFlowStore, AndroidNormalStep, AndroidStep,
};
use rust_pilot::executor::{BackendCommand, BackendEvent, EngineCmd, ExecError};
use rust_pilot::flatten::FlattenError;
use rust_pilot::gesture::Viewport;
use rust_pilot::ios::{
    ios_transform_into_actions, IosAction, IosFlowEntry, IosFlowStore, IosNormalStep, IosStep,
};
use rust_pilot::selector::{AndroidElementSelector, BackendQuery, IosElementSelector};

fn viewport() -> Viewport {
    Viewport { width: 1000, height: 2000 }
}

fn text_element(text: &str, actions: Vec<AndroidAction>) -> AndroidNormalStep {
    AndroidNormalStep::AndroidElementStep {
        selector: AndroidElementSelector::Text { text: text.to_string() },
        actions,
    }
}

#[test]
fn test_android_transform_inlines_step_files() {
    let steps = vec![
        AndroidStep::AndroidNormalStep(AndroidNormalStep::LogStep { log: "start".to_string() }),
        AndroidStep::AndroidStepFile { step_file: "common.yaml".to_string() },
    ];
    let store = AndroidFlowStore {
        entries: vec![AndroidFlowEntry {
            path: "common.yaml".to_string(),
            steps: vec![AndroidStep::AndroidNormalStep(AndroidNormalStep::Pause { pause: 5 })],
        }],
    };
    let flat = android_transform_into_actions(&steps, &store).unwrap();
    assert_eq!(flat, vec![
        AndroidNormalStep::LogStep { log: "start".to_string() },
        AndroidNormalStep::Pause { pause: 5 },
    ]);
}

#[test]
fn test_android_transform_missing_file() {
    let steps = vec![AndroidStep::AndroidStepFile { step_file: "absent.yaml".to_string() }];
    let store = AndroidFlowStore { entries: vec![] };
    assert_eq!(
        android_transform_into_actions(&steps, &store).unwrap_err(),
        FlattenError::MissingFlowFile("absent.yaml".to_string())
    );
}

#[test]
fn test_android_transform_detects_cycle() {
    let steps = vec![AndroidStep::AndroidStepFile { step_file: "a.yaml".to_string() }];
    let store = AndroidFlowStore {
        entries: vec![AndroidFlowEntry {
            path: "a.yaml".to_string(),
            steps: vec![AndroidStep::AndroidStepFile { step_file: "a.yaml".to_string() }],
        }],
    };
    assert_eq!(
        android_transform_into_actions(&steps, &store).unwrap_err(),
        FlattenError::CyclicFlowReference("a.yaml".to_string())
    );
}

#[test]
fn test_ios_transform_inlines_step_files() {
    let steps = vec![
        IosStep::IosStepFile { step_file: "shared.yaml".to_string() },
        IosStep::IosNormalStep(IosNormalStep::LogStep { log: "end".to_string() }),
    ];
    let store = IosFlowStore {
        entries: vec![IosFlowEntry {
            path: "shared.yaml".to_string(),
            steps: vec![IosStep::IosNormalStep(IosNormalStep::IosElementStep {
                selector: IosElementSelector::ClassName("XCUIElementTypeButton".to_string()),
                actions: vec![IosAction::TapOn],
            })],
        }],
    };
    let flat = ios_transform_into_actions(&steps, &store).unwrap();
    assert_eq!(flat.len(), 2);
    assert_eq!(flat[1], IosNormalStep::LogStep { log: "end".to_string() });
}

#[test]
fn test_resolve_android_steps_builds_queries() {
    let steps = vec![text_element("Row", vec![AndroidAction::TapOn])];
    let resolved = resolve_android_steps(&steps);
    match &resolved[0] {
        ResolvedStep::Element { query, actions } => {
            assert_eq!(
                *query,
                BackendQuery::UiAutomator("new UiSelector().textMatches(\"Row\");".to_string())
            );
            assert_eq!(*actions, vec![ElementAction::TapOn]);
        },
        other => panic!("wrong resolution: {:?}", other),
    }
}

#[test]
fn test_resolve_ios_steps_builds_queries() {
    let steps = vec![IosNormalStep::IosElementStep {
        selector: IosElementSelector::Xpath("//Button".to_string()),
        actions: vec![IosAction::InsertData { data: "x".to_string() }],
    }];
    let resolved = resolve_ios_steps(&steps);
    match &resolved[0] {
        ResolvedStep::Element { query, actions } => {
            assert_eq!(*query, BackendQuery::Xpath("//Button".to_string()));
            assert_eq!(*actions, vec![ElementAction::InsertData { data: "x".to_string() }]);
        },
        other => panic!("wrong resolution: {:?}", other),
    }
}

#[test]
fn test_scroll_until_visible_polls_and_counts() {
    let steps = vec![ResolvedStep::Element {
        query: BackendQuery::UiAutomator("q".to_string()),
        actions: vec![ElementAction::ScrollUntilVisible],
    }];
    let (mut ctx, cmd) = start_actions(steps, viewport());
    match cmd {
        EngineCmd::Perform(BackendCommand::FindElement { timeout_millis, .. }) => {
            assert_eq!(timeout_millis, 0);
        },
        other => panic!("expected an immediate find, got {:?}", other),
    }
    // Not found: one upward swipe at the horizontal centre, 80 to 20 percent.
    let cmd = on_action_event(&mut ctx, BackendEvent::NotFound);
    match cmd {
        EngineCmd::Perform(BackendCommand::PerformSwipe { pixels, move_millis }) => {
            assert_eq!(pixels.from_x, 500);
            assert_eq!(pixels.to_x, 500);
            assert_eq!(pixels.from_y, 1600);
            assert_eq!(pixels.to_y, 400);
            assert_eq!(move_millis, 250);
        },
        other => panic!("expected a scroll swipe, got {:?}", other),
    }
    let cmd = on_action_event(&mut ctx, BackendEvent::ActionOk);
    assert!(matches!(cmd, EngineCmd::Perform(BackendCommand::FindElement { .. })));
    let cmd = on_action_event(&mut ctx, BackendEvent::Found { displayed: true });
    match cmd {
        EngineCmd::Done(outcome) => {
            assert_eq!(outcome.steps_count, 1);
            assert_eq!(outcome.error, None);
        },
        other => panic!("expected the run to finish, got {:?}", other),
    }
}

#[test]
fn test_scroll_deadline_is_fatal() {
    let steps = vec![ResolvedStep::Element {
        query: BackendQuery::UiAutomator("q".to_string()),
        actions: vec![ElementAction::ScrollUntilVisible],
    }];
    let (mut ctx, _) = start_actions(steps, viewport());
    let cmd = on_action_event(&mut ctx, BackendEvent::DeadlineExceeded);
    match cmd {
        EngineCmd::Done(outcome) => {
            assert_eq!(outcome.error, Some(ExecError::ElementNotFound));
        },
        other => panic!("expected the run to abort, got {:?}", other),
    }
}

#[test]
fn test_insert_is_not_counted() {
    let steps = vec![ResolvedStep::Element {
        query: BackendQuery::UiAutomator("q".to_string()),
        actions: vec![
            ElementAction::InsertData { data: "hi".to_string() },
            ElementAction::TapOn,
        ],
    }];
    let (mut ctx, cmd) = start_actions(steps, viewport());
    assert!(matches!(cmd, EngineCmd::Perform(BackendCommand::FindElement { .. })));
    let cmd = on_action_event(&mut ctx, BackendEvent::Found { displayed: true });
    match cmd {
        EngineCmd::Perform(BackendCommand::SendKeysToFound { text }) => assert_eq!(text, "hi"),
        other => panic!("expected keys to be sent, got {:?}", other),
    }
    let cmd = on_action_event(&mut ctx, BackendEvent::ActionOk);
    assert!(matches!(cmd, EngineCmd::Perform(BackendCommand::FindElement { .. })));
    let cmd = on_action_event(&mut ctx, BackendEvent::Found { displayed: true });
    assert_eq!(cmd, EngineCmd::Perform(BackendCommand::ClickFound));
    let cmd = on_action_event(&mut ctx, BackendEvent::ActionOk);
    match cmd {
        EngineCmd::Done(outcome) => {
            // Only the tap counts; the insert does not.
            assert_eq!(outcome.steps_count, 1);
            assert_eq!(outcome.error, None);
        },
        other => panic!("expected the run to finish, got {:?}", other),
    }
}

#[test]
fn test_assert_visible_action_requires_displayed() {
    let steps = vec![ResolvedStep::Element {
        query: BackendQuery::UiAutomator("q".to_string()),
        actions: vec![ElementAction::AssertVisible],
    }];
    let (mut ctx, _) = start_actions(steps, viewport());
    let cmd = on_action_event(&mut ctx, BackendEvent::Found { displayed: false });
    match cmd {
        EngineCmd::Done(outcome) => {
            assert_eq!(outcome.error, Some(ExecError::AssertionFailed));
        },
        other => panic!("expected the run to abort, got {:?}", other),
    }
}

#[test]
fn test_log_and_pause_steps_flow_through() {
    let steps = vec![
        ResolvedStep::Log { message: "checkpoint".to_string() },
        ResolvedStep::Pause { millis: 250 },
    ];
    let (mut ctx, cmd) = start_actions(steps, viewport());
    match cmd {
        EngineCmd::Log(line) => assert_eq!(line, "[LOG] checkpoint"),
        other => panic!("expected a log line, got {:?}", other),
    }
    let cmd = on_action_event(&mut ctx, BackendEvent::ActionOk);
    assert_eq!(cmd, EngineCmd::Perform(BackendCommand::Pause { millis: 250 }));
    let cmd = on_action_event(&mut ctx, BackendEvent::ActionOk);
    match cmd {
        EngineCmd::Done(outcome) => {
            assert_eq!(outcome.steps_count, 0);
            assert_eq!(outcome.error, None);
        },
        other => panic!("expected the run to finish, got {:?}", other),
    }
}

#[test]
fn test_scan_results_become_assert_steps() {
    let steps = assert_visible_steps_from_texts(vec!["Home".to_string(), "Cart".to_string()]);
    assert_eq!(steps.len(), 2);
    match &steps[0] {
        AndroidStep::AndroidNormalStep(AndroidNormalStep::AndroidElementStep {
            selector,
            actions,
        }) => {
            assert_eq!(*selector, AndroidElementSelector::Text { text: "Home".to_string() });
            assert_eq!(*actions, vec![AndroidAction::AssertVisible]);
        },
        other => panic!("wrong step: {:?}", other),
    }
}
