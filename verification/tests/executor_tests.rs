use rust_pilot::executor::{
    on_event, start_run, BackendCommand, BackendEvent, EngineCmd, ExecError, ExecutionContext,
    get_current_indent_level, set_current_indent_level, Phase,
};
use rust_pilot::flatten::FlatStep;
use rust_pilot::flow::{ScreenPercentages, Step, SwipeOptions, TapOn, TapOnOption};
use rust_pilot::gesture::Viewport;

fn viewport() -> Viewport {
    Viewport { width: 1080, height: 1920 }
}

fn flat(step: Step, depth: usize) -> FlatStep {
    FlatStep { step, depth }
}

fn tap(s: &str) -> Step {
    Step::TapOn { tapOn: TapOn::TapOnTextOrDescription(s.to_string()) }
}

fn find_query_text(cmd: &EngineCmd) -> (String, u64) {
    match cmd {
        EngineCmd::Perform(BackendCommand::FindElement { query, timeout_millis }) => {
            let expr = match query {
                rust_pilot::selector::BackendQuery::AccessibilityId(s) => s.clone(),
                rust_pilot::selector::BackendQuery::Xpath(s) => s.clone(),
                rust_pilot::selector::BackendQuery::UiAutomator(s) => s.clone(),
                rust_pilot::selector::BackendQuery::ClassName(s) => s.clone(),
            };
            (expr, *timeout_millis)
        },
        other => panic!("expected a find command, got {:?}", other),
    }
}

#[test]
fn test_run_login_welcome_succeeds_with_two_rows() {
    // A root flow [TapOn("Login"), AssertVisible("Welcome")] against a
    // backend that finds "Login" by text and reports "Welcome" displayed.
    let steps = vec![
        flat(tap("Login"), 0),
        flat(Step::AssertVisible { assertVisible: "Welcome".to_string() }, 0),
    ];
    let (mut ctx, cmd) = start_run(steps, viewport());
    let (q, t) = find_query_text(&cmd);
    assert!(q.contains("textMatches(\"Login\")"));
    assert_eq!(t, 1000);

    let cmd = on_event(&mut ctx, BackendEvent::Found { displayed: true });
    assert_eq!(cmd, EngineCmd::Perform(BackendCommand::ClickFound));

    let cmd = on_event(&mut ctx, BackendEvent::ActionOk);
    let (q, t) = find_query_text(&cmd);
    assert!(q.contains("textMatches(\"Welcome\")"));
    assert_eq!(t, 30000);

    let cmd = on_event(&mut ctx, BackendEvent::Found { displayed: true });
    match cmd {
        EngineCmd::Done(outcome) => {
            assert_eq!(outcome.steps_count, 2);
            assert_eq!(outcome.error, None);
        },
        other => panic!("expected the run to finish, got {:?}", other),
    }
    assert_eq!(ctx.rows.len(), 2);
    assert_eq!(ctx.rows[0].description, "Tapped on text: Login");
    assert!(ctx.rows[0].passed);
    assert_eq!(ctx.rows[1].description, "Element Welcome visible");
}

#[test]
fn test_tap_falls_back_to_description() {
    // No element has text "Submit" but one has description "Submit": the
    // tap succeeds through the fallback, and the row says which path won.
    let steps = vec![flat(tap("Submit"), 0)];
    let (mut ctx, cmd) = start_run(steps, viewport());
    let (q, t) = find_query_text(&cmd);
    assert!(q.contains("textMatches(\"Submit\")"));
    assert_eq!(t, 1000);

    let cmd = on_event(&mut ctx, BackendEvent::NotFound);
    let (q, t) = find_query_text(&cmd);
    assert!(q.contains("descriptionMatches(\"Submit\")"));
    assert_eq!(t, 30000);

    let cmd = on_event(&mut ctx, BackendEvent::Found { displayed: true });
    assert_eq!(cmd, EngineCmd::Perform(BackendCommand::ClickFound));

    let cmd = on_event(&mut ctx, BackendEvent::ActionOk);
    match cmd {
        EngineCmd::Done(outcome) => {
            assert_eq!(outcome.steps_count, 1);
            assert_eq!(outcome.error, None);
        },
        other => panic!("expected the run to finish, got {:?}", other),
    }
    assert_eq!(ctx.rows.len(), 1);
    assert_eq!(ctx.rows[0].description, "Tapped on description: Submit");
}

#[test]
fn test_tap_fails_after_both_paths() {
    let steps = vec![flat(tap("Ghost"), 0)];
    let (mut ctx, _) = start_run(steps, viewport());
    let _ = on_event(&mut ctx, BackendEvent::NotFound);
    let cmd = on_event(&mut ctx, BackendEvent::NotFound);
    match cmd {
        EngineCmd::Perform(BackendCommand::TakeScreenshot { file_name }) => {
            assert_eq!(file_name, "error_screenshot.png");
        },
        other => panic!("expected an error screenshot, got {:?}", other),
    }
    let cmd = on_event(&mut ctx, BackendEvent::ActionOk);
    match cmd {
        EngineCmd::Done(outcome) => {
            assert_eq!(outcome.steps_count, 0);
            assert_eq!(outcome.error, Some(ExecError::ElementNotFound));
        },
        other => panic!("expected the run to finish, got {:?}", other),
    }
}

#[test]
fn test_failed_click_is_fatal_backend_error() {
    let steps = vec![flat(tap("Login"), 0)];
    let (mut ctx, _) = start_run(steps, viewport());
    let _ = on_event(&mut ctx, BackendEvent::Found { displayed: true });
    let cmd = on_event(&mut ctx, BackendEvent::ActionFailed);
    assert!(matches!(cmd, EngineCmd::Perform(BackendCommand::TakeScreenshot { .. })));
    let cmd = on_event(&mut ctx, BackendEvent::ActionOk);
    match cmd {
        EngineCmd::Done(outcome) => {
            assert_eq!(outcome.error, Some(ExecError::BackendActionFailed));
            assert_eq!(outcome.steps_count, 0);
        },
        other => panic!("expected the run to finish, got {:?}", other),
    }
}

#[test]
fn test_launch_app_is_logged_and_skipped() {
    let steps = vec![flat(
        Step::LaunchApp { launchApp: rust_pilot::flow::LaunchApp { clearState: true } },
        0,
    )];
    let (mut ctx, cmd) = start_run(steps, viewport());
    match cmd {
        EngineCmd::Log(line) => assert_eq!(line, "Step LaunchApp not developed"),
        other => panic!("expected a log line, got {:?}", other),
    }
    let cmd = on_event(&mut ctx, BackendEvent::ActionOk);
    match cmd {
        EngineCmd::Done(outcome) => {
            assert_eq!(outcome.steps_count, 0);
            assert_eq!(outcome.error, None);
        },
        other => panic!("expected the run to finish, got {:?}", other),
    }
}

#[test]
fn test_assert_not_visible_absent_succeeds() {
    let steps = vec![flat(Step::AssertNotVisible { assertNotVisible: "X".to_string() }, 0)];
    let (mut ctx, cmd) = start_run(steps, viewport());
    let (_, t) = find_query_text(&cmd);
    assert_eq!(t, 1000);
    let cmd = on_event(&mut ctx, BackendEvent::NotFound);
    match cmd {
        EngineCmd::Done(outcome) => {
            assert_eq!(outcome.steps_count, 1);
            assert_eq!(outcome.error, None);
        },
        other => panic!("expected the run to finish, got {:?}", other),
    }
    assert_eq!(ctx.rows[0].description, "Element X not visible");
}

#[test]
fn test_assert_not_visible_present_but_hidden_succeeds() {
    let steps = vec![flat(Step::AssertNotVisible { assertNotVisible: "X".to_string() }, 0)];
    let (mut ctx, _) = start_run(steps, viewport());
    let cmd = on_event(&mut ctx, BackendEvent::Found { displayed: false });
    match cmd {
        EngineCmd::Done(outcome) => {
            assert_eq!(outcome.steps_count, 1);
            assert_eq!(outcome.error, None);
        },
        other => panic!("expected the run to finish, got {:?}", other),
    }
}

#[test]
fn test_assert_not_visible_displayed_is_fatal() {
    let steps = vec![flat(Step::AssertNotVisible { assertNotVisible: "X".to_string() }, 0)];
    let (mut ctx, _) = start_run(steps, viewport());
    let cmd = on_event(&mut ctx, BackendEvent::Found { displayed: true });
    assert!(matches!(cmd, EngineCmd::Perform(BackendCommand::TakeScreenshot { .. })));
    let cmd = on_event(&mut ctx, BackendEvent::ActionOk);
    match cmd {
        EngineCmd::Done(outcome) => {
            assert_eq!(outcome.error, Some(ExecError::AssertionFailed));
            assert_eq!(outcome.steps_count, 0);
        },
        other => panic!("expected the run to finish, got {:?}", other),
    }
    assert_eq!(ctx.rows.len(), 0);
}

#[test]
fn test_assert_visible_hidden_is_fatal() {
    let steps = vec![flat(Step::AssertVisible { assertVisible: "X".to_string() }, 0)];
    let (mut ctx, _) = start_run(steps, viewport());
    let cmd = on_event(&mut ctx, BackendEvent::Found { displayed: false });
    assert!(matches!(cmd, EngineCmd::Perform(BackendCommand::TakeScreenshot { .. })));
    let cmd = on_event(&mut ctx, BackendEvent::ActionFailed);
    match cmd {
        EngineCmd::Done(outcome) => {
            assert_eq!(outcome.error, Some(ExecError::AssertionFailed));
        },
        other => panic!("expected the run to finish, got {:?}", other),
    }
}

#[test]
fn test_swipe_out_of_range_rejected_before_backend() {
    // {x: -1, y: 50} is rejected before any backend call.
    let steps = vec![flat(
        Step::Swipe {
            swipe: SwipeOptions {
                start: ScreenPercentages("-1, 50".to_string()),
                end: ScreenPercentages("50, 50".to_string()),
            },
        },
        0,
    )];
    let (_, cmd) = start_run(steps, viewport());
    match cmd {
        EngineCmd::Done(outcome) => {
            assert_eq!(outcome.error, Some(ExecError::InvalidGestureInput));
            assert_eq!(outcome.steps_count, 0);
        },
        other => panic!("expected immediate rejection, got {:?}", other),
    }
}

#[test]
fn test_swipe_above_hundred_rejected_before_backend() {
    let steps = vec![flat(
        Step::Swipe {
            swipe: SwipeOptions {
                start: ScreenPercentages("150, 50".to_string()),
                end: ScreenPercentages("50, 50".to_string()),
            },
        },
        0,
    )];
    let (_, cmd) = start_run(steps, viewport());
    match cmd {
        EngineCmd::Done(outcome) => {
            assert_eq!(outcome.error, Some(ExecError::InvalidGestureInput));
        },
        other => panic!("expected immediate rejection, got {:?}", other),
    }
}

#[test]
fn test_swipe_corners_map_to_viewport_corners() {
    // {x: 0, y: 0} and {x: 100, y: 100} map to the viewport's corner pixels.
    let steps = vec![flat(
        Step::Swipe {
            swipe: SwipeOptions {
                start: ScreenPercentages("0, 0".to_string()),
                end: ScreenPercentages("100, 100".to_string()),
            },
        },
        0,
    )];
    let (mut ctx, cmd) = start_run(steps, viewport());
    match cmd {
        EngineCmd::Perform(BackendCommand::PerformSwipe { pixels, move_millis }) => {
            assert_eq!(pixels.from_x, 0);
            assert_eq!(pixels.from_y, 0);
            assert_eq!(pixels.to_x, 1080);
            assert_eq!(pixels.to_y, 1920);
            assert_eq!(move_millis, 500);
        },
        other => panic!("expected a swipe, got {:?}", other),
    }
    let cmd = on_event(&mut ctx, BackendEvent::ActionOk);
    match cmd {
        EngineCmd::Done(outcome) => {
            assert_eq!(outcome.steps_count, 1);
            assert_eq!(outcome.error, None);
        },
        other => panic!("expected the run to finish, got {:?}", other),
    }
}

#[test]
fn test_tap_option_uses_id_before_text() {
    let option = TapOnOption {
        id: Some("app:id/go".to_string()),
        text: Some("Go".to_string()),
        optional: None,
        index: None,
        instance: None,
        className: None,
        description: None,
        hint: None,
    };
    let steps = vec![flat(Step::TapOn { tapOn: TapOn::TapOnOption(option) }, 0)];
    let (_, cmd) = start_run(steps, viewport());
    let (q, t) = find_query_text(&cmd);
    assert!(q.contains("resourceIdMatches(\"app:id/go\")"));
    assert_eq!(t, 30000);
}

#[test]
fn test_tap_option_without_target_is_fatal() {
    let option = TapOnOption {
        id: None,
        text: None,
        optional: None,
        index: None,
        instance: None,
        className: None,
        description: None,
        hint: None,
    };
    let steps = vec![flat(Step::TapOn { tapOn: TapOn::TapOnOption(option) }, 0)];
    let (_, cmd) = start_run(steps, viewport());
    match cmd {
        EngineCmd::Done(outcome) => {
            assert_eq!(outcome.error, Some(ExecError::UnsupportedTapTarget));
        },
        other => panic!("expected the run to abort, got {:?}", other),
    }
}

#[test]
fn test_run_script_is_logged_and_skipped() {
    let steps = vec![
        flat(Step::RunScript { runScript: "setup.js".to_string() }, 0),
        flat(Step::InputText { inputText: "hello".to_string() }, 0),
    ];
    let (mut ctx, cmd) = start_run(steps, viewport());
    match cmd {
        EngineCmd::Log(line) => assert_eq!(line, "Ran script: setup.js"),
        other => panic!("expected a log line, got {:?}", other),
    }
    let cmd = on_event(&mut ctx, BackendEvent::ActionOk);
    match cmd {
        EngineCmd::Perform(BackendCommand::TypeText { text }) => assert_eq!(text, "hello"),
        other => panic!("expected typing, got {:?}", other),
    }
    let cmd = on_event(&mut ctx, BackendEvent::ActionOk);
    match cmd {
        EngineCmd::Done(outcome) => {
            // The skipped script does not count; the typed text does.
            assert_eq!(outcome.steps_count, 1);
            assert_eq!(outcome.error, None);
        },
        other => panic!("expected the run to finish, got {:?}", other),
    }
    assert_eq!(ctx.rows.len(), 1);
    assert_eq!(ctx.rows[0].description, "Inserted hello");
}

#[test]
fn test_executor_tracks_step_depth_for_logging() {
    let steps = vec![flat(tap("A"), 2)];
    let (ctx, _) = start_run(steps, viewport());
    assert_eq!(ctx.indent_level, 2);
}

#[test]
fn test_indent_level() {
    let mut ctx = ExecutionContext {
        steps: vec![],
        viewport: viewport(),
        pos: 0,
        phase: Phase::Finished,
        steps_count: 0,
        rows: vec![],
        indent_level: 0,
    };
    set_current_indent_level(&mut ctx, 3);

    assert_eq!(get_current_indent_level(&ctx), 3);

    set_current_indent_level(&mut ctx, 5);

    assert_eq!(get_current_indent_level(&ctx), 5);

    set_current_indent_level(&mut ctx, 0);
}
