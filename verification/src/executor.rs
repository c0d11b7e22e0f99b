//! The step executor: a state machine that dispatches flattened instructions.
//!
//! The executor never talks to the device itself.  It hands its caller one
//! command at a time — find an element, click what was found, type text,
//! perform a swipe, take a screenshot, or write a log line — and consumes one
//! event describing how the backend answered.  Execution is strictly
//! sequential: no command is issued until the previous step's outcome is
//! known.
//!
//! Per step kind:
//! - a tap on a bare string first looks the string up as visible text with a
//!   short wait and, if that fails, falls back to looking it up as a content
//!   description with the full default wait; only then is the failure fatal;
//! - a tap on a structured target resolves one selector by field precedence
//!   and taps it, with no fallback;
//! - an assert-visible waits the default timeout and requires the element to
//!   be found and displayed;
//! - an assert-not-visible waits only a short timeout; absence, or presence
//!   without being displayed, is success, and a displayed element is fatal;
//! - input text is typed into the currently focused field;
//! - a swipe validates its percentages before any backend call and maps them
//!   to viewport pixels;
//! - a run-script step, a launch-app step, and a stray sub-flow reference
//!   are not executed: they are logged and skipped, appending no report row
//!   and not counting as executed steps.
//!
//! Any fatal failure first captures an error screenshot (except failures
//! found before any backend call: an unresolvable tap target or malformed
//! swipe percentages) and then ends the run; the report rows gathered so far
//! are preserved.

use vstd::prelude::*;

use crate::flatten::FlatStep;
use crate::flow::{Step, TapOn};
use crate::gesture::{
    spec_swipe_pair, spec_swipe_pair_valid, spec_swipe_pixels, swipe_pixels, wf_viewport,
    SwipePixels, Viewport,
};
use crate::selector::{
    get_android_element_by, selector_for_tap_option, spec_android_query, spec_tap_option_selector,
    AndroidElementSelector, BackendQuery, QueryView,
};

verus! {

/// The full default wait for an element, in milliseconds.
pub const DEFAULT_WAIT_MILLIS: u64 = 30000;

/// The short bounded wait, used for the tap-by-text attempt and for
/// assert-not-visible, in milliseconds.
pub const SHORT_WAIT_MILLIS: u64 = 1000;

/// How long the pointer movement of a swipe takes, in milliseconds.
pub const SWIPE_MOVE_MILLIS: u64 = 500;

/// One operation the caller must perform against the backend.
#[derive(Debug, PartialEq)]
pub enum BackendCommand {
    /// Wait up to the timeout for an element matching the query; answer with
    /// `Found` (and whether it is displayed) or `NotFound`.
    FindElement { query: BackendQuery, timeout_millis: u64 },
    /// Click the element of the latest successful find; answer with
    /// `ActionOk` or `ActionFailed`.
    ClickFound,
    /// Type text into the currently focused input; answer with `ActionOk` or
    /// `ActionFailed`.
    TypeText { text: String },
    /// Run the three-phase pointer gesture between the given pixel points;
    /// answer with `ActionOk` or `ActionFailed`.
    PerformSwipe { pixels: SwipePixels, move_millis: u64 },
    /// Save a screenshot under the given file name; answer with `ActionOk`
    /// or `ActionFailed`.
    TakeScreenshot { file_name: String },
    /// Send keys to the element of the latest successful find; answer with
    /// `ActionOk` or `ActionFailed`.
    SendKeysToFound { text: String },
    /// Sleep for the given time; answer with `ActionOk`.
    Pause { millis: u64 },
}

/// How the backend answered the latest command.
#[derive(Debug, Clone, Copy, PartialEq)]
pub enum BackendEvent {
    /// The element was found; `displayed` is its visibility flag.
    Found { displayed: bool },
    /// No element matched within the timeout.
    NotFound,
    /// The action was performed.
    ActionOk,
    /// The action failed.
    ActionFailed,
    /// The caller's overall time budget for a scroll-until-visible poll loop
    /// ran out; sent only while such a loop is polling.
    DeadlineExceeded,
}

/// Why a run failed.
#[derive(Debug, Clone, Copy, PartialEq, Eq)]
pub enum ExecError {
    /// An element a step needed could not be found.
    ElementNotFound,
    /// An element that had to be (in)visible was not.
    AssertionFailed,
    /// Swipe percentages were malformed or out of range.
    InvalidGestureInput,
    /// The backend failed to perform a click, type, swipe or screenshot.
    BackendActionFailed,
    /// A structured tap target resolved to no selector.
    UnsupportedTapTarget,
}

/// One report row.  Failures abort the run, so every recorded row describes
/// a step that passed; the observation column is left empty.
#[derive(Debug, PartialEq)]
pub struct ReportRow {
    pub description: String,
    pub passed: bool,
    pub observation: String,
}

/// The final outcome of a run: how many steps were executed, and the error
/// that ended the run early, if any.
#[derive(Debug, Clone, Copy, PartialEq)]
pub struct RunOutcome {
    pub steps_count: usize,
    pub error: Option<ExecError>,
}

/// Where the executor stands within the current step.
#[derive(Debug, Clone, Copy, PartialEq)]
pub enum Phase {
    /// Waiting for the by-text find of a bare-string tap.
    TapTextFinding,
    /// Waiting for the click after the by-text find succeeded.
    TapTextClicking,
    /// Waiting for the fallback by-description find.
    TapDescFinding,
    /// Waiting for the click after the fallback find succeeded.
    TapDescClicking,
    /// Waiting for the find of a structured tap target.
    TapOptionFinding,
    /// Waiting for the click of a structured tap target.
    TapOptionClicking,
    /// Waiting for the find of an assert-visible step.
    AssertVisibleFinding,
    /// Waiting for the find of an assert-not-visible step.
    AssertNotVisibleFinding,
    /// Waiting for the text to be typed.
    Typing,
    /// Waiting for the swipe gesture to finish.
    Swiping,
    /// Waiting for the log line of a skipped step to be written.
    Skipping,
    /// Waiting for the error screenshot; the run then ends with the error.
    FatalScreenshot(ExecError),
    /// The run is over; a `Done` command has been issued.
    Finished,
}

/// The per-run state: the flattened instructions, the viewport captured at
/// session start, the position and phase of the current step, the running
/// step counter, the report buffer, and the indentation depth for log lines.
#[derive(Debug)]
pub struct ExecutionContext {
    pub steps: Vec<FlatStep>,
    pub viewport: Viewport,
    pub pos: usize,
    pub phase: Phase,
    pub steps_count: usize,
    pub rows: Vec<ReportRow>,
    pub indent_level: usize,
}

/// What the executor asks of its caller: perform a backend command, write a
/// log line, or accept that the run is over.
#[derive(Debug, PartialEq)]
pub enum EngineCmd {
    Perform(BackendCommand),
    Log(String),
    Done(RunOutcome),
}

/// A step kind that is executed against the backend (all others are logged
/// and skipped).
pub open spec fn is_actionable(s: Step) -> bool {
    ||| s is TapOn
    ||| s is InputText
    ||| s is AssertVisible
    ||| s is AssertNotVisible
    ||| s is Swipe
}

/// The phase is consistent with the step it points at.
pub open spec fn phase_fits(c: ExecutionContext) -> bool {
    match c.phase {
        Phase::TapTextFinding | Phase::TapTextClicking | Phase::TapDescFinding
            | Phase::TapDescClicking => c.pos < c.steps@.len() && c.steps@[c.pos as int].step
            matches Step::TapOn { tapOn: TapOn::TapOnTextOrDescription(_) },
        Phase::TapOptionFinding | Phase::TapOptionClicking => {
            &&& c.pos < c.steps@.len()
            &&& c.steps@[c.pos as int].step matches Step::TapOn { tapOn: TapOn::TapOnOption(o) }
                && spec_tap_option_selector(o) is Some
        },
        Phase::AssertVisibleFinding => c.pos < c.steps@.len() && c.steps@[c.pos as int].step
            is AssertVisible,
        Phase::AssertNotVisibleFinding => c.pos < c.steps@.len() && c.steps@[c.pos as int].step
            is AssertNotVisible,
        Phase::Typing => c.pos < c.steps@.len() && c.steps@[c.pos as int].step is InputText,
        Phase::Swiping => {
            &&& c.pos < c.steps@.len()
            &&& c.steps@[c.pos as int].step matches Step::Swipe { swipe }
                && spec_swipe_pair_valid(swipe.start.0@) && spec_swipe_pair_valid(swipe.end.0@)
        },
        Phase::Skipping => c.pos < c.steps@.len() && !is_actionable(c.steps@[c.pos as int].step),
        Phase::FatalScreenshot(_) => true,
        Phase::Finished => true,
    }
}

/// The executor's state invariant.  Every counted step left exactly one
/// report row, so the counter and the report always agree.
pub open spec fn wf_context(c: ExecutionContext) -> bool {
    &&& c.pos <= c.steps@.len()
    &&& c.steps_count <= c.pos
    &&& c.steps_count == c.rows@.len()
    &&& wf_viewport(c.viewport)
    &&& phase_fits(c)
}

/// Which events the protocol allows in the given phase: finds are answered
/// with `Found` or `NotFound`, everything else with `ActionOk` or
/// `ActionFailed`; a finished run takes no further event.
pub open spec fn event_ok(p: Phase, ev: BackendEvent) -> bool {
    match p {
        Phase::TapTextFinding | Phase::TapDescFinding | Phase::TapOptionFinding
            | Phase::AssertVisibleFinding | Phase::AssertNotVisibleFinding => ev is Found
            || ev is NotFound,
        Phase::TapTextClicking | Phase::TapDescClicking | Phase::TapOptionClicking
            | Phase::Typing | Phase::Swiping | Phase::FatalScreenshot(_) => ev is ActionOk
            || ev is ActionFailed,
        Phase::Skipping => true,
        Phase::Finished => false,
    }
}

/// The report grew by exactly one passing row with this description.
pub open spec fn rows_extended(pre: ExecutionContext, post: ExecutionContext, desc: Seq<char>) -> bool {
    &&& post.rows@.len() == pre.rows@.len() + 1
    &&& post.rows@.subrange(0, pre.rows@.len() as int) == pre.rows@
    &&& post.rows@.last().description@ == desc
    &&& post.rows@.last().passed == true
    &&& post.rows@.last().observation@ == Seq::<char>::empty()
}

/// Nothing changed but the phase.
pub open spec fn same_but_phase(pre: ExecutionContext, post: ExecutionContext) -> bool {
    &&& post.steps@ == pre.steps@
    &&& post.viewport == pre.viewport
    &&& post.pos == pre.pos
    &&& post.steps_count == pre.steps_count
    &&& post.rows@ == pre.rows@
    &&& post.indent_level == pre.indent_level
}

/// The text query a bare string resolves to.
pub open spec fn spec_text_query(s: String) -> QueryView {
    spec_android_query(AndroidElementSelector::Text { text: s })
}

/// The description query a bare string falls back to.
pub open spec fn spec_desc_query(s: String) -> QueryView {
    spec_android_query(AndroidElementSelector::Description { description: s })
}

/// The expression text of a query.
pub open spec fn query_expr(q: QueryView) -> Seq<char> {
    match q {
        QueryView::AccessibilityId(s) => s,
        QueryView::Xpath(s) => s,
        QueryView::UiAutomator(s) => s,
        QueryView::ClassName(s) => s,
    }
}

/// What beginning the step at position `at` does to the context and which
/// command it issues.  The report rows and the step counter are not
/// constrained here; the transition relation pins them separately.
pub open spec fn spec_begin_ctl(
    pre: ExecutionContext,
    at: int,
    post: ExecutionContext,
    cmd: EngineCmd,
) -> bool {
    &&& post.steps@ == pre.steps@
    &&& post.viewport == pre.viewport
    &&& post.pos == at
    &&& if at >= pre.steps@.len() {
        &&& post.phase is Finished
        &&& post.indent_level == 0
        &&& cmd == EngineCmd::Done(RunOutcome { steps_count: post.steps_count, error: None })
    } else {
        &&& post.indent_level == pre.steps@[at].depth
        &&& match pre.steps@[at].step {
            Step::TapOn { tapOn: TapOn::TapOnTextOrDescription(s) } => {
                &&& post.phase is TapTextFinding
                &&& cmd matches EngineCmd::Perform(
                    BackendCommand::FindElement { query, timeout_millis },
                ) && query@ == spec_text_query(s) && timeout_millis == SHORT_WAIT_MILLIS
            },
            Step::TapOn { tapOn: TapOn::TapOnOption(o) } => match spec_tap_option_selector(o) {
                Some(sel) => {
                    &&& post.phase is TapOptionFinding
                    &&& cmd matches EngineCmd::Perform(
                        BackendCommand::FindElement { query, timeout_millis },
                    ) && query@ == spec_android_query(sel) && timeout_millis
                        == DEFAULT_WAIT_MILLIS
                },
                None => {
                    &&& post.phase is Finished
                    &&& cmd == EngineCmd::Done(
                        RunOutcome {
                            steps_count: post.steps_count,
                            error: Some(ExecError::UnsupportedTapTarget),
                        },
                    )
                },
            },
            Step::InputText { inputText } => {
                &&& post.phase is Typing
                &&& cmd matches EngineCmd::Perform(BackendCommand::TypeText { text })
                    && text@ == inputText@
            },
            Step::AssertVisible { assertVisible } => {
                &&& post.phase is AssertVisibleFinding
                &&& cmd matches EngineCmd::Perform(
                    BackendCommand::FindElement { query, timeout_millis },
                ) && query@ == spec_text_query(assertVisible) && timeout_millis
                    == DEFAULT_WAIT_MILLIS
            },
            Step::AssertNotVisible { assertNotVisible } => {
                &&& post.phase is AssertNotVisibleFinding
                &&& cmd matches EngineCmd::Perform(
                    BackendCommand::FindElement { query, timeout_millis },
                ) && query@ == spec_text_query(assertNotVisible) && timeout_millis
                    == SHORT_WAIT_MILLIS
            },
            Step::Swipe { swipe } => {
                if spec_swipe_pair_valid(swipe.start.0@) && spec_swipe_pair_valid(swipe.end.0@) {
                    &&& post.phase is Swiping
                    &&& cmd matches EngineCmd::Perform(
                        BackendCommand::PerformSwipe { pixels, move_millis },
                    ) && pixels@ == spec_swipe_pixels(
                        spec_swipe_pair(swipe.start.0@).unwrap(),
                        spec_swipe_pair(swipe.end.0@).unwrap(),
                        pre.viewport,
                    ) && move_millis == SWIPE_MOVE_MILLIS
                } else {
                    &&& post.phase is Finished
                    &&& cmd == EngineCmd::Done(
                        RunOutcome {
                            steps_count: post.steps_count,
                            error: Some(ExecError::InvalidGestureInput),
                        },
                    )
                }
            },
            Step::RunScript { runScript } => {
                &&& post.phase is Skipping
                &&& cmd matches EngineCmd::Log(line) && line@ == "Ran script: "@ + runScript@
            },
            Step::LaunchApp { .. } => {
                &&& post.phase is Skipping
                &&& cmd matches EngineCmd::Log(line) && line@ == "Step LaunchApp not developed"@
            },
            Step::RunFlow { .. } => {
                &&& post.phase is Skipping
                &&& cmd matches EngineCmd::Log(line) && line@ == "Step RunFlow not developed"@
            },
        }
    }
}

/// The step at the position finished successfully: one row was appended, the
/// counter grew by one, and the next step was begun.
pub open spec fn step_done(
    pre: ExecutionContext,
    post: ExecutionContext,
    cmd: EngineCmd,
    desc: Seq<char>,
) -> bool {
    &&& rows_extended(pre, post, desc)
    &&& post.steps_count == pre.steps_count + 1
    &&& spec_begin_ctl(pre, pre.pos + 1, post, cmd)
}

/// The run turned fatal: the context is unchanged but for the phase, which
/// now awaits the error screenshot.
pub open spec fn turned_fatal(
    pre: ExecutionContext,
    post: ExecutionContext,
    cmd: EngineCmd,
    err: ExecError,
) -> bool {
    &&& same_but_phase(pre, post)
    &&& post.phase == Phase::FatalScreenshot(err)
    &&& cmd matches EngineCmd::Perform(BackendCommand::TakeScreenshot { file_name })
        && file_name@ == "error_screenshot.png"@
}

/// The transition relation of the executor: what consuming one event in the
/// given state does, and which command comes out.
pub open spec fn spec_transition(
    pre: ExecutionContext,
    ev: BackendEvent,
    post: ExecutionContext,
    cmd: EngineCmd,
) -> bool {
    let cur = pre.steps@[pre.pos as int].step;
    match pre.phase {
        Phase::TapTextFinding => match ev {
            BackendEvent::Found { .. } => {
                &&& same_but_phase(pre, post)
                &&& post.phase is TapTextClicking
                &&& cmd == EngineCmd::Perform(BackendCommand::ClickFound)
            },
            BackendEvent::NotFound => {
                &&& same_but_phase(pre, post)
                &&& post.phase is TapDescFinding
                &&& (cur matches Step::TapOn { tapOn: TapOn::TapOnTextOrDescription(s) }
                    ==> cmd matches EngineCmd::Perform(
                    BackendCommand::FindElement { query, timeout_millis },
                ) && query@ == spec_desc_query(s) && timeout_millis == DEFAULT_WAIT_MILLIS)
            },
            _ => false,
        },
        Phase::TapTextClicking => match ev {
            BackendEvent::ActionOk => cur matches Step::TapOn {
                tapOn: TapOn::TapOnTextOrDescription(s),
            } && step_done(pre, post, cmd, "Tapped on text: "@ + s@),
            BackendEvent::ActionFailed => turned_fatal(
                pre,
                post,
                cmd,
                ExecError::BackendActionFailed,
            ),
            _ => false,
        },
        Phase::TapDescFinding => match ev {
            BackendEvent::Found { .. } => {
                &&& same_but_phase(pre, post)
                &&& post.phase is TapDescClicking
                &&& cmd == EngineCmd::Perform(BackendCommand::ClickFound)
            },
            BackendEvent::NotFound => turned_fatal(pre, post, cmd, ExecError::ElementNotFound),
            _ => false,
        },
        Phase::TapDescClicking => match ev {
            BackendEvent::ActionOk => cur matches Step::TapOn {
                tapOn: TapOn::TapOnTextOrDescription(s),
            } && step_done(pre, post, cmd, "Tapped on description: "@ + s@),
            BackendEvent::ActionFailed => turned_fatal(
                pre,
                post,
                cmd,
                ExecError::BackendActionFailed,
            ),
            _ => false,
        },
        Phase::TapOptionFinding => match ev {
            BackendEvent::Found { .. } => {
                &&& same_but_phase(pre, post)
                &&& post.phase is TapOptionClicking
                &&& cmd == EngineCmd::Perform(BackendCommand::ClickFound)
            },
            BackendEvent::NotFound => turned_fatal(pre, post, cmd, ExecError::ElementNotFound),
            _ => false,
        },
        Phase::TapOptionClicking => match ev {
            BackendEvent::ActionOk => cur matches Step::TapOn { tapOn: TapOn::TapOnOption(o) }
                && spec_tap_option_selector(o) matches Some(sel) && step_done(
                pre,
                post,
                cmd,
                "Tapped on: "@ + query_expr(spec_android_query(sel)),
            ),
            BackendEvent::ActionFailed => turned_fatal(
                pre,
                post,
                cmd,
                ExecError::BackendActionFailed,
            ),
            _ => false,
        },
        Phase::AssertVisibleFinding => match ev {
            BackendEvent::Found { displayed } => {
                if displayed {
                    cur matches Step::AssertVisible { assertVisible } && step_done(
                        pre,
                        post,
                        cmd,
                        "Element "@ + assertVisible@ + " visible"@,
                    )
                } else {
                    turned_fatal(pre, post, cmd, ExecError::AssertionFailed)
                }
            },
            BackendEvent::NotFound => turned_fatal(pre, post, cmd, ExecError::ElementNotFound),
            _ => false,
        },
        Phase::AssertNotVisibleFinding => match ev {
            BackendEvent::Found { displayed } => {
                if displayed {
                    turned_fatal(pre, post, cmd, ExecError::AssertionFailed)
                } else {
                    cur matches Step::AssertNotVisible { assertNotVisible } && step_done(
                        pre,
                        post,
                        cmd,
                        "Element "@ + assertNotVisible@ + " not visible"@,
                    )
                }
            },
            BackendEvent::NotFound => cur matches Step::AssertNotVisible { assertNotVisible }
                && step_done(pre, post, cmd, "Element "@ + assertNotVisible@ + " not visible"@),
            _ => false,
        },
        Phase::Typing => match ev {
            BackendEvent::ActionOk => cur matches Step::InputText { inputText } && step_done(
                pre,
                post,
                cmd,
                "Inserted "@ + inputText@,
            ),
            BackendEvent::ActionFailed => turned_fatal(
                pre,
                post,
                cmd,
                ExecError::BackendActionFailed,
            ),
            _ => false,
        },
        Phase::Swiping => match ev {
            BackendEvent::ActionOk => cur matches Step::Swipe { swipe } && step_done(
                pre,
                post,
                cmd,
                "Swiped start: "@ + swipe.start.0@ + ", end: "@ + swipe.end.0@,
            ),
            BackendEvent::ActionFailed => turned_fatal(
                pre,
                post,
                cmd,
                ExecError::BackendActionFailed,
            ),
            _ => false,
        },
        Phase::Skipping => {
            &&& post.rows@ == pre.rows@
            &&& post.steps_count == pre.steps_count
            &&& spec_begin_ctl(pre, pre.pos + 1, post, cmd)
        },
        Phase::FatalScreenshot(err) => {
            &&& post.steps@ == pre.steps@
            &&& post.viewport == pre.viewport
            &&& post.pos == pre.pos
            &&& post.steps_count == pre.steps_count
            &&& post.rows@ == pre.rows@
            &&& post.indent_level == 0
            &&& post.phase is Finished
            &&& cmd == EngineCmd::Done(
                RunOutcome { steps_count: post.steps_count, error: Some(err) },
            )
        },
        Phase::Finished => false,
    }
}

/// Builds the find command for the given selector.
fn find_command(selector: AndroidElementSelector, timeout_millis: u64) -> (r: EngineCmd)
    ensures
        r matches EngineCmd::Perform(BackendCommand::FindElement { query, timeout_millis: t })
            && query@ == spec_android_query(selector) && t == timeout_millis,
{
    let query = get_android_element_by(selector);
    EngineCmd::Perform(BackendCommand::FindElement { query, timeout_millis })
}

/// Positions the context on the step at `at` and issues its first command,
/// or ends the run when the steps are exhausted.
fn begin(ctx: &mut ExecutionContext, at: usize) -> (cmd: EngineCmd)
    requires
        at <= old(ctx).steps@.len(),
        old(ctx).steps_count <= at,
        old(ctx).steps_count == old(ctx).rows@.len(),
        wf_viewport(old(ctx).viewport),
    ensures
        spec_begin_ctl(*old(ctx), at as int, *final(ctx), cmd),
        final(ctx).rows@ == old(ctx).rows@,
        final(ctx).steps_count == old(ctx).steps_count,
        wf_context(*final(ctx)),
{
    ctx.pos = at;
    if at >= ctx.steps.len() {
        ctx.phase = Phase::Finished;
        ctx.indent_level = 0;
        return EngineCmd::Done(RunOutcome { steps_count: ctx.steps_count, error: None });
    }
    ctx.indent_level = ctx.steps[at].depth;
    match &ctx.steps[at].step {
        Step::TapOn { tapOn: TapOn::TapOnTextOrDescription(s) } => {
            let text = s.clone();
            ctx.phase = Phase::TapTextFinding;
            find_command(AndroidElementSelector::Text { text }, SHORT_WAIT_MILLIS)
        },
        Step::TapOn { tapOn: TapOn::TapOnOption(o) } => {
            match selector_for_tap_option(o) {
                Some(sel) => {
                    ctx.phase = Phase::TapOptionFinding;
                    find_command(sel, DEFAULT_WAIT_MILLIS)
                },
                None => {
                    ctx.phase = Phase::Finished;
                    EngineCmd::Done(
                        RunOutcome {
                            steps_count: ctx.steps_count,
                            error: Some(ExecError::UnsupportedTapTarget),
                        },
                    )
                },
            }
        },
        Step::InputText { inputText } => {
            let text = inputText.clone();
            ctx.phase = Phase::Typing;
            EngineCmd::Perform(BackendCommand::TypeText { text })
        },
        Step::AssertVisible { assertVisible } => {
            let text = assertVisible.clone();
            ctx.phase = Phase::AssertVisibleFinding;
            find_command(AndroidElementSelector::Text { text }, DEFAULT_WAIT_MILLIS)
        },
        Step::AssertNotVisible { assertNotVisible } => {
            let text = assertNotVisible.clone();
            ctx.phase = Phase::AssertNotVisibleFinding;
            find_command(AndroidElementSelector::Text { text }, SHORT_WAIT_MILLIS)
        },
        Step::Swipe { swipe } => {
            match swipe_pixels(swipe, ctx.viewport) {
                Some(pixels) => {
                    ctx.phase = Phase::Swiping;
                    EngineCmd::Perform(
                        BackendCommand::PerformSwipe { pixels, move_millis: SWIPE_MOVE_MILLIS },
                    )
                },
                None => {
                    ctx.phase = Phase::Finished;
                    EngineCmd::Done(
                        RunOutcome {
                            steps_count: ctx.steps_count,
                            error: Some(ExecError::InvalidGestureInput),
                        },
                    )
                },
            }
        },
        Step::RunScript { runScript } => {
            let mut line = String::from_str("Ran script: ");
            line.append(runScript.as_str());
            ctx.phase = Phase::Skipping;
            EngineCmd::Log(line)
        },
        Step::LaunchApp { .. } => {
            ctx.phase = Phase::Skipping;
            EngineCmd::Log(String::from_str("Step LaunchApp not developed"))
        },
        Step::RunFlow { .. } => {
            ctx.phase = Phase::Skipping;
            EngineCmd::Log(String::from_str("Step RunFlow not developed"))
        },
    }
}

/// Counts the current step as executed and begins the next one.
fn advance_after_success(ctx: &mut ExecutionContext) -> (cmd: EngineCmd)
    requires
        old(ctx).steps_count <= old(ctx).pos,
        old(ctx).pos < old(ctx).steps@.len(),
        old(ctx).steps_count + 1 == old(ctx).rows@.len(),
        wf_viewport(old(ctx).viewport),
    ensures
        final(ctx).steps_count == old(ctx).steps_count + 1,
        final(ctx).rows@ == old(ctx).rows@,
        spec_begin_ctl(*old(ctx), old(ctx).pos + 1, *final(ctx), cmd),
        wf_context(*final(ctx)),
{
    let n: usize = ctx.steps.len();
    proof {
        assert(ctx.steps_count < n);
    }
    ctx.steps_count = ctx.steps_count + 1;
    let at = ctx.pos + 1;
    begin(ctx, at)
}

/// Appends one passing row with this description.
fn push_row(ctx: &mut ExecutionContext, description: String)
    ensures
        final(ctx).rows@.len() == old(ctx).rows@.len() + 1,
        final(ctx).rows@.subrange(0, old(ctx).rows@.len() as int) == old(ctx).rows@,
        final(ctx).rows@.last().description@ == description@,
        final(ctx).rows@.last().passed == true,
        final(ctx).rows@.last().observation@ == Seq::<char>::empty(),
        final(ctx).steps == old(ctx).steps,
        final(ctx).viewport == old(ctx).viewport,
        final(ctx).pos == old(ctx).pos,
        final(ctx).phase == old(ctx).phase,
        final(ctx).steps_count == old(ctx).steps_count,
        final(ctx).indent_level == old(ctx).indent_level,
{
    let row = ReportRow { description, passed: true, observation: String::new() };
    ctx.rows.push(row);
    proof {
        assert(ctx.rows@.subrange(0, old(ctx).rows@.len() as int) =~= old(ctx).rows@);
    }
}

/// Starts a run over the flattened instructions: builds the context and
/// issues the first command.
pub fn start_run(steps: Vec<FlatStep>, viewport: Viewport) -> (r: (ExecutionContext, EngineCmd))
    requires
        wf_viewport(viewport),
    ensures
        r.0.steps@ == steps@,
        r.0.viewport == viewport,
        r.0.steps_count == 0,
        r.0.rows@ == Seq::<ReportRow>::empty(),
        spec_begin_ctl(r.0, 0, r.0, r.1),
        wf_context(r.0),
{
    let mut ctx = ExecutionContext {
        steps,
        viewport,
        pos: 0,
        phase: Phase::Finished,
        steps_count: 0,
        rows: Vec::new(),
        indent_level: 0,
    };
    let cmd = begin(&mut ctx, 0);
    (ctx, cmd)
}

/// Consumes one backend event and issues the next command.
///
/// The transition relation [`spec_transition`] pins the outcome for every
/// allowed state and event; see the module documentation for the step
/// semantics it encodes.
pub fn on_event(ctx: &mut ExecutionContext, ev: BackendEvent) -> (cmd: EngineCmd)
    requires
        wf_context(*old(ctx)),
        event_ok(old(ctx).phase, ev),
    ensures
        spec_transition(*old(ctx), ev, *final(ctx), cmd),
        wf_context(*final(ctx)),
{
    let phase = ctx.phase;
    match phase {
        Phase::TapTextFinding => match ev {
            BackendEvent::Found { .. } => {
                ctx.phase = Phase::TapTextClicking;
                EngineCmd::Perform(BackendCommand::ClickFound)
            },
            _ => {
                let s = match &ctx.steps[ctx.pos].step {
                    Step::TapOn { tapOn: TapOn::TapOnTextOrDescription(s) } => s.clone(),
                    _ => {
                        proof {
                            assert(false);
                        }
                        String::new()
                    },
                };
                ctx.phase = Phase::TapDescFinding;
                find_command(
                    AndroidElementSelector::Description { description: s },
                    DEFAULT_WAIT_MILLIS,
                )
            },
        },
        Phase::TapTextClicking => match ev {
            BackendEvent::ActionOk => {
                let s = match &ctx.steps[ctx.pos].step {
                    Step::TapOn { tapOn: TapOn::TapOnTextOrDescription(s) } => s.clone(),
                    _ => {
                        proof {
                            assert(false);
                        }
                        String::new()
                    },
                };
                let mut desc = String::from_str("Tapped on text: ");
                desc.append(s.as_str());
                push_row(ctx, desc);
                advance_after_success(ctx)
            },
            _ => fatal(ctx, ExecError::BackendActionFailed),
        },
        Phase::TapDescFinding => match ev {
            BackendEvent::Found { .. } => {
                ctx.phase = Phase::TapDescClicking;
                EngineCmd::Perform(BackendCommand::ClickFound)
            },
            _ => fatal(ctx, ExecError::ElementNotFound),
        },
        Phase::TapDescClicking => match ev {
            BackendEvent::ActionOk => {
                let s = match &ctx.steps[ctx.pos].step {
                    Step::TapOn { tapOn: TapOn::TapOnTextOrDescription(s) } => s.clone(),
                    _ => {
                        proof {
                            assert(false);
                        }
                        String::new()
                    },
                };
                let mut desc = String::from_str("Tapped on description: ");
                desc.append(s.as_str());
                push_row(ctx, desc);
                advance_after_success(ctx)
            },
            _ => fatal(ctx, ExecError::BackendActionFailed),
        },
        Phase::TapOptionFinding => match ev {
            BackendEvent::Found { .. } => {
                ctx.phase = Phase::TapOptionClicking;
                EngineCmd::Perform(BackendCommand::ClickFound)
            },
            _ => fatal(ctx, ExecError::ElementNotFound),
        },
        Phase::TapOptionClicking => match ev {
            BackendEvent::ActionOk => {
                let sel = match &ctx.steps[ctx.pos].step {
                    Step::TapOn { tapOn: TapOn::TapOnOption(o) } => selector_for_tap_option(o),
                    _ => {
                        proof {
                            assert(false);
                        }
                        None
                    },
                };
                let sel = match sel {
                    Some(sel) => sel,
                    None => {
                        proof {
                            assert(false);
                        }
                        AndroidElementSelector::Index { index: 0 }
                    },
                };
                let query = get_android_element_by(sel);
                let expr = query_expression(query);
                let mut desc = String::from_str("Tapped on: ");
                desc.append(expr.as_str());
                push_row(ctx, desc);
                advance_after_success(ctx)
            },
            _ => fatal(ctx, ExecError::BackendActionFailed),
        },
        Phase::AssertVisibleFinding => match ev {
            BackendEvent::Found { displayed } => {
                if displayed {
                    let s = match &ctx.steps[ctx.pos].step {
                        Step::AssertVisible { assertVisible } => assertVisible.clone(),
                        _ => {
                            proof {
                                assert(false);
                            }
                            String::new()
                        },
                    };
                    let mut desc = String::from_str("Element ");
                    desc.append(s.as_str());
                    desc.append(" visible");
                    push_row(ctx, desc);
                    advance_after_success(ctx)
                } else {
                    fatal(ctx, ExecError::AssertionFailed)
                }
            },
            _ => fatal(ctx, ExecError::ElementNotFound),
        },
        Phase::AssertNotVisibleFinding => {
            let displayed_failure = match ev {
                BackendEvent::Found { displayed } => displayed,
                _ => false,
            };
            if displayed_failure {
                fatal(ctx, ExecError::AssertionFailed)
            } else {
                let s = match &ctx.steps[ctx.pos].step {
                    Step::AssertNotVisible { assertNotVisible } => assertNotVisible.clone(),
                    _ => {
                        proof {
                            assert(false);
                        }
                        String::new()
                    },
                };
                let mut desc = String::from_str("Element ");
                desc.append(s.as_str());
                desc.append(" not visible");
                push_row(ctx, desc);
                advance_after_success(ctx)
            }
        },
        Phase::Typing => match ev {
            BackendEvent::ActionOk => {
                let s = match &ctx.steps[ctx.pos].step {
                    Step::InputText { inputText } => inputText.clone(),
                    _ => {
                        proof {
                            assert(false);
                        }
                        String::new()
                    },
                };
                let mut desc = String::from_str("Inserted ");
                desc.append(s.as_str());
                push_row(ctx, desc);
                advance_after_success(ctx)
            },
            _ => fatal(ctx, ExecError::BackendActionFailed),
        },
        Phase::Swiping => match ev {
            BackendEvent::ActionOk => {
                let (start, end) = match &ctx.steps[ctx.pos].step {
                    Step::Swipe { swipe } => (swipe.start.0.clone(), swipe.end.0.clone()),
                    _ => {
                        proof {
                            assert(false);
                        }
                        (String::new(), String::new())
                    },
                };
                let mut desc = String::from_str("Swiped start: ");
                desc.append(start.as_str());
                desc.append(", end: ");
                desc.append(end.as_str());
                push_row(ctx, desc);
                advance_after_success(ctx)
            },
            _ => fatal(ctx, ExecError::BackendActionFailed),
        },
        Phase::Skipping => {
            let n: usize = ctx.steps.len();
            proof {
                assert(ctx.pos < n);
            }
            let at = ctx.pos + 1;
            begin(ctx, at)
        },
        Phase::FatalScreenshot(err) => {
            ctx.phase = Phase::Finished;
            ctx.indent_level = 0;
            EngineCmd::Done(RunOutcome { steps_count: ctx.steps_count, error: Some(err) })
        },
        Phase::Finished => {
            proof {
                assert(false);
            }
            EngineCmd::Done(RunOutcome { steps_count: ctx.steps_count, error: None })
        },
    }
}

/// Turns the run fatal: records the error in the phase and asks for the
/// error screenshot.
fn fatal(ctx: &mut ExecutionContext, err: ExecError) -> (cmd: EngineCmd)
    requires
        wf_context(*old(ctx)),
    ensures
        turned_fatal(*old(ctx), *final(ctx), cmd, err),
        wf_context(*final(ctx)),
{
    ctx.phase = Phase::FatalScreenshot(err);
    EngineCmd::Perform(
        BackendCommand::TakeScreenshot { file_name: String::from_str("error_screenshot.png") },
    )
}

/// Returns the expression text of a query.
pub fn query_expression(q: BackendQuery) -> (r: String)
    ensures
        r@ == query_expr(q@),
{
    match q {
        BackendQuery::AccessibilityId(s) => s,
        BackendQuery::Xpath(s) => s,
        BackendQuery::UiAutomator(s) => s,
        BackendQuery::ClassName(s) => s,
    }
}

/// Returns the current indentation level of the run's log lines: the
/// nesting depth of the step being executed.
pub fn get_current_indent_level(ctx: &ExecutionContext) -> (r: usize)
    ensures
        r == ctx.indent_level,
{
    ctx.indent_level
}

/// Sets the indentation level of the run's log lines.
pub fn set_current_indent_level(ctx: &mut ExecutionContext, level: usize)
    ensures
        final(ctx).indent_level == level,
        final(ctx).steps == old(ctx).steps,
        final(ctx).viewport == old(ctx).viewport,
        final(ctx).pos == old(ctx).pos,
        final(ctx).phase == old(ctx).phase,
        final(ctx).steps_count == old(ctx).steps_count,
        final(ctx).rows == old(ctx).rows,
{
    ctx.indent_level = level;
}

/// Law: the report buffer is append-only and the position and counter never
/// move backwards: one transition leaves every recorded row in place and at
/// most appends one.
pub proof fn lemma_report_append_only(
    pre: ExecutionContext,
    ev: BackendEvent,
    post: ExecutionContext,
    cmd: EngineCmd,
)
    requires
        wf_context(pre),
        spec_transition(pre, ev, post, cmd),
    ensures
        pre.rows@.len() <= post.rows@.len(),
        post.rows@.subrange(0, pre.rows@.len() as int) == pre.rows@,
        pre.steps_count <= post.steps_count,
        pre.pos <= post.pos,
{
    if post.rows@ == pre.rows@ {
        assert(post.rows@.subrange(0, pre.rows@.len() as int) =~= pre.rows@);
    }
}

/// Law: an assert-not-visible step succeeds both when the element is absent
/// and when it is present but not displayed — one passing row is recorded
/// and the counter grows — while an element that is present and displayed is
/// a fatal assertion failure.
pub proof fn lemma_assert_not_visible_outcomes(
    pre: ExecutionContext,
    ev: BackendEvent,
    post: ExecutionContext,
    cmd: EngineCmd,
)
    requires
        wf_context(pre),
        pre.phase is AssertNotVisibleFinding,
        spec_transition(pre, ev, post, cmd),
    ensures
        ev is NotFound ==> post.steps_count == pre.steps_count + 1 && post.rows@.len()
            == pre.rows@.len() + 1 && post.rows@.last().passed,
        ev matches BackendEvent::Found { displayed } && !displayed ==> post.steps_count
            == pre.steps_count + 1 && post.rows@.len() == pre.rows@.len() + 1
            && post.rows@.last().passed,
        ev matches BackendEvent::Found { displayed } && displayed ==> post.phase
            == Phase::FatalScreenshot(ExecError::AssertionFailed) && post.steps_count
            == pre.steps_count && post.rows@ == pre.rows@,
{
}

/// Law: when a bare-string tap finds nothing by text, the same string is
/// resolved once more as a content description with the full default wait;
/// when that find and the click succeed, the recorded row says the
/// description path was used, and the step counts as executed.
pub proof fn lemma_tap_fallback_reports_description(
    s0: ExecutionContext,
    s1: ExecutionContext,
    s2: ExecutionContext,
    s3: ExecutionContext,
    c1: EngineCmd,
    c2: EngineCmd,
    c3: EngineCmd,
    displayed: bool,
)
    requires
        wf_context(s0),
        s0.phase is TapTextFinding,
        spec_transition(s0, BackendEvent::NotFound, s1, c1),
        spec_transition(s1, BackendEvent::Found { displayed }, s2, c2),
        spec_transition(s2, BackendEvent::ActionOk, s3, c3),
    ensures
        s0.steps@[s0.pos as int].step matches Step::TapOn {
            tapOn: TapOn::TapOnTextOrDescription(t),
        } ==> {
            &&& c1 matches EngineCmd::Perform(
                BackendCommand::FindElement { query, timeout_millis },
            ) && query@ == spec_desc_query(t) && timeout_millis == DEFAULT_WAIT_MILLIS
            &&& c2 == EngineCmd::Perform(BackendCommand::ClickFound)
            &&& s3.rows@.len() == s0.rows@.len() + 1
            &&& s3.rows@.last().description@ == "Tapped on description: "@ + t@
            &&& s3.steps_count == s0.steps_count + 1
        },
{
}

} // verus!
