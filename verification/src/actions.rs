//! The element-action executor: a state machine for the selector-and-actions
//! step models.
//!
//! The Android and iOS step models address one element per step and run a
//! list of actions against it.  After their step files are inlined and their
//! selectors resolved into backend queries, both models execute the same
//! way; this machine drives that execution, one command and one event at a
//! time, exactly like the main step executor.
//!
//! Per action: an assert-visible requires the element to be found and
//! displayed; a tap finds and clicks; an insert finds the element and sends
//! the keys; a scroll-until-visible polls — find, and on a miss swipe
//! upward from 80 to 20 percent of the height at the horizontal centre and
//! try again — until the element appears or the caller's overall time
//! budget runs out, which this machine treats as a fatal failure.  A pause,
//! a screenshot and a log line are steps of their own.  Asserts, taps and
//! completed scrolls count as executed actions; inserts and pauses do not.
//! Any failure ends the run at once with its error; this model takes no
//! error screenshot.

use vstd::prelude::*;

use crate::android::{AndroidAction, AndroidNormalStep};
use crate::executor::{BackendCommand, BackendEvent, EngineCmd, ExecError, RunOutcome};
use crate::gesture::{wf_viewport, SwipePixels, Viewport};
use crate::ios::IosNormalStep;
use crate::selector::{
    get_android_element_by, get_ios_element_by, spec_android_query, spec_ios_query, BackendQuery,
};

verus! {

/// The full default wait for an element, in milliseconds.
pub const ACTION_WAIT_MILLIS: u64 = 30000;

/// The overall time budget of one scroll-until-visible poll loop, in
/// milliseconds; the caller owns the clock and reports its expiry.
pub const SCROLL_BUDGET_MILLIS: u64 = 30000;

/// How long the pointer movement of a scroll swipe takes, in milliseconds.
pub const SCROLL_MOVE_MILLIS: u64 = 250;

/// One action to perform on the addressed element.
#[derive(Debug, PartialEq)]
pub enum ElementAction {
    AssertVisible,
    TapOn,
    ScrollUntilVisible,
    InsertData { data: String },
    Pause { millis: u64 },
}

/// One resolved step: the element query with its actions, or a step of its
/// own.
#[derive(Debug, PartialEq)]
pub enum ResolvedStep {
    Element { query: BackendQuery, actions: Vec<ElementAction> },
    Screenshot { file_name: String },
    Log { message: String },
    Pause { millis: u64 },
}

/// Where the machine stands within the current action.
#[derive(Debug, Clone, Copy, PartialEq)]
pub enum ActionPhase {
    /// Waiting for the find of an assert-visible action.
    AssertFinding,
    /// Waiting for the find of a tap action.
    TapFinding,
    /// Waiting for the click of a tap action.
    TapClicking,
    /// Waiting for the find of an insert action.
    InsertFinding,
    /// Waiting for the keys of an insert action to be sent.
    InsertSending,
    /// Waiting for a find inside a scroll-until-visible poll loop.
    ScrollFinding,
    /// Waiting for the upward swipe of a scroll-until-visible poll loop.
    ScrollSwiping,
    /// Waiting for a pause to elapse.
    Pausing,
    /// Waiting for a screenshot step.
    ShootingScreen,
    /// Waiting for a log step's line to be written.
    LoggingStep,
    /// The run is over; a `Done` command has been issued.
    Finished,
}

/// The per-run state of the element-action machine.
#[derive(Debug)]
pub struct ActionContext {
    pub steps: Vec<ResolvedStep>,
    pub viewport: Viewport,
    pub pos: usize,
    pub act: usize,
    pub phase: ActionPhase,
    pub count: usize,
}

/// The counter, stepped by one; it saturates at its maximum.
pub open spec fn bump_count(c: usize) -> usize {
    if c < usize::MAX {
        (c + 1) as usize
    } else {
        c
    }
}

/// The fixed upward scroll swipe: horizontally centred, from 80 to 20
/// percent of the viewport height.
pub open spec fn spec_scroll_swipe(v: Viewport) -> SpecScrollSwipe {
    SpecScrollSwipe {
        x: v.width as nat / 2,
        from_y: v.height as nat * 8 / 10,
        to_y: v.height as nat * 2 / 10,
    }
}

/// The mathematical shape of the scroll swipe.
#[verifier::ext_equal]
pub ghost struct SpecScrollSwipe {
    pub x: nat,
    pub from_y: nat,
    pub to_y: nat,
}

/// The phase is consistent with the step and action it points at.
pub open spec fn action_phase_fits(c: ActionContext) -> bool {
    match c.phase {
        ActionPhase::AssertFinding => cur_action_is(c, ElementAction::AssertVisible),
        ActionPhase::TapFinding | ActionPhase::TapClicking => cur_action_is(
            c,
            ElementAction::TapOn,
        ),
        ActionPhase::InsertFinding | ActionPhase::InsertSending => cur_action_is_insert(c),
        ActionPhase::ScrollFinding | ActionPhase::ScrollSwiping => cur_action_is(
            c,
            ElementAction::ScrollUntilVisible,
        ),
        ActionPhase::Pausing => cur_is_pause(c),
        ActionPhase::ShootingScreen => c.pos < c.steps@.len() && c.steps@[c.pos as int]
            is Screenshot,
        ActionPhase::LoggingStep => c.pos < c.steps@.len() && c.steps@[c.pos as int] is Log,
        ActionPhase::Finished => true,
    }
}

/// The machine points at an element step whose current action is `a`.
pub open spec fn cur_action_is(c: ActionContext, a: ElementAction) -> bool {
    &&& c.pos < c.steps@.len()
    &&& c.steps@[c.pos as int] matches ResolvedStep::Element { actions, .. } && c.act
        < actions@.len() && actions@[c.act as int] == a
}

/// The machine points at an element step whose current action inserts data.
pub open spec fn cur_action_is_insert(c: ActionContext) -> bool {
    &&& c.pos < c.steps@.len()
    &&& c.steps@[c.pos as int] matches ResolvedStep::Element { actions, .. } && c.act
        < actions@.len() && actions@[c.act as int] is InsertData
}

/// The machine points at a pause: a pause step, or a pause action of an
/// element step.
pub open spec fn cur_is_pause(c: ActionContext) -> bool {
    &&& c.pos < c.steps@.len()
    &&& match c.steps@[c.pos as int] {
        ResolvedStep::Pause { .. } => true,
        ResolvedStep::Element { actions, .. } => c.act < actions@.len() && actions@[c.act as int]
            is Pause,
        _ => false,
    }
}

/// The machine's state invariant.
pub open spec fn wf_action_context(c: ActionContext) -> bool {
    &&& c.pos <= c.steps@.len()
    &&& wf_viewport(c.viewport)
    &&& action_phase_fits(c)
}

/// Which events the protocol allows in the given phase.
pub open spec fn action_event_ok(p: ActionPhase, ev: BackendEvent) -> bool {
    match p {
        ActionPhase::AssertFinding | ActionPhase::TapFinding | ActionPhase::InsertFinding => ev
            is Found || ev is NotFound,
        ActionPhase::ScrollFinding => ev is Found || ev is NotFound || ev is DeadlineExceeded,
        ActionPhase::ScrollSwiping => ev is ActionOk || ev is ActionFailed
            || ev is DeadlineExceeded,
        ActionPhase::TapClicking | ActionPhase::InsertSending | ActionPhase::ShootingScreen => ev
            is ActionOk || ev is ActionFailed,
        ActionPhase::Pausing => ev is ActionOk,
        ActionPhase::LoggingStep => true,
        ActionPhase::Finished => false,
    }
}

/// What positioning the machine on step `p`, action `a`, does to the state
/// and which command it issues.  An element step whose actions are spent
/// falls through to the next step; the counter is not constrained here.
pub open spec fn spec_action_begin(
    pre: ActionContext,
    p: int,
    a: int,
    post: ActionContext,
    cmd: EngineCmd,
) -> bool
    decreases pre.steps@.len() - p,
        when 0 <= p
{
    &&& post.steps@ == pre.steps@
    &&& post.viewport == pre.viewport
    &&& if p >= pre.steps@.len() {
        &&& post.pos == p
        &&& post.act == 0
        &&& post.phase is Finished
        &&& cmd == EngineCmd::Done(RunOutcome { steps_count: post.count, error: None })
    } else {
        match pre.steps@[p] {
            ResolvedStep::Element { query, actions } => {
                if a >= actions@.len() {
                    spec_action_begin(pre, p + 1, 0, post, cmd)
                } else {
                    &&& post.pos == p
                    &&& post.act == a
                    &&& match actions@[a] {
                        ElementAction::AssertVisible => {
                            &&& post.phase is AssertFinding
                            &&& cmd matches EngineCmd::Perform(
                                BackendCommand::FindElement { query: q, timeout_millis },
                            ) && q@ == query@ && timeout_millis == ACTION_WAIT_MILLIS
                        },
                        ElementAction::TapOn => {
                            &&& post.phase is TapFinding
                            &&& cmd matches EngineCmd::Perform(
                                BackendCommand::FindElement { query: q, timeout_millis },
                            ) && q@ == query@ && timeout_millis == ACTION_WAIT_MILLIS
                        },
                        ElementAction::ScrollUntilVisible => {
                            &&& post.phase is ScrollFinding
                            &&& cmd matches EngineCmd::Perform(
                                BackendCommand::FindElement { query: q, timeout_millis },
                            ) && q@ == query@ && timeout_millis == 0
                        },
                        ElementAction::InsertData { .. } => {
                            &&& post.phase is InsertFinding
                            &&& cmd matches EngineCmd::Perform(
                                BackendCommand::FindElement { query: q, timeout_millis },
                            ) && q@ == query@ && timeout_millis == ACTION_WAIT_MILLIS
                        },
                        ElementAction::Pause { millis } => {
                            &&& post.phase is Pausing
                            &&& cmd == EngineCmd::Perform(BackendCommand::Pause { millis })
                        },
                    }
                }
            },
            ResolvedStep::Screenshot { file_name } => {
                &&& post.pos == p
                &&& post.act == 0
                &&& post.phase is ShootingScreen
                &&& cmd matches EngineCmd::Perform(BackendCommand::TakeScreenshot { file_name: f })
                    && f@ == file_name@
            },
            ResolvedStep::Log { message } => {
                &&& post.pos == p
                &&& post.act == 0
                &&& post.phase is LoggingStep
                &&& cmd matches EngineCmd::Log(line) && line@ == "[LOG] "@ + message@
            },
            ResolvedStep::Pause { millis } => {
                &&& post.pos == p
                &&& post.act == 0
                &&& post.phase is Pausing
                &&& cmd == EngineCmd::Perform(BackendCommand::Pause { millis })
            },
        }
    }
}

/// Beginning a step reads only the step list and the viewport of the prior
/// state; two prior states that agree on them agree on what beginning does.
proof fn lemma_begin_congruence(
    pre1: ActionContext,
    pre2: ActionContext,
    p: int,
    a: int,
    post: ActionContext,
    cmd: EngineCmd,
)
    requires
        0 <= p,
        pre1.steps@ == pre2.steps@,
        pre1.viewport == pre2.viewport,
        spec_action_begin(pre1, p, a, post, cmd),
    ensures
        spec_action_begin(pre2, p, a, post, cmd),
    decreases pre1.steps@.len() - p,
{
    if p < pre1.steps@.len() {
        if let ResolvedStep::Element { actions, .. } = pre1.steps@[p] {
            if a >= actions@.len() {
                lemma_begin_congruence(pre1, pre2, p + 1, 0, post, cmd);
            }
        }
    }
}

/// The run ended with this error; nothing else changed.
pub open spec fn action_failed(
    pre: ActionContext,
    post: ActionContext,
    cmd: EngineCmd,
    err: ExecError,
) -> bool {
    &&& post.steps@ == pre.steps@
    &&& post.viewport == pre.viewport
    &&& post.pos == pre.pos
    &&& post.act == pre.act
    &&& post.count == pre.count
    &&& post.phase is Finished
    &&& cmd == EngineCmd::Done(RunOutcome { steps_count: pre.count, error: Some(err) })
}

/// The transition relation of the element-action machine.
pub open spec fn spec_action_transition(
    pre: ActionContext,
    ev: BackendEvent,
    post: ActionContext,
    cmd: EngineCmd,
) -> bool {
    match pre.phase {
        ActionPhase::AssertFinding => match ev {
            BackendEvent::Found { displayed } => {
                if displayed {
                    post.count == bump_count(pre.count) && spec_action_begin(
                        pre,
                        pre.pos as int,
                        pre.act + 1,
                        post,
                        cmd,
                    )
                } else {
                    action_failed(pre, post, cmd, ExecError::AssertionFailed)
                }
            },
            BackendEvent::NotFound => action_failed(pre, post, cmd, ExecError::ElementNotFound),
            _ => false,
        },
        ActionPhase::TapFinding => match ev {
            BackendEvent::Found { .. } => {
                &&& post == ActionContext { phase: ActionPhase::TapClicking, ..pre }
                &&& cmd == EngineCmd::Perform(BackendCommand::ClickFound)
            },
            BackendEvent::NotFound => action_failed(pre, post, cmd, ExecError::ElementNotFound),
            _ => false,
        },
        ActionPhase::TapClicking => match ev {
            BackendEvent::ActionOk => post.count == bump_count(pre.count) && spec_action_begin(
                pre,
                pre.pos as int,
                pre.act + 1,
                post,
                cmd,
            ),
            BackendEvent::ActionFailed => action_failed(
                pre,
                post,
                cmd,
                ExecError::BackendActionFailed,
            ),
            _ => false,
        },
        ActionPhase::InsertFinding => match ev {
            BackendEvent::Found { .. } => {
                &&& post == ActionContext { phase: ActionPhase::InsertSending, ..pre }
                &&& (pre.steps@[pre.pos as int] matches ResolvedStep::Element { actions, .. }
                    ==> (actions@[pre.act as int] matches ElementAction::InsertData { data }
                    ==> (cmd matches EngineCmd::Perform(
                    BackendCommand::SendKeysToFound { text },
                ) && text@ == data@)))
            },
            BackendEvent::NotFound => action_failed(pre, post, cmd, ExecError::ElementNotFound),
            _ => false,
        },
        ActionPhase::InsertSending => match ev {
            BackendEvent::ActionOk => post.count == pre.count && spec_action_begin(
                pre,
                pre.pos as int,
                pre.act + 1,
                post,
                cmd,
            ),
            BackendEvent::ActionFailed => action_failed(
                pre,
                post,
                cmd,
                ExecError::BackendActionFailed,
            ),
            _ => false,
        },
        ActionPhase::ScrollFinding => match ev {
            BackendEvent::Found { .. } => post.count == bump_count(pre.count)
                && spec_action_begin(pre, pre.pos as int, pre.act + 1, post, cmd),
            BackendEvent::NotFound => {
                &&& post == ActionContext { phase: ActionPhase::ScrollSwiping, ..pre }
                &&& cmd matches EngineCmd::Perform(
                    BackendCommand::PerformSwipe { pixels, move_millis },
                ) && move_millis == SCROLL_MOVE_MILLIS && pixels.from_x as nat
                    == spec_scroll_swipe(pre.viewport).x && pixels.to_x as nat
                    == spec_scroll_swipe(pre.viewport).x && pixels.from_y as nat
                    == spec_scroll_swipe(pre.viewport).from_y && pixels.to_y as nat
                    == spec_scroll_swipe(pre.viewport).to_y
            },
            BackendEvent::DeadlineExceeded => action_failed(
                pre,
                post,
                cmd,
                ExecError::ElementNotFound,
            ),
            _ => false,
        },
        ActionPhase::ScrollSwiping => match ev {
            BackendEvent::ActionOk => {
                &&& post == ActionContext { phase: ActionPhase::ScrollFinding, ..pre }
                &&& (pre.steps@[pre.pos as int] matches ResolvedStep::Element { query, .. }
                    ==> cmd matches EngineCmd::Perform(
                    BackendCommand::FindElement { query: q, timeout_millis },
                ) && q@ == query@ && timeout_millis == 0)
            },
            BackendEvent::ActionFailed => action_failed(
                pre,
                post,
                cmd,
                ExecError::BackendActionFailed,
            ),
            BackendEvent::DeadlineExceeded => action_failed(
                pre,
                post,
                cmd,
                ExecError::ElementNotFound,
            ),
            _ => false,
        },
        ActionPhase::Pausing => match ev {
            BackendEvent::ActionOk => {
                &&& post.count == pre.count
                &&& if pre.steps@[pre.pos as int] is Element {
                    spec_action_begin(pre, pre.pos as int, pre.act + 1, post, cmd)
                } else {
                    spec_action_begin(pre, pre.pos + 1, 0, post, cmd)
                }
            },
            _ => false,
        },
        ActionPhase::ShootingScreen => match ev {
            BackendEvent::ActionOk => post.count == pre.count && spec_action_begin(
                pre,
                pre.pos + 1,
                0,
                post,
                cmd,
            ),
            BackendEvent::ActionFailed => action_failed(
                pre,
                post,
                cmd,
                ExecError::BackendActionFailed,
            ),
            _ => false,
        },
        ActionPhase::LoggingStep => post.count == pre.count && spec_action_begin(
            pre,
            pre.pos + 1,
            0,
            post,
            cmd,
        ),
        ActionPhase::Finished => false,
    }
}

/// Builds the find command for the current element step's query.
fn element_find_command(query: &BackendQuery, timeout_millis: u64) -> (r: EngineCmd)
    ensures
        r matches EngineCmd::Perform(BackendCommand::FindElement { query: q, timeout_millis: t })
            && q@ == query@ && t == timeout_millis,
{
    EngineCmd::Perform(BackendCommand::FindElement { query: query.clone(), timeout_millis })
}

/// Positions the machine on step `p`, action `a`, and issues the next
/// command; an element step whose actions are spent falls through to the
/// next step, and a spent step list ends the run.
fn action_begin(ctx: &mut ActionContext, p: usize, a: usize) -> (cmd: EngineCmd)
    requires
        p <= old(ctx).steps@.len(),
        wf_viewport(old(ctx).viewport),
    ensures
        spec_action_begin(*old(ctx), p as int, a as int, *final(ctx), cmd),
        final(ctx).count == old(ctx).count,
        wf_action_context(*final(ctx)),
    decreases old(ctx).steps@.len() - p,
{
    ctx.pos = p;
    ctx.act = a;
    if p >= ctx.steps.len() {
        ctx.act = 0;
        ctx.phase = ActionPhase::Finished;
        return EngineCmd::Done(RunOutcome { steps_count: ctx.count, error: None });
    }
    let fall_through = match &ctx.steps[p] {
        ResolvedStep::Element { actions, .. } => a >= actions.len(),
        _ => false,
    };
    if fall_through {
        let next = p + 1;
        let ghost mid = *ctx;
        let cmd = action_begin(ctx, next, 0);
        proof {
            lemma_begin_congruence(mid, *old(ctx), next as int, 0, *ctx, cmd);
        }
        return cmd;
    }
    match &ctx.steps[p] {
        ResolvedStep::Element { query, actions } => {
            match &actions[a] {
                ElementAction::AssertVisible => {
                    ctx.phase = ActionPhase::AssertFinding;
                    element_find_command(query, ACTION_WAIT_MILLIS)
                },
                ElementAction::TapOn => {
                    ctx.phase = ActionPhase::TapFinding;
                    element_find_command(query, ACTION_WAIT_MILLIS)
                },
                ElementAction::ScrollUntilVisible => {
                    ctx.phase = ActionPhase::ScrollFinding;
                    element_find_command(query, 0)
                },
                ElementAction::InsertData { .. } => {
                    ctx.phase = ActionPhase::InsertFinding;
                    element_find_command(query, ACTION_WAIT_MILLIS)
                },
                ElementAction::Pause { millis } => {
                    let ms = *millis;
                    ctx.phase = ActionPhase::Pausing;
                    EngineCmd::Perform(BackendCommand::Pause { millis: ms })
                },
            }
        },
        ResolvedStep::Screenshot { file_name } => {
            let f = file_name.clone();
            ctx.act = 0;
            ctx.phase = ActionPhase::ShootingScreen;
            EngineCmd::Perform(BackendCommand::TakeScreenshot { file_name: f })
        },
        ResolvedStep::Log { message } => {
            let mut line = String::from_str("[LOG] ");
            line.append(message.as_str());
            ctx.act = 0;
            ctx.phase = ActionPhase::LoggingStep;
            EngineCmd::Log(line)
        },
        ResolvedStep::Pause { millis } => {
            let ms = *millis;
            ctx.act = 0;
            ctx.phase = ActionPhase::Pausing;
            EngineCmd::Perform(BackendCommand::Pause { millis: ms })
        },
    }
}

/// The machine points at an element step with a live action.
pub open spec fn at_element_action(c: ActionContext) -> bool {
    &&& c.pos < c.steps@.len()
    &&& c.steps@[c.pos as int] matches ResolvedStep::Element { actions, .. } && c.act
        < actions@.len()
}

/// Moves past the current action of the current element step.
fn next_action(ctx: &mut ActionContext) -> (cmd: EngineCmd)
    requires
        at_element_action(*old(ctx)),
        wf_viewport(old(ctx).viewport),
    ensures
        spec_action_begin(*old(ctx), old(ctx).pos as int, old(ctx).act + 1, *final(ctx), cmd),
        final(ctx).count == old(ctx).count,
        wf_action_context(*final(ctx)),
{
    let m = match &ctx.steps[ctx.pos] {
        ResolvedStep::Element { actions, .. } => actions.len(),
        _ => {
            proof {
                assert(false);
            }
            0
        },
    };
    proof {
        assert(ctx.act < m);
    }
    let p = ctx.pos;
    let a = ctx.act + 1;
    action_begin(ctx, p, a)
}

/// Starts a run over the resolved steps: builds the machine state and
/// issues the first command.
pub fn start_actions(steps: Vec<ResolvedStep>, viewport: Viewport) -> (r: (
    ActionContext,
    EngineCmd,
))
    requires
        wf_viewport(viewport),
    ensures
        r.0.steps@ == steps@,
        r.0.viewport == viewport,
        r.0.count == 0,
        spec_action_begin(r.0, 0, 0, r.0, r.1),
        wf_action_context(r.0),
{
    let mut ctx = ActionContext {
        steps,
        viewport,
        pos: 0,
        act: 0,
        phase: ActionPhase::Finished,
        count: 0,
    };
    let ghost initial = ctx;
    let cmd = action_begin(&mut ctx, 0, 0);
    proof {
        lemma_begin_congruence(initial, ctx, 0, 0, ctx, cmd);
    }
    (ctx, cmd)
}

/// The counter, stepped by one, saturating at its maximum.
fn bump(c: usize) -> (r: usize)
    ensures
        r == bump_count(c),
{
    if c < usize::MAX {
        c + 1
    } else {
        c
    }
}

/// Consumes one backend event and issues the next command; the transition
/// relation [`spec_action_transition`] pins the outcome.
pub fn on_action_event(ctx: &mut ActionContext, ev: BackendEvent) -> (cmd: EngineCmd)
    requires
        wf_action_context(*old(ctx)),
        action_event_ok(old(ctx).phase, ev),
    ensures
        spec_action_transition(*old(ctx), ev, *final(ctx), cmd),
        wf_action_context(*final(ctx)),
{
    let phase = ctx.phase;
    match phase {
        ActionPhase::AssertFinding => match ev {
            BackendEvent::Found { displayed } => {
                if displayed {
                    ctx.count = bump(ctx.count);
                    let ghost mid = *ctx;
                    let cmd = next_action(ctx);
                    proof {
                        lemma_begin_congruence(
                            mid,
                            *old(ctx),
                            mid.pos as int,
                            mid.act + 1,
                            *ctx,
                            cmd,
                        );
                    }
                    cmd
                } else {
                    action_done_err(ctx, ExecError::AssertionFailed)
                }
            },
            _ => action_done_err(ctx, ExecError::ElementNotFound),
        },
        ActionPhase::TapFinding => match ev {
            BackendEvent::Found { .. } => {
                ctx.phase = ActionPhase::TapClicking;
                EngineCmd::Perform(BackendCommand::ClickFound)
            },
            _ => action_done_err(ctx, ExecError::ElementNotFound),
        },
        ActionPhase::TapClicking => match ev {
            BackendEvent::ActionOk => {
                ctx.count = bump(ctx.count);
                let ghost mid = *ctx;
                let cmd = next_action(ctx);
                proof {
                    lemma_begin_congruence(
                        mid,
                        *old(ctx),
                        mid.pos as int,
                        mid.act + 1,
                        *ctx,
                        cmd,
                    );
                }
                cmd
            },
            _ => action_done_err(ctx, ExecError::BackendActionFailed),
        },
        ActionPhase::InsertFinding => match ev {
            BackendEvent::Found { .. } => {
                let text = match &ctx.steps[ctx.pos] {
                    ResolvedStep::Element { actions, .. } => match &actions[ctx.act] {
                        ElementAction::InsertData { data } => data.clone(),
                        _ => {
                            proof {
                                assert(false);
                            }
                            String::new()
                        },
                    },
                    _ => {
                        proof {
                            assert(false);
                        }
                        String::new()
                    },
                };
                ctx.phase = ActionPhase::InsertSending;
                EngineCmd::Perform(BackendCommand::SendKeysToFound { text })
            },
            _ => action_done_err(ctx, ExecError::ElementNotFound),
        },
        ActionPhase::InsertSending => match ev {
            BackendEvent::ActionOk => next_action(ctx),
            _ => action_done_err(ctx, ExecError::BackendActionFailed),
        },
        ActionPhase::ScrollFinding => match ev {
            BackendEvent::Found { .. } => {
                ctx.count = bump(ctx.count);
                let ghost mid = *ctx;
                let cmd = next_action(ctx);
                proof {
                    lemma_begin_congruence(
                        mid,
                        *old(ctx),
                        mid.pos as int,
                        mid.act + 1,
                        *ctx,
                        cmd,
                    );
                }
                cmd
            },
            BackendEvent::NotFound => {
                let x = ctx.viewport.width / 2;
                let from_y = ctx.viewport.height * 8 / 10;
                let to_y = ctx.viewport.height * 2 / 10;
                ctx.phase = ActionPhase::ScrollSwiping;
                EngineCmd::Perform(
                    BackendCommand::PerformSwipe {
                        pixels: SwipePixels { from_x: x, from_y, to_x: x, to_y },
                        move_millis: SCROLL_MOVE_MILLIS,
                    },
                )
            },
            _ => action_done_err(ctx, ExecError::ElementNotFound),
        },
        ActionPhase::ScrollSwiping => match ev {
            BackendEvent::ActionOk => {
                let cmd = match &ctx.steps[ctx.pos] {
                    ResolvedStep::Element { query, .. } => element_find_command(query, 0),
                    _ => {
                        proof {
                            assert(false);
                        }
                        EngineCmd::Perform(BackendCommand::ClickFound)
                    },
                };
                ctx.phase = ActionPhase::ScrollFinding;
                cmd
            },
            BackendEvent::ActionFailed => action_done_err(ctx, ExecError::BackendActionFailed),
            _ => action_done_err(ctx, ExecError::ElementNotFound),
        },
        ActionPhase::Pausing => {
            let is_element = match &ctx.steps[ctx.pos] {
                ResolvedStep::Element { .. } => true,
                _ => false,
            };
            if is_element {
                next_action(ctx)
            } else {
                let n: usize = ctx.steps.len();
                proof {
                    assert(ctx.pos < n);
                }
                let p = ctx.pos + 1;
                action_begin(ctx, p, 0)
            }
        },
        ActionPhase::ShootingScreen => match ev {
            BackendEvent::ActionOk => {
                let n: usize = ctx.steps.len();
                proof {
                    assert(ctx.pos < n);
                }
                let p = ctx.pos + 1;
                action_begin(ctx, p, 0)
            },
            _ => action_done_err(ctx, ExecError::BackendActionFailed),
        },
        ActionPhase::LoggingStep => {
            let n: usize = ctx.steps.len();
            proof {
                assert(ctx.pos < n);
            }
            let p = ctx.pos + 1;
            action_begin(ctx, p, 0)
        },
        ActionPhase::Finished => {
            proof {
                assert(false);
            }
            EngineCmd::Done(RunOutcome { steps_count: ctx.count, error: None })
        },
    }
}

/// Ends the run with this error.
fn action_done_err(ctx: &mut ActionContext, err: ExecError) -> (cmd: EngineCmd)
    requires
        wf_action_context(*old(ctx)),
    ensures
        action_failed(*old(ctx), *final(ctx), cmd, err),
        wf_action_context(*final(ctx)),
{
    ctx.phase = ActionPhase::Finished;
    EngineCmd::Done(RunOutcome { steps_count: ctx.count, error: Some(err) })
}

/// How an element action realises an Android action.
pub open spec fn action_eq(a: AndroidAction, b: ElementAction) -> bool {
    match (a, b) {
        (AndroidAction::AssertVisible, ElementAction::AssertVisible) => true,
        (AndroidAction::TapOn, ElementAction::TapOn) => true,
        (AndroidAction::ScrollUntilVisible, ElementAction::ScrollUntilVisible) => true,
        (AndroidAction::InsertData { data: d1 }, ElementAction::InsertData { data: d2 }) => d1
            == d2,
        (AndroidAction::Pause(m1), ElementAction::Pause { millis: m2 }) => m1 == m2,
        _ => false,
    }
}

/// Resolves the Android normal steps: each selector becomes its backend
/// query, actions and the other steps carry over unchanged.
pub fn resolve_android_steps(steps: &Vec<AndroidNormalStep>) -> (r: Vec<ResolvedStep>)
    ensures
        r@.len() == steps@.len(),
        forall|i: int|
            0 <= i < steps@.len() ==> android_resolved_matches(steps@[i], #[trigger] r@[i]),
{
    let n = steps.len();
    let mut out: Vec<ResolvedStep> = Vec::new();
    let mut i: usize = 0;
    while i < n
        invariant
            i <= n,
            n == steps@.len(),
            out@.len() == i,
            forall|j: int|
                0 <= j < i ==> android_resolved_matches(steps@[j], #[trigger] out@[j]),
        decreases n - i,
    {
        let resolved = match &steps[i] {
            AndroidNormalStep::AndroidElementStep { selector, actions } => {
                let query = get_android_element_by(selector.clone());
                let m = actions.len();
                let mut acts: Vec<ElementAction> = Vec::new();
                let mut k: usize = 0;
                while k < m
                    invariant
                        k <= m,
                        m == actions@.len(),
                        acts@.len() == k,
                        forall|j: int|
                            0 <= j < k ==> action_eq(actions@[j], #[trigger] acts@[j]),
                    decreases m - k,
                {
                    let a = match &actions[k] {
                        AndroidAction::AssertVisible =>
                            ElementAction::AssertVisible,
                        AndroidAction::TapOn => ElementAction::TapOn,
                        AndroidAction::ScrollUntilVisible =>
                            ElementAction::ScrollUntilVisible,
                        AndroidAction::InsertData { data } =>
                            ElementAction::InsertData { data: data.clone() },
                        AndroidAction::Pause(ms) => ElementAction::Pause {
                            millis: *ms,
                        },
                    };
                    acts.push(a);
                    k = k + 1;
                }
                ResolvedStep::Element { query, actions: acts }
            },
            AndroidNormalStep::ScreenshotStep { take_screenshot } => ResolvedStep::Screenshot {
                file_name: take_screenshot.clone(),
            },
            AndroidNormalStep::LogStep { log } => ResolvedStep::Log { message: log.clone() },
            AndroidNormalStep::Pause { pause } => ResolvedStep::Pause { millis: *pause },
        };
        out.push(resolved);
        i = i + 1;
    }
    out
}

/// How a resolved step realises an Android normal step: the selector is
/// resolved to its query, everything else carries over.
pub open spec fn android_resolved_matches(n: AndroidNormalStep, r: ResolvedStep) -> bool {
    match (n, r) {
        (
            AndroidNormalStep::AndroidElementStep { selector, actions },
            ResolvedStep::Element { query, actions: ra },
        ) => query@ == spec_android_query(selector) && ra@.len() == actions@.len() && forall|
            i: int,
        | 0 <= i < actions@.len() ==> action_eq(actions@[i], #[trigger] ra@[i]),
        (
            AndroidNormalStep::ScreenshotStep { take_screenshot },
            ResolvedStep::Screenshot { file_name },
        ) => file_name == take_screenshot,
        (AndroidNormalStep::LogStep { log }, ResolvedStep::Log { message }) => message == log,
        (AndroidNormalStep::Pause { pause }, ResolvedStep::Pause { millis }) => millis == pause,
        _ => false,
    }
}

/// How a resolved step realises an iOS normal step.
pub open spec fn ios_resolved_matches(n: IosNormalStep, r: ResolvedStep) -> bool {
    match (n, r) {
        (
            IosNormalStep::IosElementStep { selector, actions },
            ResolvedStep::Element { query, actions: ra },
        ) => query@ == spec_ios_query(selector) && ra@.len() == actions@.len() && forall|i: int|
            0 <= i < actions@.len() ==> ios_action_eq(actions@[i], #[trigger] ra@[i]),
        (
            IosNormalStep::ScreenshotStep { take_screenshot },
            ResolvedStep::Screenshot { file_name },
        ) => file_name == take_screenshot,
        (IosNormalStep::LogStep { log }, ResolvedStep::Log { message }) => message == log,
        (IosNormalStep::Pause { pause }, ResolvedStep::Pause { millis }) => millis == pause,
        _ => false,
    }
}

/// How an element action realises an iOS action.
pub open spec fn ios_action_eq(a: crate::ios::IosAction, b: ElementAction) -> bool {
    match (a, b) {
        (crate::ios::IosAction::AssertVisible, ElementAction::AssertVisible) => true,
        (crate::ios::IosAction::TapOn, ElementAction::TapOn) => true,
        (crate::ios::IosAction::ScrollUntilVisible, ElementAction::ScrollUntilVisible) => true,
        (
            crate::ios::IosAction::InsertData { data: d1 },
            ElementAction::InsertData { data: d2 },
        ) => d1 == d2,
        (crate::ios::IosAction::Pause(m1), ElementAction::Pause { millis: m2 }) => m1 == m2,
        _ => false,
    }
}

/// Resolves the iOS normal steps: each selector becomes its backend query,
/// actions and the other steps carry over unchanged.
pub fn resolve_ios_steps(steps: &Vec<IosNormalStep>) -> (r: Vec<ResolvedStep>)
    ensures
        r@.len() == steps@.len(),
        forall|i: int|
            0 <= i < steps@.len() ==> ios_resolved_matches(steps@[i], #[trigger] r@[i]),
{
    let n = steps.len();
    let mut out: Vec<ResolvedStep> = Vec::new();
    let mut i: usize = 0;
    while i < n
        invariant
            i <= n,
            n == steps@.len(),
            out@.len() == i,
            forall|j: int| 0 <= j < i ==> ios_resolved_matches(steps@[j], #[trigger] out@[j]),
        decreases n - i,
    {
        let resolved = match &steps[i] {
            IosNormalStep::IosElementStep { selector, actions } => {
                let query = get_ios_element_by(selector.clone());
                let m = actions.len();
                let mut acts: Vec<ElementAction> = Vec::new();
                let mut k: usize = 0;
                while k < m
                    invariant
                        k <= m,
                        m == actions@.len(),
                        acts@.len() == k,
                        forall|j: int|
                            0 <= j < k ==> ios_action_eq(actions@[j], #[trigger] acts@[j]),
                    decreases m - k,
                {
                    let a = match &actions[k] {
                        crate::ios::IosAction::AssertVisible => ElementAction::AssertVisible,
                        crate::ios::IosAction::TapOn => ElementAction::TapOn,
                        crate::ios::IosAction::ScrollUntilVisible =>
                            ElementAction::ScrollUntilVisible,
                        crate::ios::IosAction::InsertData { data } => ElementAction::InsertData {
                            data: data.clone(),
                        },
                        crate::ios::IosAction::Pause(ms) => ElementAction::Pause { millis: *ms },
                    };
                    acts.push(a);
                    k = k + 1;
                }
                ResolvedStep::Element { query, actions: acts }
            },
            IosNormalStep::ScreenshotStep { take_screenshot } => ResolvedStep::Screenshot {
                file_name: take_screenshot.clone(),
            },
            IosNormalStep::LogStep { log } => ResolvedStep::Log { message: log.clone() },
            IosNormalStep::Pause { pause } => ResolvedStep::Pause { millis: *pause },
        };
        out.push(resolved);
        i = i + 1;
    }
    out
}

} // verus!
