//! The handling of one crash, step by step. The handler decides; a driver
//! does what the handler asks of the system and reports back.

use crate::error::{ErrorView, PipelineError, WriteStage};
use crate::paths::parent_directory;
use crate::policy::{PlacementPolicy, PolicyView};
use crate::request::{
    get_user_details, identity_of, set_uid, CrashRequest, Identity, IdentityView, PasswdEntry,
    RequestView,
};
use crate::script::run_script;
use crate::text::{exe_name, strip_shebang};
use crate::writer::{plan_for, stage_of, steps_view, write_output, StepView, WriteStep};
use vstd::prelude::*;

verus! {

/// How far the handling of a crash has come: what the handler waits for.
#[derive(Clone, Debug, PartialEq, Eq)]
pub enum Stage {
    /// Nothing has happened yet; the arguments are awaited.
    AwaitingArguments,
    /// The process was asked to become the user of the crashed process.
    DroppingPrivileges { request: CrashRequest },
    /// The user database was asked for the user.
    ResolvingIdentity { request: CrashRequest },
    /// The policy script was asked for.
    LoadingScript { request: CrashRequest, identity: Identity },
    /// A step of writing was asked for; `pending` come after it, and
    /// `verdict` ends the work after the last of them.
    Writing { current: WriteStage, pending: Vec<WriteStep>, verdict: Option<PipelineError> },
    /// The work is over.
    Finished,
}

/// What the driver reports: how the thing last asked for went.
#[derive(Debug, PartialEq, Eq)]
pub enum Event {
    /// The arguments of the program were read; `Err` holds what to show the
    /// operator where they were not those of a crash report.
    Invoked { arguments: Result<CrashRequest, String> },
    /// The change of user was tried.
    PrivilegesDropped { outcome: Result<(), String> },
    /// The user database answered.
    IdentityResolved { lookup: Result<PasswdEntry, String> },
    /// The policy script was read; `Ok` holds its text.
    ScriptLoaded { contents: Result<String, String> },
    /// A step of writing was tried.
    StepDone { outcome: Result<(), String> },
}

/// What the handler asks of the driver.
#[derive(Clone, Debug, PartialEq, Eq)]
pub enum Action {
    /// Make the process run as this user, for good.
    DropPrivileges { uid: u32 },
    /// Look this user up in the user database.
    ResolveIdentity { uid: u32 },
    /// Read the policy script at this path.
    LoadScript { path: String },
    /// Take a step of writing the dump.
    Write { step: WriteStep },
    /// Stop: all is done.
    Succeed,
    /// Stop and report the error.
    Fail { error: PipelineError },
}

pub enum StageView {
    AwaitingArguments,
    DroppingPrivileges { request: RequestView },
    ResolvingIdentity { request: RequestView },
    LoadingScript { request: RequestView, identity: IdentityView },
    Writing { current: WriteStage, pending: Seq<StepView>, verdict: Option<ErrorView> },
    Finished,
}

pub enum EventView {
    Invoked { arguments: Result<RequestView, Seq<char>> },
    PrivilegesDropped { outcome: Result<(), Seq<char>> },
    IdentityResolved { lookup: Result<(Seq<u8>, Seq<u8>), Seq<char>> },
    ScriptLoaded { contents: Result<Seq<char>, Seq<char>> },
    StepDone { outcome: Result<(), Seq<char>> },
}

pub enum ActionView {
    DropPrivileges { uid: u32 },
    ResolveIdentity { uid: u32 },
    LoadScript { path: Seq<char> },
    Write { step: StepView },
    Succeed,
    Fail { error: ErrorView },
}

/// An error that may be missing, as a mathematical value.
pub open spec fn verdict_view(verdict: Option<PipelineError>) -> Option<ErrorView> {
    match verdict {
        Some(error) => Some(error@),
        None => None,
    }
}

/// How a step went, as a mathematical value.
pub open spec fn outcome_view(outcome: Result<(), String>) -> Result<(), Seq<char>> {
    match outcome {
        Ok(_) => Ok(()),
        Err(detail) => Err(detail@),
    }
}

impl View for Stage {
    type V = StageView;

    open spec fn view(&self) -> StageView {
        match self {
            Stage::AwaitingArguments => StageView::AwaitingArguments,
            Stage::DroppingPrivileges { request } => StageView::DroppingPrivileges {
                request: request@,
            },
            Stage::ResolvingIdentity { request } => StageView::ResolvingIdentity {
                request: request@,
            },
            Stage::LoadingScript { request, identity } => StageView::LoadingScript {
                request: request@,
                identity: identity@,
            },
            Stage::Writing { current, pending, verdict } => StageView::Writing {
                current: *current,
                pending: steps_view(pending@),
                verdict: verdict_view(*verdict),
            },
            Stage::Finished => StageView::Finished,
        }
    }
}

impl View for Event {
    type V = EventView;

    open spec fn view(&self) -> EventView {
        match self {
            Event::Invoked { arguments } => EventView::Invoked {
                arguments: match arguments {
                    Ok(request) => Ok(request@),
                    Err(output) => Err(output@),
                },
            },
            Event::PrivilegesDropped { outcome } => EventView::PrivilegesDropped {
                outcome: outcome_view(*outcome),
            },
            Event::IdentityResolved { lookup } => EventView::IdentityResolved {
                lookup: match lookup {
                    Ok(entry) => Ok((entry.name@, entry.dir@)),
                    Err(detail) => Err(detail@),
                },
            },
            Event::ScriptLoaded { contents } => EventView::ScriptLoaded {
                contents: match contents {
                    Ok(text) => Ok(text@),
                    Err(detail) => Err(detail@),
                },
            },
            Event::StepDone { outcome } => EventView::StepDone { outcome: outcome_view(*outcome) },
        }
    }
}

impl View for Action {
    type V = ActionView;

    open spec fn view(&self) -> ActionView {
        match self {
            Action::DropPrivileges { uid } => ActionView::DropPrivileges { uid: *uid },
            Action::ResolveIdentity { uid } => ActionView::ResolveIdentity { uid: *uid },
            Action::LoadScript { path } => ActionView::LoadScript { path: path@ },
            Action::Write { step } => ActionView::Write { step: step@ },
            Action::Succeed => ActionView::Succeed,
            Action::Fail { error } => ActionView::Fail { error: error@ },
        }
    }
}

/// The end of the work with an error.
pub open spec fn failure(error: ErrorView) -> (StageView, ActionView) {
    (StageView::Finished, ActionView::Fail { error })
}

/// The end of the work without one.
pub open spec fn success() -> (StageView, ActionView) {
    (StageView::Finished, ActionView::Succeed)
}

/// What follows the reading of the arguments. A limit of 0 or 1 ends the
/// work at once, before anything is asked of the system; any other limit
/// makes the change of user the first thing asked.
pub open spec fn begin(request: RequestView) -> (StageView, ActionView) {
    if request.core_limit <= 1 {
        success()
    } else {
        (
            StageView::DroppingPrivileges { request },
            ActionView::DropPrivileges { uid: request.uid },
        )
    }
}

/// What follows when the steps in `pending` are still to be taken: the first
/// of them, or the verdict where none is left.
pub open spec fn proceed(pending: Seq<StepView>, verdict: Option<ErrorView>) -> (
    StageView,
    ActionView,
) {
    if pending.len() > 0 {
        (
            StageView::Writing {
                current: stage_of(pending[0]),
                pending: pending.drop_first(),
                verdict,
            },
            ActionView::Write { step: pending[0] },
        )
    } else {
        match verdict {
            Some(error) => failure(error),
            None => success(),
        }
    }
}

/// What follows the run of the policy script. A script that failed ends the
/// work; a policy is planned for, and the first step of the plan is asked.
pub open spec fn after_script(core_limit: u64, outcome: Result<PolicyView, ErrorView>) -> (
    StageView,
    ActionView,
) {
    match outcome {
        Err(error) => failure(error),
        Ok(policy) => {
            let plan = plan_for(policy, core_limit, parent_directory(policy.output_path));
            proceed(plan.steps, plan.verdict)
        },
    }
}

/// Whether a report makes the handler run the policy script. What follows
/// then is for the script to decide; what follows any other report is fixed.
pub open spec fn runs_script(stage: StageView, event: EventView) -> bool {
    stage is LoadingScript && event matches EventView::ScriptLoaded { contents: Ok(_) }
}

/// What follows a report that does not make the handler run the script.
///
/// The order is fixed: arguments, change of user, user database, policy
/// script, then the steps of writing one by one. A failure at any point ends
/// the work with the error of that point, and so does a report that the
/// handler was not waiting for.
pub open spec fn next_step(stage: StageView, event: EventView) -> (StageView, ActionView) {
    match (stage, event) {
        (StageView::AwaitingArguments, EventView::Invoked { arguments: Ok(request) }) => begin(
            request,
        ),
        (StageView::AwaitingArguments, EventView::Invoked { arguments: Err(output) }) => failure(
            ErrorView::Usage { output },
        ),
        (
            StageView::DroppingPrivileges { request },
            EventView::PrivilegesDropped { outcome: Ok(_) },
        ) => (
            StageView::ResolvingIdentity { request },
            ActionView::ResolveIdentity { uid: request.uid },
        ),
        (
            StageView::DroppingPrivileges { request },
            EventView::PrivilegesDropped { outcome: Err(detail) },
        ) => failure(ErrorView::PrivilegeDrop { uid: request.uid, detail }),
        (
            StageView::ResolvingIdentity { request },
            EventView::IdentityResolved { lookup: Ok(entry) },
        ) => (
            StageView::LoadingScript { request, identity: identity_of(entry.0, entry.1) },
            ActionView::LoadScript { path: request.config_script_path },
        ),
        (
            StageView::ResolvingIdentity { request },
            EventView::IdentityResolved { lookup: Err(detail) },
        ) => failure(ErrorView::IdentityLookup { uid: request.uid, detail }),
        (
            StageView::LoadingScript { .. },
            EventView::ScriptLoaded { contents: Err(detail) },
        ) => failure(ErrorView::PolicyScript { detail }),
        (
            StageView::Writing { pending, verdict, .. },
            EventView::StepDone { outcome: Ok(_) },
        ) => proceed(pending, verdict),
        (
            StageView::Writing { current, .. },
            EventView::StepDone { outcome: Err(detail) },
        ) => failure(ErrorView::Write { stage: current, detail }),
        _ => failure(ErrorView::OutOfTurn),
    }
}

/// What the run of a script may yield: any policy, or a `PolicyScript` error.
pub open spec fn script_may_yield(outcome: Result<PolicyView, ErrorView>) -> bool {
    outcome matches Err(error) ==> error is PolicyScript
}

/// What a script yielded, as a mathematical value.
pub open spec fn script_outcome_view(outcome: Result<PlacementPolicy, PipelineError>) -> Result<
    PolicyView,
    ErrorView,
> {
    match outcome {
        Ok(policy) => Ok(policy@),
        Err(error) => Err(error@),
    }
}

fn fail(error: PipelineError) -> (next: (Stage, Action))
    ensures
        (next.0@, next.1@) == failure(error@),
{
    (Stage::Finished, Action::Fail { error })
}

/// Asks for the first of the steps that are left, or ends the work.
pub fn advance(pending: Vec<WriteStep>, verdict: Option<PipelineError>) -> (next: (Stage, Action))
    ensures
        (next.0@, next.1@) == proceed(steps_view(pending@), verdict_view(verdict)),
{
    let mut pending = pending;
    if pending.len() > 0 {
        let ghost before = pending@;
        let step = pending.remove(0);
        assert(steps_view(pending@) =~= steps_view(before).drop_first());
        (Stage::Writing { current: step.stage(), pending, verdict }, Action::Write { step })
    } else {
        match verdict {
            Some(error) => fail(error),
            None => (Stage::Finished, Action::Succeed),
        }
    }
}

/// Decides what follows the run of the policy script, given what it yielded.
pub fn follow_script(core_limit: u64, outcome: Result<PlacementPolicy, PipelineError>) -> (next: (
    Stage,
    Action,
))
    ensures
        (next.0@, next.1@) == after_script(core_limit, script_outcome_view(outcome)),
{
    match outcome {
        Err(error) => fail(error),
        Ok(policy) => {
            let plan = write_output(&policy, core_limit);
            advance(plan.steps, plan.verdict)
        },
    }
}

/// Takes the handling of a crash one step further: given what the handler
/// was waiting for and what the driver reports, says what the handler waits
/// for next and what the driver is to do.
///
/// The driver starts with `Stage::AwaitingArguments` and `Event::Invoked`,
/// does what each action asks, reports with the event for that action, and
/// stops at `Succeed` or `Fail`.
pub fn run(stage: Stage, event: Event) -> (next: (Stage, Action))
    ensures
        !runs_script(stage@, event@) ==> (next.0@, next.1@) == next_step(stage@, event@),
        runs_script(stage@, event@) ==> exists|outcome: Result<PolicyView, ErrorView>|
            #[trigger] script_may_yield(outcome) && (next.0@, next.1@) == after_script(
                stage@->LoadingScript_request.core_limit,
                outcome,
            ),
{
    match (stage, event) {
        (Stage::AwaitingArguments, Event::Invoked { arguments: Ok(request) }) => {
            if request.wants_no_dump() {
                (Stage::Finished, Action::Succeed)
            } else {
                let uid: u32 = request.uid;
                (Stage::DroppingPrivileges { request }, Action::DropPrivileges { uid })
            }
        },
        (Stage::AwaitingArguments, Event::Invoked { arguments: Err(output) }) => fail(
            PipelineError::Usage { output },
        ),
        (Stage::DroppingPrivileges { request }, Event::PrivilegesDropped { outcome }) => {
            let uid: u32 = request.uid;
            match set_uid(uid, outcome) {
                Ok(_) => (Stage::ResolvingIdentity { request }, Action::ResolveIdentity { uid }),
                Err(error) => fail(error),
            }
        },
        (Stage::ResolvingIdentity { request }, Event::IdentityResolved { lookup }) => {
            match get_user_details(request.uid, lookup) {
                Ok(identity) => {
                    let path = request.config_script_path.clone();
                    (Stage::LoadingScript { request, identity }, Action::LoadScript { path })
                },
                Err(error) => fail(error),
            }
        },
        (Stage::LoadingScript { request, identity }, Event::ScriptLoaded { contents: Ok(text) }) => {
            let full_exe = request.full_exe();
            let exe = exe_name(full_exe.as_str());
            let script = strip_shebang(text.as_str());
            let outcome = run_script(
                &request,
                full_exe.as_str(),
                exe.as_str(),
                &identity,
                script.as_str(),
            );
            assert(script_may_yield(script_outcome_view(outcome)));
            follow_script(request.core_limit, outcome)
        },
        (Stage::LoadingScript { .. }, Event::ScriptLoaded { contents: Err(detail) }) => fail(
            PipelineError::PolicyScript { detail },
        ),
        (Stage::Writing { pending, verdict, .. }, Event::StepDone { outcome: Ok(_) }) => advance(
            pending,
            verdict,
        ),
        (Stage::Writing { current, .. }, Event::StepDone { outcome: Err(detail) }) => fail(
            PipelineError::Write { stage: current, detail },
        ),
        _ => fail(PipelineError::OutOfTurn),
    }
}

} // verus!
