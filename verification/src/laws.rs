//! What holds of every crash, whatever the arguments, the user database and
//! the policy script say.

use crate::error::ErrorView;
use crate::pipeline::{
    after_script, failure, next_step, proceed, runs_script, script_may_yield, success, ActionView,
    EventView, StageView,
};
use crate::policy::{apply, apply_all, initial_policy, permissions_of, PolicyView, SettingView};
use crate::request::RequestView;
use crate::text::{base_name, first_line_len, last_slash, restore_slashes, without_shebang};
use crate::writer::{
    creation_mask, plan_for, touches_output, StepView, BASELINE_MASK, MODE_LIMIT,
};
use vstd::prelude::*;

verus! {

/// Whether an action makes or changes the output file.
pub open spec fn writes_output(action: ActionView) -> bool {
    action matches ActionView::Write { step } && touches_output(step)
}

/// Whether a stage still holds a step that makes or changes the output file.
pub open spec fn output_ahead(stage: StageView) -> bool {
    stage matches StageView::Writing { pending, .. } && exists|i: int|
        0 <= i < pending.len() && touches_output(#[trigger] pending[i])
}

/// Whether the policy is still unknown at a stage: the script has not run.
pub open spec fn before_policy(stage: StageView) -> bool {
    stage is AwaitingArguments || stage is DroppingPrivileges || stage is ResolvingIdentity
        || stage is LoadingScript
}

/// A core limit of 0 or 1 ends the work with success as soon as the
/// arguments are read: the handler asks for no change of user, no script and
/// no step of writing.
pub proof fn lemma_no_dump_wanted(request: RequestView)
    requires
        request.core_limit <= 1,
    ensures
        next_step(StageView::AwaitingArguments, EventView::Invoked { arguments: Ok(request) })
            == success(),
{
}

/// With any other core limit the first thing asked for is the change of
/// user, to the user of the crashed process.
pub proof fn lemma_privileges_drop_first(request: RequestView)
    requires
        request.core_limit > 1,
    ensures
        next_step(
            StageView::AwaitingArguments,
            EventView::Invoked { arguments: Ok(request) },
        ).1 == (ActionView::DropPrivileges { uid: request.uid }),
{
}

/// Once the work is over it stays over: whatever is reported then, the
/// handler asks for nothing more.
pub proof fn lemma_finished_is_final(event: EventView)
    ensures
        next_step(StageView::Finished, event) == failure(ErrorView::OutOfTurn),
{
}

/// A user that the user database does not know ends the work with an
/// `IdentityLookup` error that names the user; the script is never asked for.
pub proof fn lemma_unknown_user(request: RequestView, detail: Seq<char>)
    ensures
        next_step(
            StageView::ResolvingIdentity { request },
            EventView::IdentityResolved { lookup: Err(detail) },
        ) == failure(ErrorView::IdentityLookup { uid: request.uid, detail }),
{
}

/// While the policy is unknown, no step of writing is asked for and none is
/// held ready, whatever is reported, unless the report is the script's text
/// and the script then runs.
pub proof fn lemma_nothing_written_before_policy(stage: StageView, event: EventView)
    requires
        before_policy(stage),
        !runs_script(stage, event),
    ensures
        !(next_step(stage, event).1 is Write),
        !(next_step(stage, event).0 is Writing),
        before_policy(next_step(stage, event).0) || next_step(stage, event).0 is Finished,
{
}

/// A script that stops with an error ends the work with that error, a
/// `PolicyScript` error, whatever the script had set before: no step of
/// writing is asked for.
pub proof fn lemma_failed_script_writes_nothing(
    core_limit: u64,
    outcome: Result<PolicyView, ErrorView>,
)
    requires
        script_may_yield(outcome),
        outcome is Err,
    ensures
        after_script(core_limit, outcome) == failure(outcome->Err_0),
        outcome->Err_0 is PolicyScript,
{
}

/// A policy without an output path ends the work with success: the plan for
/// it is empty, and no step of writing is asked for.
pub proof fn lemma_discarded_dump(policy: PolicyView, core_limit: u64, parent: Option<Seq<char>>)
    requires
        policy.output_path.len() == 0,
    ensures
        plan_for(policy, core_limit, parent).steps.len() == 0,
        plan_for(policy, core_limit, parent).verdict is None,
        after_script(core_limit, Ok(policy)) == success(),
{
}

/// Permission bits that no file mode can hold end the plan with
/// `InvalidPermissions`, which cites them, and no step of the plan makes or
/// changes the output file.
pub proof fn lemma_oversized_mode_makes_no_file(
    policy: PolicyView,
    core_limit: u64,
    parent: Option<Seq<char>>,
)
    requires
        policy.output_path.len() > 0,
        policy.permissions > MODE_LIMIT,
    ensures
        plan_for(policy, core_limit, parent).verdict == Some(
            ErrorView::InvalidPermissions { value: policy.permissions },
        ),
        forall|i: int|
            0 <= i < plan_for(policy, core_limit, parent).steps.len() ==> !touches_output(
                #[trigger] plan_for(policy, core_limit, parent).steps[i],
            ),
{
}

/// The handler with such a policy: what follows the script neither asks for
/// the output file nor holds a step ready that would.
pub proof fn lemma_oversized_mode_after_script(policy: PolicyView, core_limit: u64)
    requires
        policy.output_path.len() > 0,
        policy.permissions > MODE_LIMIT,
    ensures
        !writes_output(after_script(core_limit, Ok(policy)).1),
        !output_ahead(after_script(core_limit, Ok(policy)).0),
{
}

/// A handler that holds no step for the output file never asks for one:
/// while writing, or once finished, the next action leaves the output file
/// alone, and the next stage again holds no step for it.
pub proof fn lemma_output_stays_untouched(stage: StageView, event: EventView)
    requires
        stage is Writing || stage is Finished,
        !output_ahead(stage),
    ensures
        !writes_output(next_step(stage, event).1),
        !output_ahead(next_step(stage, event).0),
        next_step(stage, event).0 is Writing || next_step(stage, event).0 is Finished,
{
    if let StageView::Writing { pending, verdict, .. } = stage {
        if event matches EventView::StepDone { outcome: Ok(_) } {
            if pending.len() > 0 {
                assert(!touches_output(pending[0]));
                let rest = pending.drop_first();
                assert forall|i: int| 0 <= i < rest.len() implies !touches_output(
                    #[trigger] rest[i],
                ) by {
                    assert(rest[i] == pending[i + 1]);
                }
            }
        }
    }
}

/// The steps of a plan are asked for one by one, in the order of the plan: a
/// step that went well is followed by the first of those left.
pub proof fn lemma_steps_in_order(
    current: crate::error::WriteStage,
    pending: Seq<StepView>,
    verdict: Option<ErrorView>,
)
    requires
        pending.len() > 0,
    ensures
        next_step(
            StageView::Writing { current, pending, verdict },
            EventView::StepDone { outcome: Ok(()) },
        ).1 == (ActionView::Write { step: pending[0] }),
{
}

/// A step that fails ends the work with a `Write` error that says which part
/// of writing it was; nothing that was still to come is asked for.
pub proof fn lemma_failed_step_ends_work(
    current: crate::error::WriteStage,
    pending: Seq<StepView>,
    verdict: Option<ErrorView>,
    detail: Seq<char>,
)
    ensures
        next_step(
            StageView::Writing { current, pending, verdict },
            EventView::StepDone { outcome: Err(detail) },
        ) == failure(ErrorView::Write { stage: current, detail }),
{
}

/// Nothing reaches the policy script before the change of user: the script
/// is asked for only on the answer of the user database, and the user
/// database is asked only once the change of user has succeeded.
pub proof fn lemma_script_follows_privilege_drop(stage: StageView, event: EventView)
    requires
        !runs_script(stage, event),
    ensures
        next_step(stage, event).1 is LoadScript ==> stage is ResolvingIdentity,
        next_step(stage, event).0 is LoadingScript ==> stage is ResolvingIdentity,
        next_step(stage, event).1 is ResolveIdentity ==> stage is DroppingPrivileges
            && event matches EventView::PrivilegesDropped { outcome: Ok(_) },
        next_step(stage, event).1 is Write ==> stage is Writing,
{
}

/// In every plan the file-creation mask is set just before what it protects:
/// the baseline mask just before the directories are made, and the
/// complement of the mode just before the output file is opened. The file is
/// opened once, for the path of the policy, and only the copy, with the core
/// limit as its limit, comes after the permission bits are set on it.
pub proof fn lemma_mask_precedes_what_it_protects(
    policy: PolicyView,
    core_limit: u64,
    parent: Option<Seq<char>>,
    i: int,
)
    requires
        0 <= i < plan_for(policy, core_limit, parent).steps.len(),
    ensures
        plan_for(policy, core_limit, parent).steps[i] is CreateDirectories ==> i > 0 && plan_for(
            policy,
            core_limit,
            parent,
        ).steps[i - 1] == (StepView::SetCreationMask { mask: BASELINE_MASK }),
        plan_for(policy, core_limit, parent).steps[i] is OpenOutput ==> {
            let steps = plan_for(policy, core_limit, parent).steps;
            &&& policy.permissions <= MODE_LIMIT
            &&& i > 0
            &&& i + 3 == steps.len()
            &&& steps[i - 1] == (StepView::SetCreationMask {
                mask: creation_mask(policy.permissions as u16),
            })
            &&& steps[i] == (StepView::OpenOutput { path: policy.output_path })
            &&& steps[i + 1] == (StepView::SetPermissions {
                path: policy.output_path,
                mode: policy.permissions as u32,
            })
            &&& steps[i + 2] == (StepView::CopyInput { limit: core_limit })
        },
{
}

/// A file made with mode `mode` under the mask for that mode has every bit of
/// the mode: the mask takes none of them away.
pub proof fn lemma_mask_keeps_mode(mode: u16)
    ensures
        (mode as u32) & !creation_mask(mode) == mode as u32,
        (mode as u32) & creation_mask(mode) == 0,
{
    let m: u32 = mode as u32;
    assert(m & !(!m) == m && m & !m == 0) by (bit_vector);
}

/// A decoded path holds no `!`, and is as long as the encoded one.
pub proof fn lemma_decoded_has_no_mark(encoded: Seq<char>)
    ensures
        restore_slashes(encoded).len() == encoded.len(),
        !restore_slashes(encoded).contains('!'),
{
}

/// A path without `!` is its own decoding.
pub proof fn lemma_decoding_keeps_plain_paths(path: Seq<char>)
    requires
        !path.contains('!'),
    ensures
        restore_slashes(path) == path,
{
    assert forall|i: int| 0 <= i < path.len() implies path[i] != '!' by {
        if path[i] == '!' {
            assert(path.contains('!'));
        }
    }
    assert(restore_slashes(path) =~= path);
}

/// The last `/` of a path, where it has one, is a `/`, and none comes after it.
pub proof fn lemma_last_slash(path: Seq<char>)
    ensures
        -1 <= last_slash(path) < path.len(),
        last_slash(path) >= 0 ==> path[last_slash(path)] == '/',
        forall|i: int| last_slash(path) < i < path.len() ==> path[i] != '/',
    decreases path.len(),
{
    if path.len() > 0 && path.last() != '/' {
        let front = path.drop_last();
        lemma_last_slash(front);
        assert forall|i: int| last_slash(path) < i < path.len() implies path[i] != '/' by {
            if i < front.len() {
                assert(front[i] == path[i]);
            }
        }
    }
}

/// The name of an executable holds no `/`; and a path that holds a `/` is
/// what stands up to its last `/`, followed by the name.
pub proof fn lemma_base_name(path: Seq<char>)
    ensures
        !base_name(path).contains('/'),
        path.contains('/') ==> path == path.take(last_slash(path) + 1) + base_name(path),
        !path.contains('/') ==> base_name(path).len() == 0,
{
    lemma_last_slash(path);
    let k: int = last_slash(path);
    if k >= 0 {
        assert(path =~= path.take(k + 1) + path.skip(k + 1));
    } else {
        if path.contains('/') {
            let i: int = choose|i: int| 0 <= i < path.len() && path[i] == '/';
            assert(path[i] != '/');
        }
    }
    if base_name(path).contains('/') {
        let name = base_name(path);
        let i: int = choose|i: int| 0 <= i < name.len() && name[i] == '/';
        assert(name[i] == path[k + 1 + i]);
    }
}

/// The first line of a text ends within the text, at a line break or at the
/// end, and holds no line break itself.
pub proof fn lemma_first_line(text: Seq<char>)
    ensures
        first_line_len(text) <= text.len(),
        first_line_len(text) < text.len() ==> text[first_line_len(text) as int] == '\n',
        forall|i: int| 0 <= i < first_line_len(text) ==> text[i] != '\n',
    decreases text.len(),
{
    if text.len() > 0 && text[0] != '\n' {
        let rest = text.drop_first();
        lemma_first_line(rest);
        assert forall|i: int| 0 <= i < first_line_len(text) implies text[i] != '\n' by {
            if i > 0 {
                assert(rest[i - 1] == text[i]);
            }
        }
    }
}

/// Removing the interpreter line keeps the rest of the script as it was: what
/// is left is the end of the text, from its first line break on where the
/// text starts with `#!`, and all of it otherwise. So every line keeps its
/// number.
pub proof fn lemma_shebang_keeps_the_rest(text: Seq<char>)
    ensures
        without_shebang(text).len() <= text.len(),
        without_shebang(text) == text.skip(text.len() - without_shebang(text).len()),
        without_shebang(text).len() > 0 && without_shebang(text) != text ==> without_shebang(
            text,
        )[0] == '\n',
{
    lemma_first_line(text);
    assert(text.skip(0) =~= text);
}

/// A script that sets nothing decides on the initial policy: no output
/// path, so the dump is discarded, and read access for the owner alone.
pub proof fn lemma_nothing_set_is_initial_policy()
    ensures
        apply_all(initial_policy(), Seq::empty()) == initial_policy(),
        initial_policy().output_path.len() == 0,
        initial_policy().permissions == 0o400,
{
}

/// One more setting after others changes the policy that the others gave,
/// and nothing before it.
pub proof fn lemma_setting_after_settings(
    start: PolicyView,
    settings: Seq<SettingView>,
    last: SettingView,
)
    ensures
        apply_all(start, settings.push(last)) == apply(apply_all(start, settings), last),
{
    assert(settings.push(last).drop_last() =~= settings);
}

/// Of the calls of `set_output_path` the last counts: the policy has the
/// path of the call after which no other call sets a path.
pub proof fn lemma_last_path_counts(start: PolicyView, settings: Seq<SettingView>, i: int)
    requires
        0 <= i < settings.len(),
        settings[i] is OutputPath,
        forall|j: int| i < j < settings.len() ==> !(#[trigger] settings[j] is OutputPath),
    ensures
        apply_all(start, settings).output_path == settings[i]->path,
    decreases settings.len(),
{
    if i < settings.len() - 1 {
        let front = settings.drop_last();
        assert(!(settings[settings.len() - 1] is OutputPath));
        assert forall|j: int| i < j < front.len() implies !(#[trigger] front[j] is OutputPath) by {
            assert(front[j] == settings[j]);
        }
        lemma_last_path_counts(start, front, i);
    }
}

/// Of the calls of `set_permissions` the last counts: the policy has the
/// permission bits that the integer of that call stands for.
pub proof fn lemma_last_permissions_count(start: PolicyView, settings: Seq<SettingView>, i: int)
    requires
        0 <= i < settings.len(),
        settings[i] is Permissions,
        forall|j: int| i < j < settings.len() ==> !(#[trigger] settings[j] is Permissions),
    ensures
        apply_all(start, settings).permissions == permissions_of(settings[i]->mode),
    decreases settings.len(),
{
    if i < settings.len() - 1 {
        let front = settings.drop_last();
        assert(!(settings[settings.len() - 1] is Permissions));
        assert forall|j: int| i < j < front.len() implies !(#[trigger] front[j] is Permissions) by {
            assert(front[j] == settings[j]);
        }
        lemma_last_permissions_count(start, front, i);
    }
}

/// A script that never calls `set_output_path` leaves the path as it was:
/// from the initial policy, the dump is discarded whatever else is set.
pub proof fn lemma_unset_path_stays(start: PolicyView, settings: Seq<SettingView>)
    requires
        forall|j: int| 0 <= j < settings.len() ==> !(#[trigger] settings[j] is OutputPath),
    ensures
        apply_all(start, settings).output_path == start.output_path,
    decreases settings.len(),
{
    if settings.len() > 0 {
        let front = settings.drop_last();
        assert(!(settings[settings.len() - 1] is OutputPath));
        assert forall|j: int| 0 <= j < front.len() implies !(#[trigger] front[j] is OutputPath) by {
            assert(front[j] == settings[j]);
        }
        lemma_unset_path_stays(start, front);
    }
}

/// A script that never calls `set_permissions` leaves the permission bits as
/// they were: from the initial policy, a script that sets only the path
/// keeps read access for the owner alone.
pub proof fn lemma_unset_permissions_stay(start: PolicyView, settings: Seq<SettingView>)
    requires
        forall|j: int| 0 <= j < settings.len() ==> !(#[trigger] settings[j] is Permissions),
    ensures
        apply_all(start, settings).permissions == start.permissions,
    decreases settings.len(),
{
    if settings.len() > 0 {
        let front = settings.drop_last();
        assert(!(settings[settings.len() - 1] is Permissions));
        assert forall|j: int| 0 <= j < front.len() implies !(#[trigger] front[j] is Permissions) by {
            assert(front[j] == settings[j]);
        }
        lemma_unset_permissions_stay(start, front);
    }
}

} // verus!
