//! The steps that write a dump where a policy wants it, with exactly the
//! permission bits it wants.

use crate::error::{ErrorView, PipelineError, WriteStage};
use crate::paths::{parent_directory, parent_of};
use crate::policy::{PlacementPolicy, PolicyView};
use vstd::prelude::*;

verus! {

/// The file-creation mask under which directories are made: nothing that is
/// created is writable by the group or by others.
pub const BASELINE_MASK: u32 = 0o022;

/// The largest number that a file mode can hold.
pub const MODE_LIMIT: u64 = 0xFFFF;

/// One thing that the writer wants done to the file system or to the process.
#[derive(Clone, Debug, PartialEq, Eq)]
pub enum WriteStep {
    /// Set the file-creation mask of the process.
    SetCreationMask { mask: u32 },
    /// Create a directory and every missing directory above it; succeed where
    /// it is already there.
    CreateDirectories { path: String },
    /// Open a file for writing: create it where it is missing, empty it where
    /// it is there. It takes what `CopyInput` copies.
    OpenOutput { path: String },
    /// Set the permission bits of a file.
    SetPermissions { path: String, mode: u32 },
    /// Copy standard input to the open file, and stop after `limit` bytes.
    CopyInput { limit: u64 },
}

/// A step as a mathematical value.
pub enum StepView {
    SetCreationMask { mask: u32 },
    CreateDirectories { path: Seq<char> },
    OpenOutput { path: Seq<char> },
    SetPermissions { path: Seq<char>, mode: u32 },
    CopyInput { limit: u64 },
}

impl View for WriteStep {
    type V = StepView;

    open spec fn view(&self) -> StepView {
        match self {
            WriteStep::SetCreationMask { mask } => StepView::SetCreationMask { mask: *mask },
            WriteStep::CreateDirectories { path } => StepView::CreateDirectories { path: path@ },
            WriteStep::OpenOutput { path } => StepView::OpenOutput { path: path@ },
            WriteStep::SetPermissions { path, mode } => StepView::SetPermissions {
                path: path@,
                mode: *mode,
            },
            WriteStep::CopyInput { limit } => StepView::CopyInput { limit: *limit },
        }
    }
}

/// Which part of writing a step belongs to.
pub open spec fn stage_of(step: StepView) -> WriteStage {
    match step {
        StepView::SetCreationMask { .. } => WriteStage::Mask,
        StepView::CreateDirectories { .. } => WriteStage::Directories,
        StepView::OpenOutput { .. } => WriteStage::Open,
        StepView::SetPermissions { .. } => WriteStage::Permissions,
        StepView::CopyInput { .. } => WriteStage::Copy,
    }
}

/// Whether a step makes or changes the output file itself.
pub open spec fn touches_output(step: StepView) -> bool {
    step is OpenOutput || step is SetPermissions || step is CopyInput
}

impl WriteStep {
    pub fn stage(&self) -> (stage: WriteStage)
        ensures
            stage == stage_of(self@),
    {
        match self {
            WriteStep::SetCreationMask { .. } => WriteStage::Mask,
            WriteStep::CreateDirectories { .. } => WriteStage::Directories,
            WriteStep::OpenOutput { .. } => WriteStage::Open,
            WriteStep::SetPermissions { .. } => WriteStage::Permissions,
            WriteStep::CopyInput { .. } => WriteStage::Copy,
        }
    }
}

/// What to do for one dump: the steps, in order, and how the work ends once
/// every step has succeeded. A step that fails ends the work at once.
#[derive(Clone, Debug, PartialEq, Eq)]
pub struct WritePlan {
    pub steps: Vec<WriteStep>,
    /// `None` where the work ends well; the error where it cannot go on.
    pub verdict: Option<PipelineError>,
}

/// A plan as a mathematical value.
pub struct PlanView {
    pub steps: Seq<StepView>,
    pub verdict: Option<ErrorView>,
}

/// The views of a list of steps, in order.
pub open spec fn steps_view(steps: Seq<WriteStep>) -> Seq<StepView> {
    Seq::new(steps.len(), |i: int| steps[i]@)
}

impl View for WritePlan {
    type V = PlanView;

    open spec fn view(&self) -> PlanView {
        PlanView {
            steps: steps_view(self.steps@),
            verdict: match self.verdict {
                Some(error) => Some(error@),
                None => None,
            },
        }
    }
}

/// The file-creation mask under which a file gets every bit of `mode`: the
/// complement of the mode, bit by bit.
pub open spec fn creation_mask(mode: u16) -> u32 {
    !(mode as u32)
}

/// What comes before the output file is touched: the baseline mask, then the
/// directories above the file, where its path names any.
pub open spec fn preparation(parent: Option<Seq<char>>) -> Seq<StepView> {
    match parent {
        Some(dir) => seq![
            StepView::SetCreationMask { mask: BASELINE_MASK },
            StepView::CreateDirectories { path: dir },
        ],
        None => seq![StepView::SetCreationMask { mask: BASELINE_MASK }],
    }
}

/// What makes the file and fills it, once the mode is known to fit.
pub open spec fn production(path: Seq<char>, mode: u16, core_limit: u64) -> Seq<StepView> {
    seq![
        StepView::SetCreationMask { mask: creation_mask(mode) },
        StepView::OpenOutput { path },
        StepView::SetPermissions { path, mode: mode as u32 },
        StepView::CopyInput { limit: core_limit },
    ]
}

/// The plan for a policy, given the directory above its output path.
///
/// A policy without an output path asks for nothing. Any other policy has the
/// directories made under the baseline mask first. Only then are its
/// permission bits looked at: bits that no file mode can hold end the work
/// with `InvalidPermissions`, before the file is touched. Bits that fit are
/// made the complement of the mask just before the file is created, and are
/// set on the file once more after that; the copy comes last.
pub open spec fn plan_for(policy: PolicyView, core_limit: u64, parent: Option<Seq<char>>) -> PlanView {
    if policy.output_path.len() == 0 {
        PlanView { steps: Seq::empty(), verdict: None }
    } else if policy.permissions > MODE_LIMIT {
        PlanView {
            steps: preparation(parent),
            verdict: Some(ErrorView::InvalidPermissions { value: policy.permissions }),
        }
    } else {
        PlanView {
            steps: preparation(parent) + production(
                policy.output_path,
                policy.permissions as u16,
                core_limit,
            ),
            verdict: None,
        }
    }
}

/// A directory that may be missing, as a mathematical value.
pub open spec fn directory_view(directory: Option<String>) -> Option<Seq<char>> {
    match directory {
        Some(dir) => Some(dir@),
        None => None,
    }
}

/// Plans the writing of a dump, given the directory above the output path.
pub fn write_plan(config: &PlacementPolicy, core_limit: u64, parent: Option<String>) -> (plan:
    WritePlan)
    ensures
        plan@ == plan_for(config@, core_limit, directory_view(parent)),
{
    let mut steps: Vec<WriteStep> = Vec::new();
    if config.output_path.as_str().is_empty() {
        let plan = WritePlan { steps, verdict: None };
        assert(plan@.steps =~= Seq::empty());
        return plan;
    }
    steps.push(WriteStep::SetCreationMask { mask: BASELINE_MASK });
    let ghost parent_view = directory_view(parent);
    match parent {
        Some(dir) => {
            steps.push(WriteStep::CreateDirectories { path: dir });
        },
        None => {},
    }
    assert(steps_view(steps@) =~= preparation(parent_view));
    if config.permissions > MODE_LIMIT {
        return WritePlan {
            steps,
            verdict: Some(PipelineError::InvalidPermissions { value: config.permissions }),
        };
    }
    let mode: u16 = config.permissions as u16;
    let wide: u32 = mode as u32;
    steps.push(WriteStep::SetCreationMask { mask: !wide });
    steps.push(WriteStep::OpenOutput { path: config.output_path.clone() });
    steps.push(WriteStep::SetPermissions { path: config.output_path.clone(), mode: wide });
    steps.push(WriteStep::CopyInput { limit: core_limit });
    assert(steps_view(steps@) =~= preparation(parent_view) + production(
        config.output_path@,
        mode,
        core_limit,
    ));
    WritePlan { steps, verdict: None }
}

/// Plans the writing of a dump: which steps to take, in which order, and how
/// the work ends.
pub fn write_output(config: &PlacementPolicy, core_limit: u64) -> (plan: WritePlan)
    ensures
        plan@ == plan_for(config@, core_limit, parent_directory(config.output_path@)),
{
    let parent = parent_of(config.output_path.as_str());
    write_plan(config, core_limit, parent)
}

} // verus!
