//! The placement policy: where a dump goes and with which permission bits.

use std::rc::Rc;
use vstd::cell::invcell::InvCell;
use vstd::predicate::Predicate;
use vstd::prelude::*;

verus! {

/// The permission bits a policy has until a script sets others: read access
/// for the owner and nothing else.
pub const DEFAULT_PERMISSIONS: u64 = 0o400;

/// What a policy script decided. An empty `output_path` means that the dump
/// is to be discarded.
#[derive(Clone, Debug, PartialEq, Eq)]
pub struct PlacementPolicy {
    pub output_path: String,
    pub permissions: u64,
}

/// A policy as a mathematical value.
pub struct PolicyView {
    pub output_path: Seq<char>,
    pub permissions: u64,
}

impl View for PlacementPolicy {
    type V = PolicyView;

    open spec fn view(&self) -> PolicyView {
        PolicyView { output_path: self.output_path@, permissions: self.permissions }
    }
}

/// The policy before any script has run.
pub open spec fn initial_policy() -> PolicyView {
    PolicyView { output_path: Seq::empty(), permissions: DEFAULT_PERMISSIONS }
}

/// The permission value that a script's integer stands for: the same 64 bits
/// read as an unsigned number.
pub open spec fn permissions_of(mode: i64) -> u64 {
    if mode >= 0 {
        mode as u64
    } else {
        (mode + 0x1_0000_0000_0000_0000) as u64
    }
}

impl PlacementPolicy {
    pub fn initial() -> (policy: PlacementPolicy)
        ensures
            policy@ == initial_policy(),
    {
        PlacementPolicy { output_path: String::new(), permissions: DEFAULT_PERMISSIONS }
    }

    /// The same policy with another output path.
    pub fn with_output_path(self, path: String) -> (policy: PlacementPolicy)
        ensures
            policy@ == (PolicyView { output_path: path@, permissions: self.permissions }),
    {
        PlacementPolicy { output_path: path, permissions: self.permissions }
    }

    /// The same policy with the permission bits that a script's integer gives.
    pub fn with_permissions(self, mode: i64) -> (policy: PlacementPolicy)
        ensures
            policy@ == (PolicyView {
                output_path: self.output_path@,
                permissions: permissions_of(mode),
            }),
    {
        assert(mode as u64 == permissions_of(mode)) by (bit_vector);
        PlacementPolicy { output_path: self.output_path, permissions: mode as u64 }
    }

    /// The same policy after one call of a script.
    pub fn with_setting(self, setting: &Setting) -> (policy: PlacementPolicy)
        ensures
            policy@ == apply(self@, setting@),
    {
        match setting {
            Setting::OutputPath { path } => self.with_output_path(path.clone()),
            Setting::Permissions { mode } => self.with_permissions(*mode),
        }
    }

    pub fn duplicate(&self) -> (policy: PlacementPolicy)
        ensures
            policy@ == self@,
    {
        PlacementPolicy { output_path: self.output_path.clone(), permissions: self.permissions }
    }
}

/// One call by which a script decides: the function called, with its argument.
#[derive(Clone, Debug, PartialEq, Eq)]
pub enum Setting {
    /// `set_output_path` was called with this path.
    OutputPath { path: String },
    /// `set_permissions` was called with this integer.
    Permissions { mode: i64 },
}

/// A setting as a mathematical value.
pub enum SettingView {
    OutputPath { path: Seq<char> },
    Permissions { mode: i64 },
}

impl View for Setting {
    type V = SettingView;

    open spec fn view(&self) -> SettingView {
        match self {
            Setting::OutputPath { path } => SettingView::OutputPath { path: path@ },
            Setting::Permissions { mode } => SettingView::Permissions { mode: *mode },
        }
    }
}

impl Setting {
    pub fn duplicate(&self) -> (copy: Setting)
        ensures
            copy@ == self@,
    {
        match self {
            Setting::OutputPath { path } => Setting::OutputPath { path: path.clone() },
            Setting::Permissions { mode } => Setting::Permissions { mode: *mode },
        }
    }
}

/// The views of a list of settings, in order.
pub open spec fn settings_view(settings: Seq<Setting>) -> Seq<SettingView> {
    Seq::new(settings.len(), |i: int| settings[i]@)
}

/// A policy after one setting: the setting overwrites its part of the policy
/// and leaves the other part as it was.
pub open spec fn apply(policy: PolicyView, setting: SettingView) -> PolicyView {
    match setting {
        SettingView::OutputPath { path } => PolicyView {
            output_path: path,
            permissions: policy.permissions,
        },
        SettingView::Permissions { mode } => PolicyView {
            output_path: policy.output_path,
            permissions: permissions_of(mode),
        },
    }
}

/// A policy after a list of settings, applied one after the other from the
/// first to the last.
pub open spec fn apply_all(start: PolicyView, settings: Seq<SettingView>) -> PolicyView
    decreases settings.len(),
{
    if settings.len() == 0 {
        start
    } else {
        apply(apply_all(start, settings.drop_last()), settings.last())
    }
}

/// Works out the policy that a script decided on, from the calls it made:
/// the initial policy, with every setting applied in the order of the calls.
pub fn accumulate(settings: &Vec<Setting>) -> (policy: PlacementPolicy)
    ensures
        policy@ == apply_all(initial_policy(), settings_view(settings@)),
{
    let mut policy = PlacementPolicy::initial();
    let mut i: usize = 0;
    while i < settings.len()
        invariant
            i <= settings.len(),
            policy@ == apply_all(initial_policy(), settings_view(settings@).take(i as int)),
        decreases settings.len() - i,
    {
        assert(settings_view(settings@).take(i + 1).drop_last() =~= settings_view(settings@).take(
            i as int,
        ));
        policy = policy.with_setting(&settings[i]);
        i += 1;
    }
    assert(settings_view(settings@).take(i as int) =~= settings_view(settings@));
    policy
}

/// Copies a list of settings.
pub fn duplicate_settings(settings: &Vec<Setting>) -> (copy: Vec<Setting>)
    ensures
        settings_view(copy@) == settings_view(settings@),
{
    let mut copy: Vec<Setting> = Vec::new();
    let mut i: usize = 0;
    while i < settings.len()
        invariant
            i <= settings.len(),
            settings_view(copy@) =~= settings_view(settings@).take(i as int),
        decreases settings.len() - i,
    {
        let ghost before = copy@;
        copy.push(settings[i].duplicate());
        assert(settings_view(copy@) =~= settings_view(before).push(settings@[i as int]@));
        i += 1;
    }
    copy
}

/// The rule for what an accumulator may hold: any list of settings at all.
pub struct AnySettings {}

impl Predicate<Vec<Setting>> for AnySettings {
    open spec fn predicate(&self, v: Vec<Setting>) -> bool {
        true
    }
}

/// The policy under construction while a script runs: the list of the
/// settings made so far, in the order in which they were made. Every handle
/// made by `share` records into the same list, so the functions handed to
/// the script engine and the reader after the run meet in one place.
pub struct PolicyCell {
    cell: Rc<InvCell<Vec<Setting>, AnySettings>>,
}

impl PolicyCell {
    /// A fresh accumulator, in which nothing is set yet.
    pub fn new() -> PolicyCell {
        PolicyCell { cell: Rc::new(InvCell::new(Vec::new(), Ghost(AnySettings {}))) }
    }

    /// Another handle on the same list.
    pub fn share(&self) -> (shared: PolicyCell)
        ensures
            shared.same_cell(self),
    {
        PolicyCell { cell: another_pointer(&self.cell) }
    }

    /// Records one more setting after those made so far.
    pub fn record(&self, setting: Setting) {
        let mut settings = self.cell.replace(Vec::new());
        settings.push(setting);
        self.cell.set(settings);
    }

    /// Records a call of `set_output_path`.
    pub fn set_output_path(&self, path: String) {
        self.record(Setting::OutputPath { path });
    }

    /// Records a call of `set_permissions`.
    pub fn set_permissions(&self, mode: i64) {
        self.record(Setting::Permissions { mode });
    }

    /// The settings made so far, in order.
    pub fn snapshot(&self) -> Vec<Setting> {
        let settings = self.cell.replace(Vec::new());
        let copy = duplicate_settings(&settings);
        self.cell.set(settings);
        copy
    }

    /// Whether two handles are on one and the same list, so that what is
    /// recorded through either shows through both.
    pub closed spec fn same_cell(&self, other: &PolicyCell) -> bool {
        self.cell == other.cell
    }
}

/// Being on the same list is an equivalence: a handle is on its own list,
/// and handles shared from shared handles are all on the list of the first.
pub proof fn lemma_same_cell_is_equivalence(a: PolicyCell, b: PolicyCell, c: PolicyCell)
    ensures
        a.same_cell(&a),
        a.same_cell(&b) ==> b.same_cell(&a),
        a.same_cell(&b) && b.same_cell(&c) ==> a.same_cell(&c),
{
}

/// Calls `Rc::clone` of the standard library, which makes another pointer to
/// the same allocation: the result points to what `pointer` points to.
#[verifier::external_body]
fn another_pointer<T>(pointer: &Rc<T>) -> (other: Rc<T>)
    ensures
        other == *pointer,
{
    pointer.clone()
}

} // verus!
