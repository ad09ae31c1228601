//! Running a policy script: what the script may call, and what its run yields.

use crate::error::{ErrorView, PipelineError};
use crate::policy::{
    accumulate, apply_all, initial_policy, settings_view, PlacementPolicy, PolicyCell, Setting,
};
use crate::request::{CrashRequest, Identity, IdentityView, RequestView};
use crate::text::{latin1, latin1_to_string};
use vstd::prelude::*;

verus! {

/// The script engine of the `rhai` crate. Nothing is known of what is in it.
#[verifier::external_type_specification]
#[verifier::external_body]
pub struct ExEngine(rhai::Engine);

/// The error with which a `rhai` script stops. Nothing is known of what is in
/// it but the text that `script_error_text` reads from it.
#[verifier::external_type_specification]
#[verifier::external_body]
pub struct ExEvalAltResult(rhai::EvalAltResult);

/// Calls `rhai::Engine::new`, which makes an engine with the language's
/// standard functions. Nothing is claimed of the engine.
#[verifier::external_body]
fn new_engine() -> rhai::Engine {
    rhai::Engine::new()
}

/// Calls `rhai::Engine::set_optimization_level` with the level that leaves a
/// script as it was written. Nothing is claimed of the engine.
#[verifier::external_body]
fn leave_scripts_unoptimized(engine: &mut rhai::Engine) {
    engine.set_optimization_level(rhai::OptimizationLevel::None);
}

/// Calls `rhai::Engine::set_module_resolver` with the resolver of `rhai` that
/// finds no module, so that a script cannot load code from files. Nothing is
/// claimed of the engine.
#[verifier::external_body]
fn forbid_imports(engine: &mut rhai::Engine) {
    engine.set_module_resolver(rhai::module_resolvers::DummyModuleResolver::new());
}

/// Calls `rhai::Engine::register_fn` with a function of no arguments that
/// gives a copy of `value`. Nothing is claimed of the engine.
#[verifier::external_body]
fn bind_text(engine: &mut rhai::Engine, name: &str, value: String) {
    engine.register_fn(name, move || copy_of(&value));
}

/// Calls `rhai::Engine::register_fn` with a function of no arguments that
/// gives `value`. Nothing is claimed of the engine.
#[verifier::external_body]
fn bind_number(engine: &mut rhai::Engine, name: &str, value: u32) {
    engine.register_fn(name, move || value);
}

/// Calls `rhai::Engine::register_fn` with a function that hands its one
/// argument, a string, to `PolicyCell::set_output_path`. Nothing is claimed
/// of the engine.
#[verifier::external_body]
fn bind_path_setter(engine: &mut rhai::Engine, name: &str, sink: PolicyCell) {
    engine.register_fn(name, move |path: String| sink.set_output_path(path));
}

/// Calls `rhai::Engine::register_fn` with a function that hands its one
/// argument, an integer, to `PolicyCell::set_permissions`. Nothing is claimed
/// of the engine.
#[verifier::external_body]
fn bind_mode_setter(engine: &mut rhai::Engine, name: &str, sink: PolicyCell) {
    engine.register_fn(name, move |mode: i64| sink.set_permissions(mode));
}

/// Calls `rhai::Engine::run`, which parses a script and runs it once. Nothing
/// is claimed of the outcome: it is the script's to decide.
#[verifier::external_body]
fn run_engine(engine: &rhai::Engine, script: &str) -> (outcome: Result<
    (),
    Box<rhai::EvalAltResult>,
>) {
    engine.run(script)
}

/// Reads the message of a script error, as its `Display` writes it. Nothing
/// is claimed of the text.
#[verifier::external_body]
fn script_error_text(error: &rhai::EvalAltResult) -> String {
    error.to_string()
}

fn copy_of(text: &String) -> (copy: String)
    ensures
        copy@ == text@,
{
    text.clone()
}

/// What a name stands for in a script.
#[derive(Clone, Debug, PartialEq, Eq)]
pub enum Primitive {
    /// A function of no arguments that gives a text.
    Text { text: String },
    /// A function of no arguments that gives a number.
    Number { number: u32 },
    /// A function of one string that sets the output path of the policy.
    SetOutputPath,
    /// A function of one integer that sets the permission bits of the policy.
    SetPermissions,
}

/// One function that a script may call.
#[derive(Clone, Debug, PartialEq, Eq)]
pub struct Binding {
    pub name: String,
    pub primitive: Primitive,
}

pub enum PrimitiveView {
    Text { text: Seq<char> },
    Number { number: u32 },
    SetOutputPath,
    SetPermissions,
}

pub struct BindingView {
    pub name: Seq<char>,
    pub primitive: PrimitiveView,
}

impl View for Primitive {
    type V = PrimitiveView;

    open spec fn view(&self) -> PrimitiveView {
        match self {
            Primitive::Text { text } => PrimitiveView::Text { text: text@ },
            Primitive::Number { number } => PrimitiveView::Number { number: *number },
            Primitive::SetOutputPath => PrimitiveView::SetOutputPath,
            Primitive::SetPermissions => PrimitiveView::SetPermissions,
        }
    }
}

impl View for Binding {
    type V = BindingView;

    open spec fn view(&self) -> BindingView {
        BindingView { name: self.name@, primitive: self.primitive@ }
    }
}

/// A binding of a name to a text.
pub open spec fn text_binding(name: Seq<char>, value: Seq<char>) -> BindingView {
    BindingView { name, primitive: PrimitiveView::Text { text: value } }
}

/// A binding of a name to a number.
pub open spec fn number_binding(name: Seq<char>, value: u32) -> BindingView {
    BindingView { name, primitive: PrimitiveView::Number { number: value } }
}

/// Everything that a policy script may call, and nothing else: seven
/// functions that tell it of the crash, and two by which it decides. The
/// home directory is shown as its bytes read one character per byte, as the
/// user name is.
pub open spec fn script_surface(
    request: RequestView,
    full_exe: Seq<char>,
    exe: Seq<char>,
    identity: IdentityView,
) -> Seq<BindingView> {
    seq![
        text_binding("home"@, latin1(identity.home)),
        text_binding("username"@, identity.username),
        number_binding("uid"@, request.uid),
        number_binding("pid"@, request.pid),
        number_binding("time"@, request.crash_time),
        text_binding("full_exe"@, full_exe),
        text_binding("exe"@, exe),
        BindingView { name: "set_output_path"@, primitive: PrimitiveView::SetOutputPath },
        BindingView { name: "set_permissions"@, primitive: PrimitiveView::SetPermissions },
    ]
}

/// The views of a list of bindings, in order.
pub open spec fn bindings_view(bindings: Seq<Binding>) -> Seq<BindingView> {
    Seq::new(bindings.len(), |i: int| bindings[i]@)
}

fn text(name: &str, value: String) -> (binding: Binding)
    ensures
        binding@ == text_binding(name@, value@),
{
    Binding { name: name.to_owned(), primitive: Primitive::Text { text: value } }
}

fn number(name: &str, value: u32) -> (binding: Binding)
    ensures
        binding@ == number_binding(name@, value),
{
    Binding { name: name.to_owned(), primitive: Primitive::Number { number: value } }
}

/// Lists what a policy script may call for one crash.
pub fn script_bindings(
    request: &CrashRequest,
    full_exe: &str,
    exe: &str,
    identity: &Identity,
) -> (bindings: Vec<Binding>)
    ensures
        bindings_view(bindings@) == script_surface(request@, full_exe@, exe@, identity@),
{
    let mut bindings: Vec<Binding> = Vec::new();
    bindings.push(text("home", latin1_to_string(identity.home.bytes.as_slice())));
    bindings.push(text("username", identity.username.clone()));
    bindings.push(number("uid", request.uid));
    bindings.push(number("pid", request.pid));
    bindings.push(number("time", request.crash_time));
    bindings.push(text("full_exe", full_exe.to_owned()));
    bindings.push(text("exe", exe.to_owned()));
    bindings.push(
        Binding { name: "set_output_path".to_owned(), primitive: Primitive::SetOutputPath },
    );
    bindings.push(
        Binding { name: "set_permissions".to_owned(), primitive: Primitive::SetPermissions },
    );
    bindings
}

/// Settles what the run of a script yields, given how the run ended and what
/// the script had set by then. A script that stopped with an error yields no
/// policy, whatever it had set.
pub fn policy_outcome(evaluation: Result<(), String>, accumulated: PlacementPolicy) -> (outcome:
    Result<PlacementPolicy, PipelineError>)
    ensures
        match evaluation {
            Ok(_) => outcome matches Ok(policy) && policy@ == accumulated@,
            Err(detail) => outcome matches Err(error) && error@ == (ErrorView::PolicyScript {
                detail: detail@,
            }),
        },
{
    match evaluation {
        Ok(_) => Ok(accumulated),
        Err(detail) => Err(PipelineError::PolicyScript { detail }),
    }
}

/// Settles what the run of a script yields, given how the run ended and the
/// settings that the script made until then, in order. After a run that
/// ended well it is the initial policy with every setting applied: a part
/// that was never set keeps its initial value, and of repeated settings the
/// last counts. After a run that stopped with an error it is that error, and
/// no policy, whatever had been set.
pub fn settle(evaluation: Result<(), String>, settings: Vec<Setting>) -> (outcome: Result<
    PlacementPolicy,
    PipelineError,
>)
    ensures
        match evaluation {
            Ok(_) => outcome matches Ok(policy) && policy@ == apply_all(
                initial_policy(),
                settings_view(settings@),
            ),
            Err(detail) => outcome matches Err(error) && error@ == (ErrorView::PolicyScript {
                detail: detail@,
            }),
        },
{
    policy_outcome(evaluation, accumulate(&settings))
}

/// Runs a script once in a fresh engine that knows the given bindings besides
/// the language's own functions. The script is not optimized first, and it
/// cannot import modules. What the script returns is ignored; only what it
/// sets counts: the two deciding functions record each call, and `settle`
/// works the policy out from the record.
///
/// What a script does is its own affair, so the contract says only what holds
/// of every run: a failure is a `PolicyScript` error.
pub fn evaluate(bindings: &Vec<Binding>, script: &str) -> (outcome: Result<
    PlacementPolicy,
    PipelineError,
>)
    ensures
        outcome matches Err(error) ==> error@ is PolicyScript,
{
    let mut engine = new_engine();
    leave_scripts_unoptimized(&mut engine);
    forbid_imports(&mut engine);
    let sink = PolicyCell::new();
    let mut i: usize = 0;
    while i < bindings.len()
        invariant
            i <= bindings.len(),
        decreases bindings.len() - i,
    {
        let binding = &bindings[i];
        match &binding.primitive {
            Primitive::Text { text } => bind_text(&mut engine, binding.name.as_str(), text.clone()),
            Primitive::Number { number } => bind_number(
                &mut engine,
                binding.name.as_str(),
                *number,
            ),
            Primitive::SetOutputPath => bind_path_setter(
                &mut engine,
                binding.name.as_str(),
                sink.share(),
            ),
            Primitive::SetPermissions => bind_mode_setter(
                &mut engine,
                binding.name.as_str(),
                sink.share(),
            ),
        }
        i += 1;
    }
    let evaluation = match run_engine(&engine, script) {
        Ok(_) => Ok(()),
        Err(error) => Err(script_error_text(&*error)),
    };
    settle(evaluation, sink.snapshot())
}

/// Runs the policy script for one crash and gives the policy it decided on.
pub fn run_script(
    request: &CrashRequest,
    full_exe: &str,
    exe: &str,
    identity: &Identity,
    script: &str,
) -> (outcome: Result<PlacementPolicy, PipelineError>)
    ensures
        outcome matches Err(error) ==> error@ is PolicyScript,
{
    let bindings = script_bindings(request, full_exe, exe, identity);
    evaluate(&bindings, script)
}

} // verus!
