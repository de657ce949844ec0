use vstd::prelude::*;
use vstd::string::*;

verus! {

/// The external commands run against a new project, in pipeline order.
#[derive(Clone, Copy, Debug, PartialEq, Eq, Structural)]
pub enum Step {
    ModInit,
    PnpmInit,
    InstallTailwind,
    InitTailwind,
    InitAir,
    ModTidy,
    Fmt,
}

/// The steps for a project: module init always, the three stylesheet steps with
/// the stylesheet tool, live-reload init with it, then tidy and format always.
pub open spec fn pipeline_of(tailwind: bool, air: bool) -> Seq<Step> {
    seq![Step::ModInit]
        + (if tailwind { seq![Step::PnpmInit, Step::InstallTailwind, Step::InitTailwind] } else { Seq::empty() })
        + (if air { seq![Step::InitAir] } else { Seq::empty() })
        + seq![Step::ModTidy, Step::Fmt]
}

pub fn pipeline_steps(tailwind: bool, air: bool) -> (r: Vec<Step>)
    ensures
        r@ == pipeline_of(tailwind, air),
{
    let mut r = vec![Step::ModInit];
    if tailwind {
        r.push(Step::PnpmInit);
        r.push(Step::InstallTailwind);
        r.push(Step::InitTailwind);
    }
    if air {
        r.push(Step::InitAir);
    }
    r.push(Step::ModTidy);
    r.push(Step::Fmt);
    assert(r@ =~= pipeline_of(tailwind, air));
    r
}

pub open spec fn program_of(s: Step) -> Seq<char> {
    match s {
        Step::ModInit | Step::ModTidy | Step::Fmt => "go"@,
        Step::PnpmInit | Step::InstallTailwind => "pnpm"@,
        Step::InitTailwind => "npx"@,
        Step::InitAir => "air"@,
    }
}

pub open spec fn args_of(s: Step, module: Seq<char>) -> Seq<Seq<char>> {
    match s {
        Step::ModInit => seq!["mod"@, "init"@, module],
        Step::PnpmInit => seq!["init"@],
        Step::InstallTailwind => seq!["add"@, "-D"@, "tailwindcss"@],
        Step::InitTailwind => seq!["tailwindcss"@, "init"@],
        Step::InitAir => seq!["init"@],
        Step::ModTidy => seq!["mod"@, "tidy"@],
        Step::Fmt => seq!["fmt"@, "./..."@],
    }
}

/// The program that a step runs.
pub fn step_program(s: Step) -> (r: &'static str)
    ensures
        r@ == program_of(s),
{
    match s {
        Step::ModInit | Step::ModTidy | Step::Fmt => "go",
        Step::PnpmInit | Step::InstallTailwind => "pnpm",
        Step::InitTailwind => "npx",
        Step::InitAir => "air",
    }
}

/// The arguments that a step passes to its program; module init names the module path.
pub fn step_args(s: Step, module: &str) -> (r: Vec<String>)
    ensures
        r@.map_values(|a: String| a@) == args_of(s, module@),
{
    let r = match s {
        Step::ModInit => vec![String::from_str("mod"), String::from_str("init"), String::from_str(module)],
        Step::PnpmInit => vec![String::from_str("init")],
        Step::InstallTailwind => vec![String::from_str("add"), String::from_str("-D"), String::from_str("tailwindcss")],
        Step::InitTailwind => vec![String::from_str("tailwindcss"), String::from_str("init")],
        Step::InitAir => vec![String::from_str("init")],
        Step::ModTidy => vec![String::from_str("mod"), String::from_str("tidy")],
        Step::Fmt => vec![String::from_str("fmt"), String::from_str("./...")],
    };
    assert(r@.map_values(|a: String| a@) =~= args_of(s, module@));
    r
}

/// The code of a finished command: 0 when it could be started and succeeded;
/// otherwise its own non-zero exit code, or -1 where it has none (it could not be
/// started, was stopped by a signal, or reported failure with code 0).
pub open spec fn exit_code_spec(started: bool, success: bool, code: Option<i32>) -> int {
    if !started {
        -1
    } else if success {
        0
    } else {
        match code {
            Some(c) => if c != 0 { c as int } else { -1 },
            None => -1,
        }
    }
}

pub fn get_exit_code(started: bool, success: bool, code: Option<i32>) -> (r: i32)
    ensures
        r == exit_code_spec(started, success, code),
        r == 0 <==> started && success,
{
    if !started {
        -1
    } else if success {
        0
    } else {
        match code {
            Some(c) => if c != 0 { c } else { -1 },
            None => -1,
        }
    }
}

/// Where a pipeline run stands: how many steps have succeeded, and the step that
/// failed, if one did.
#[derive(Clone, Copy, Debug, PartialEq, Eq, Structural)]
pub struct PipelineState {
    pub done: usize,
    pub failed: Option<Step>,
}

/// What the driver does next.
#[derive(Clone, Copy, Debug, PartialEq, Eq, Structural)]
pub enum Action {
    /// Run this step and report its exit code.
    Run(Step),
    /// Every step succeeded.
    Finished,
    /// This step failed; nothing more runs.
    Abort(Step),
}

pub open spec fn action_spec(steps: Seq<Step>, s: PipelineState) -> Action {
    match s.failed {
        Some(f) => Action::Abort(f),
        None => if s.done < steps.len() { Action::Run(steps[s.done as int]) } else { Action::Finished },
    }
}

/// The state after the step that `s` asks for has reported `code`. A failed or
/// finished run does not change.
pub open spec fn advance_spec(steps: Seq<Step>, s: PipelineState, code: i32) -> PipelineState {
    match action_spec(steps, s) {
        Action::Run(step) => if code == 0 {
            PipelineState { done: (s.done + 1) as usize, failed: None }
        } else {
            PipelineState { done: s.done, failed: Some(step) }
        },
        _ => s,
    }
}

/// The state after a run of reported exit codes, one after another.
pub open spec fn advance_all(steps: Seq<Step>, s: PipelineState, codes: Seq<i32>) -> PipelineState
    decreases codes.len(),
{
    if codes.len() == 0 {
        s
    } else {
        advance_all(steps, advance_spec(steps, s, codes[0]), codes.drop_first())
    }
}

pub fn start() -> (r: PipelineState)
    ensures
        r == (PipelineState { done: 0, failed: None }),
{
    PipelineState { done: 0, failed: None }
}

pub fn next_action(steps: &Vec<Step>, s: PipelineState) -> (r: Action)
    ensures
        r == action_spec(steps@, s),
{
    match s.failed {
        Some(f) => Action::Abort(f),
        None => if s.done < steps.len() { Action::Run(steps[s.done]) } else { Action::Finished },
    }
}

pub fn advance(steps: &Vec<Step>, s: PipelineState, code: i32) -> (r: PipelineState)
    ensures
        r == advance_spec(steps@, s, code),
{
    let n = steps.len();
    match next_action(steps, s) {
        Action::Run(step) => if code == 0 {
            assert(s.done < n);
            PipelineState { done: s.done + 1, failed: None }
        } else {
            PipelineState { done: s.done, failed: Some(step) }
        },
        _ => s,
    }
}

proof fn lemma_aborted_stays(steps: Seq<Step>, s: PipelineState, codes: Seq<i32>)
    requires
        s.failed is Some,
    ensures
        advance_all(steps, s, codes) == s,
    decreases codes.len(),
{
    if codes.len() > 0 {
        lemma_aborted_stays(steps, advance_spec(steps, s, codes[0]), codes.drop_first());
    }
}

/// Once module init reports failure, the run is aborted at module init whatever
/// is reported afterwards: no later step (package-manager init, the stylesheet
/// steps, live-reload init, tidy, format) is ever asked for.
pub proof fn lemma_mod_init_failure_stops(tailwind: bool, air: bool, code: i32, later: Seq<i32>)
    requires
        code != 0,
    ensures
        action_spec(
            pipeline_of(tailwind, air),
            advance_all(pipeline_of(tailwind, air), PipelineState { done: 0, failed: None }, seq![code] + later),
        ) == Action::Abort(Step::ModInit),
{
    let steps = pipeline_of(tailwind, air);
    let s0 = PipelineState { done: 0, failed: None };
    let codes = seq![code] + later;
    assert(steps[0] == Step::ModInit);
    let s1 = advance_spec(steps, s0, code);
    assert(s1 == PipelineState { done: 0, failed: Some(Step::ModInit) });
    assert(codes.drop_first() =~= later);
    lemma_aborted_stays(steps, s1, later);
}

} // verus!
