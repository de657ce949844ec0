use go_scaffold::pipeline::{
    advance, get_exit_code, next_action, pipeline_steps, start, step_args, step_program, Action,
    Step,
};

fn run(tailwind: bool, air: bool, codes: &[i32]) -> (Vec<Step>, Action) {
    let steps = pipeline_steps(tailwind, air);
    let mut state = start();
    let mut ran = Vec::new();
    let mut codes = codes.iter();
    loop {
        match next_action(&steps, state) {
            Action::Run(step) => {
                ran.push(step);
                let code = *codes.next().unwrap_or(&0);
                state = advance(&steps, state, code);
            }
            other => return (ran, other),
        }
    }
}

#[test]
fn steps_follow_flags() {
    assert_eq!(pipeline_steps(false, false), vec![Step::ModInit, Step::ModTidy, Step::Fmt]);
    assert_eq!(
        pipeline_steps(true, true),
        vec![
            Step::ModInit,
            Step::PnpmInit,
            Step::InstallTailwind,
            Step::InitTailwind,
            Step::InitAir,
            Step::ModTidy,
            Step::Fmt
        ]
    );
    assert_eq!(pipeline_steps(false, true), vec![Step::ModInit, Step::InitAir, Step::ModTidy, Step::Fmt]);
}

#[test]
fn all_steps_run_when_all_succeed() {
    let (ran, end) = run(true, true, &[]);
    assert_eq!(ran.len(), 7);
    assert_eq!(end, Action::Finished);
}

#[test]
fn mod_init_failure_stops_everything() {
    for (tw, air) in [(false, false), (true, false), (false, true), (true, true)] {
        let (ran, end) = run(tw, air, &[1, 0, 0, 0, 0, 0, 0]);
        assert_eq!(ran, vec![Step::ModInit]);
        assert_eq!(end, Action::Abort(Step::ModInit));
    }
    let (ran, end) = run(true, false, &[-1]);
    assert_eq!(ran, vec![Step::ModInit]);
    assert_eq!(end, Action::Abort(Step::ModInit));
}

#[test]
fn later_failure_stops_the_rest() {
    let (ran, end) = run(true, true, &[0, 0, 2]);
    assert_eq!(ran, vec![Step::ModInit, Step::PnpmInit, Step::InstallTailwind]);
    assert_eq!(end, Action::Abort(Step::InstallTailwind));
}

#[test]
fn exit_codes() {
    assert_eq!(get_exit_code(true, true, Some(0)), 0);
    assert_eq!(get_exit_code(true, false, Some(3)), 3);
    assert_eq!(get_exit_code(true, false, None), -1);
    assert_eq!(get_exit_code(false, false, None), -1);
}

#[test]
fn step_command_lines() {
    assert_eq!(step_program(Step::ModInit), "go");
    assert_eq!(step_args(Step::ModInit, "github.com/ann/blog"), vec!["mod", "init", "github.com/ann/blog"]);
    assert_eq!(step_program(Step::InstallTailwind), "pnpm");
    assert_eq!(step_args(Step::InstallTailwind, "m"), vec!["add", "-D", "tailwindcss"]);
    assert_eq!(step_program(Step::InitTailwind), "npx");
    assert_eq!(step_args(Step::InitTailwind, "m"), vec!["tailwindcss", "init"]);
    assert_eq!(step_program(Step::InitAir), "air");
    assert_eq!(step_args(Step::Fmt, "m"), vec!["fmt", "./..."]);
    assert_eq!(step_args(Step::ModTidy, "m"), vec!["mod", "tidy"]);
}
