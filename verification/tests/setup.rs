use cro3::setup::{
    check_command, check_failure_message, completion_register_command, completion_script_name,
    env_checks, run, run_bash_completion, run_env, run_zsh_completion, shell_shared_setup, Args,
    ArgsBashCompletion, ArgsEnv, ArgsZshCompletion, CheckOutcome, EnvCheck, SetupError, SetupTask,
    SubCommand,
};

#[test]
fn run_dispatches_each_subcommand() {
    let env = Args { nested: SubCommand::Env(ArgsEnv {}) };
    let bash = Args { nested: SubCommand::BashCompletion(ArgsBashCompletion {}) };
    let zsh = Args { nested: SubCommand::ZshCompletion(ArgsZshCompletion {}) };
    assert_eq!(run(&env), SetupTask::CheckEnv);
    assert_eq!(run(&bash), SetupTask::InstallBashCompletion);
    assert_eq!(run(&zsh), SetupTask::InstallZshCompletion);
}

#[test]
fn check_commands_are_exact() {
    assert_eq!(check_command(EnvCheck::DepotTools), "which repo");
    assert_eq!(check_command(EnvCheck::Gsutil), "which gsutil");
    assert_eq!(check_command(EnvCheck::Gcloud), "which gcloud");
    assert_eq!(check_command(EnvCheck::GcloudAuthList), "gcloud auth list");
}

#[test]
fn check_failure_messages_are_exact() {
    assert_eq!(check_failure_message(EnvCheck::DepotTools), "Failed to find repo command");
    assert_eq!(check_failure_message(EnvCheck::Gsutil), "Failed to find gsutil command");
    assert_eq!(check_failure_message(EnvCheck::Gcloud), "Failed to find gcloud command");
    assert_eq!(
        check_failure_message(EnvCheck::GcloudAuthList),
        "Failed to run gcloud auth list command"
    );
}

#[test]
fn env_checks_run_in_order() {
    assert_eq!(
        env_checks(),
        vec![
            EnvCheck::DepotTools,
            EnvCheck::Gsutil,
            EnvCheck::Gcloud,
            EnvCheck::GcloudAuthList,
        ]
    );
}

#[test]
fn env_report_is_best_effort() {
    let outcomes = vec![
        CheckOutcome {
            check: EnvCheck::DepotTools,
            success: true,
            output: "/usr/bin/repo".to_string(),
        },
        CheckOutcome { check: EnvCheck::Gsutil, success: false, output: String::new() },
        CheckOutcome {
            check: EnvCheck::Gcloud,
            success: true,
            output: "/usr/bin/gcloud".to_string(),
        },
        CheckOutcome { check: EnvCheck::GcloudAuthList, success: false, output: String::new() },
    ];
    let report = run_env(&ArgsEnv {}, &outcomes);
    // A failing check never aborts the whole task.
    assert!(report.ok);
    assert_eq!(report.verdicts.len(), 4);
    assert!(report.verdicts[0].passed);
    assert_eq!(report.verdicts[0].detail, "/usr/bin/repo");
    assert!(!report.verdicts[1].passed);
    assert_eq!(report.verdicts[1].detail, "Failed to find gsutil command");
    assert!(report.verdicts[2].passed);
    assert!(!report.verdicts[3].passed);
    assert_eq!(report.verdicts[3].detail, "Failed to run gcloud auth list command");
}

#[test]
fn completion_constants_are_exact() {
    assert_eq!(completion_script_name(), "cro3.bash");
    assert_eq!(
        completion_register_command(),
        "grep 'cro3' ~/.bash_completion || echo \". ~/.cro3/cro3.bash\" >> ~/.bash_completion"
    );
}

#[test]
fn shared_setup_needs_both_steps() {
    assert!(shell_shared_setup(Ok(()), Ok(())).is_ok());
    match shell_shared_setup(Err("disk full".to_string()), Ok(())) {
        Err(SetupError::CompletionWrite { message }) => assert_eq!(message, "disk full"),
        _ => panic!("a failed write is fatal"),
    }
    match shell_shared_setup(Ok(()), Err("no shell".to_string())) {
        Err(SetupError::CompletionRegister { message }) => assert_eq!(message, "no shell"),
        _ => panic!("a failed registration is fatal"),
    }
}

#[test]
fn bash_completion_reports_or_propagates() {
    let ok = run_bash_completion(&ArgsBashCompletion {}, Ok(()));
    let lines = ok.expect("successful setup yields the notice");
    assert_eq!(lines.len(), 1);
    assert_eq!(
        lines[0],
        "Installed ~/.cro3/cro3.bash and an entry in ~/.bash_completion. Please run `source ~/.bash_completion` for the current shell."
    );
    let err = run_bash_completion(
        &ArgsBashCompletion {},
        Err(SetupError::CompletionWrite { message: "disk full".to_string() }),
    );
    assert!(matches!(err, Err(SetupError::CompletionWrite { .. })));
}

#[test]
fn zsh_completion_lists_instructions() {
    let ok = run_zsh_completion(&ArgsZshCompletion {}, Ok(()));
    let lines = ok.expect("successful setup yields the instructions");
    assert_eq!(
        lines,
        vec![
            "add the following to your zshrc: ".to_string(),
            "autoload -U +X compinit && compinit".to_string(),
            "autoload -U +X bashcompinit && bashcompinit".to_string(),
            "source ~/.bash_completion".to_string(),
        ]
    );
    let err = run_zsh_completion(
        &ArgsZshCompletion {},
        Err(SetupError::CompletionRegister { message: "no shell".to_string() }),
    );
    assert!(matches!(err, Err(SetupError::CompletionRegister { .. })));
}
