//! Development-environment setup: checks for required tools and shell
//! completion installation.
//!
//! The checks and the installation are plain sequential scripting around
//! external commands. The commands themselves are run by an unverified
//! driver; this module holds the decisions: which command each check runs,
//! how its outcome is reported, and the best-effort policy that a failing
//! check never aborts the others.

use vstd::prelude::*;

verus! {

/// Arguments of the setup entry point: which setup task to run.
#[derive(Debug)]
pub struct Args {
    pub nested: SubCommand,
}

/// The available setup tasks.
#[derive(Debug)]
pub enum SubCommand {
    Env(ArgsEnv),
    BashCompletion(ArgsBashCompletion),
    ZshCompletion(ArgsZshCompletion),
}

/// Check if this machine is ready for ChromeOS development.
#[derive(Debug)]
pub struct ArgsEnv {}

/// Install bash completion.
#[derive(Debug)]
pub struct ArgsBashCompletion {}

/// Print zsh completion instructions.
#[derive(Debug)]
pub struct ArgsZshCompletion {}

/// The setup task the caller picked.
#[derive(Clone, Copy, PartialEq, Eq, Structural, Debug)]
pub enum SetupTask {
    CheckEnv,
    InstallBashCompletion,
    InstallZshCompletion,
}

/// Dispatches the setup entry point: which task the nested subcommand
/// stands for. The driver carries the task out.
pub fn run(args: &Args) -> (t: SetupTask)
    ensures
        (args.nested is Env <==> t == SetupTask::CheckEnv),
        (args.nested is BashCompletion <==> t == SetupTask::InstallBashCompletion),
        (args.nested is ZshCompletion <==> t == SetupTask::InstallZshCompletion),
{
    match &args.nested {
        SubCommand::Env(_) => SetupTask::CheckEnv,
        SubCommand::BashCompletion(_) => SetupTask::InstallBashCompletion,
        SubCommand::ZshCompletion(_) => SetupTask::InstallZshCompletion,
    }
}

/// The environment checks, each one external command run by the driver.
#[derive(Clone, Copy, PartialEq, Eq, Structural, Debug)]
pub enum EnvCheck {
    /// depot_tools must provide the repo command.
    DepotTools,
    /// gsutil must be installed.
    Gsutil,
    /// gcloud must be installed.
    Gcloud,
    /// gcloud must have authenticated accounts.
    GcloudAuthList,
}

/// The shell command each environment check runs.
pub open spec fn spec_check_command(c: EnvCheck) -> Seq<char> {
    match c {
        EnvCheck::DepotTools => "which repo"@,
        EnvCheck::Gsutil => "which gsutil"@,
        EnvCheck::Gcloud => "which gcloud"@,
        EnvCheck::GcloudAuthList => "gcloud auth list"@,
    }
}

/// The shell command the driver must run for a check.
pub fn check_command(c: EnvCheck) -> (s: String)
    ensures
        s@ == spec_check_command(c),
{
    match c {
        EnvCheck::DepotTools => "which repo".to_owned(),
        EnvCheck::Gsutil => "which gsutil".to_owned(),
        EnvCheck::Gcloud => "which gcloud".to_owned(),
        EnvCheck::GcloudAuthList => "gcloud auth list".to_owned(),
    }
}

/// The diagnostic reported when a check's command completes abnormally.
pub open spec fn spec_failure_text(c: EnvCheck) -> Seq<char> {
    match c {
        EnvCheck::DepotTools => "Failed to find repo command"@,
        EnvCheck::Gsutil => "Failed to find gsutil command"@,
        EnvCheck::Gcloud => "Failed to find gcloud command"@,
        EnvCheck::GcloudAuthList => "Failed to run gcloud auth list command"@,
    }
}

/// The failure diagnostic of a check; see [`spec_failure_text`].
pub fn check_failure_message(c: EnvCheck) -> (s: String)
    ensures
        s@ == spec_failure_text(c),
{
    match c {
        EnvCheck::DepotTools => "Failed to find repo command".to_owned(),
        EnvCheck::Gsutil => "Failed to find gsutil command".to_owned(),
        EnvCheck::Gcloud => "Failed to find gcloud command".to_owned(),
        EnvCheck::GcloudAuthList => "Failed to run gcloud auth list command".to_owned(),
    }
}

/// The checks the environment task runs, in order.
pub fn env_checks() -> (v: Vec<EnvCheck>)
    ensures
        v@ == seq![
            EnvCheck::DepotTools,
            EnvCheck::Gsutil,
            EnvCheck::Gcloud,
            EnvCheck::GcloudAuthList,
        ],
{
    let mut v: Vec<EnvCheck> = Vec::new();
    v.push(EnvCheck::DepotTools);
    v.push(EnvCheck::Gsutil);
    v.push(EnvCheck::Gcloud);
    v.push(EnvCheck::GcloudAuthList);
    proof {
        assert(v@ =~= seq![
            EnvCheck::DepotTools,
            EnvCheck::Gsutil,
            EnvCheck::Gcloud,
            EnvCheck::GcloudAuthList,
        ]);
    }
    v
}

/// What the driver observed when it ran one check's command.
#[derive(Debug)]
pub struct CheckOutcome {
    pub check: EnvCheck,
    /// The command completed normally.
    pub success: bool,
    /// Its captured standard output.
    pub output: String,
}

/// One line of the environment report.
#[derive(Debug)]
pub struct CheckVerdict {
    pub check: EnvCheck,
    pub passed: bool,
    /// The command's output on success, the check's diagnostic on failure.
    pub detail: String,
}

/// The whole environment report.
#[derive(Debug)]
pub struct EnvReport {
    pub verdicts: Vec<CheckVerdict>,
    /// Environment checking is best-effort and never aborts: always true.
    pub ok: bool,
}

/// How one verdict reports one outcome.
pub open spec fn check_reported(o: CheckOutcome, v: CheckVerdict) -> bool {
    &&& v.check == o.check
    &&& v.passed == o.success
    &&& (o.success ==> v.detail == o.output)
    &&& (!o.success ==> v.detail@ == spec_failure_text(o.check))
}

/// Turns the observed check outcomes into the environment report. The
/// policy is best-effort diagnostics, distinct from the orchestrator's
/// fail-fast one: every check is reported in order, a failing check gets
/// its diagnostic, and no failure ever aborts the task.
pub fn run_env(_args: &ArgsEnv, outcomes: &Vec<CheckOutcome>) -> (r: EnvReport)
    ensures
        r.ok,
        r.verdicts@.len() == outcomes@.len(),
        forall|j: int| 0 <= j < outcomes@.len() ==> check_reported(
            outcomes@[j],
            #[trigger] r.verdicts@[j],
        ),
{
    let mut verdicts: Vec<CheckVerdict> = Vec::new();
    let mut i: usize = 0;
    while i < outcomes.len()
        invariant
            i <= outcomes@.len(),
            verdicts@.len() == i,
            forall|j: int| 0 <= j < i ==> check_reported(outcomes@[j], #[trigger] verdicts@[j]),
        decreases outcomes@.len() - i,
    {
        let o = &outcomes[i];
        let v = if o.success {
            CheckVerdict { check: o.check, passed: true, detail: o.output.clone() }
        } else {
            CheckVerdict { check: o.check, passed: false, detail: check_failure_message(o.check) }
        };
        verdicts.push(v);
        i = i + 1;
    }
    EnvReport { verdicts, ok: true }
}

/// Why completion installation failed. Both steps are fatal to the task.
#[derive(Debug)]
pub enum SetupError {
    /// Writing the completion script into the tool's directory failed.
    CompletionWrite { message: String },
    /// Registering the script in the user's bash completion file failed.
    CompletionRegister { message: String },
}

/// The name of the completion script written into the tool's directory.
pub fn completion_script_name() -> (s: String)
    ensures
        s@ == "cro3.bash"@,
{
    "cro3.bash".to_owned()
}

/// The shell command that makes the user's bash completion file source the
/// installed script, once.
pub fn completion_register_command() -> (s: String)
    ensures
        s@ == "grep 'cro3' ~/.bash_completion || echo \". ~/.cro3/cro3.bash\" >> ~/.bash_completion"@,
{
    "grep 'cro3' ~/.bash_completion || echo \". ~/.cro3/cro3.bash\" >> ~/.bash_completion".to_owned()
}

/// Interprets the two steps shared by both completion tasks: the script is
/// written first, then registered. A failing write is fatal before the
/// registration is attempted (whatever stands in `register_result` is then
/// ignored); a failing registration is fatal too.
pub fn shell_shared_setup(
    write_result: Result<(), String>,
    register_result: Result<(), String>,
) -> (r: Result<(), SetupError>)
    ensures
        (r is Ok <==> write_result is Ok && register_result is Ok),
        write_result matches Err(m) ==> (r matches Err(e) && e
            == (SetupError::CompletionWrite { message: m })),
        write_result is Ok ==> (register_result matches Err(m) ==> (r matches Err(e) && e
            == (SetupError::CompletionRegister { message: m }))),
{
    match write_result {
        Err(message) => Err(SetupError::CompletionWrite { message }),
        Ok(_) => match register_result {
            Err(message) => Err(SetupError::CompletionRegister { message }),
            Ok(_) => Ok(()),
        },
    }
}

/// Finishes the bash completion task: a successful shared setup yields the
/// operator notice; a failed one is passed through unchanged.
pub fn run_bash_completion(_args: &ArgsBashCompletion, setup: Result<(), SetupError>) -> (r:
    Result<Vec<String>, SetupError>)
    ensures
        setup matches Err(e) ==> (r matches Err(e2) && e2 == e),
        setup is Ok ==> (r matches Ok(lines) && lines@.len() == 1 && lines@[0]@
            == "Installed ~/.cro3/cro3.bash and an entry in ~/.bash_completion. Please run `source ~/.bash_completion` for the current shell."@),
{
    match setup {
        Err(e) => Err(e),
        Ok(_) => {
            let mut lines: Vec<String> = Vec::new();
            lines.push(
                "Installed ~/.cro3/cro3.bash and an entry in ~/.bash_completion. Please run `source ~/.bash_completion` for the current shell.".to_owned(),
            );
            Ok(lines)
        },
    }
}

/// Finishes the zsh completion task: a successful shared setup yields the
/// instructions the operator must add to their zsh configuration; a failed
/// one is passed through unchanged.
pub fn run_zsh_completion(_args: &ArgsZshCompletion, setup: Result<(), SetupError>) -> (r: Result<
    Vec<String>,
    SetupError,
>)
    ensures
        setup matches Err(e) ==> (r matches Err(e2) && e2 == e),
        setup is Ok ==> (r matches Ok(lines) && lines@.len() == 4 && lines@[0]@
            == "add the following to your zshrc: "@ && lines@[1]@
            == "autoload -U +X compinit && compinit"@ && lines@[2]@
            == "autoload -U +X bashcompinit && bashcompinit"@ && lines@[3]@
            == "source ~/.bash_completion"@),
{
    match setup {
        Err(e) => Err(e),
        Ok(_) => {
            let mut lines: Vec<String> = Vec::new();
            lines.push("add the following to your zshrc: ".to_owned());
            lines.push("autoload -U +X compinit && compinit".to_owned());
            lines.push("autoload -U +X bashcompinit && bashcompinit".to_owned());
            lines.push("source ~/.bash_completion".to_owned());
            Ok(lines)
        },
    }
}

} // verus!
