//! Decisions of a single run: resolving the prefix selection, choosing
//! what the run does with the collected description, and composing every
//! line the run reports. The terminal prompts and the spawned process
//! stay outside the library; they hand these functions plain values.

use vstd::prelude::*;

use crate::branch::{branch_name_spec, git_command_spec, BranchInfo};
use crate::catalog::{prefix_code, prefix_code_spec, PREFIX_COUNT};

verus! {

/// Why a run ended without creating a branch.
#[derive(Debug)]
pub enum RunError {
    /// The mandatory prefix selection was cancelled.
    NoPrefixSelected,
    /// The interactive input mechanism itself failed; holds its message.
    InputError(String),
    /// The command interpreter could not be launched; holds the
    /// operating system's error message.
    ExecError(String),
}

impl RunError {
    /// The human-readable message reported for this error.
    pub fn message(&self) -> (r: String)
        ensures
            r@ == match *self {
                RunError::NoPrefixSelected => "プレフィックスが選択されていません"@,
                RunError::InputError(ref d) => d@,
                RunError::ExecError(ref d) => "コマンド実行エラー: "@ + d@,
            },
    {
        match self {
            RunError::NoPrefixSelected => String::from_str(
                "プレフィックスが選択されていません",
            ),
            RunError::InputError(d) => d.clone(),
            RunError::ExecError(d) => {
                let mut s = String::from_str("コマンド実行エラー: ");
                s.append(d.as_str());
                s
            },
        }
    }
}

/// Turns the outcome of the prefix menu into the selected code:
/// a cancelled selection is the fatal `NoPrefixSelected`.
pub fn select_prefix_code(selection: Option<usize>) -> (r: Result<String, RunError>)
    requires
        selection matches Some(index) ==> index < PREFIX_COUNT,
    ensures
        match selection {
            Some(index) => r matches Ok(code) && code@ == prefix_code_spec(index as int),
            None => r matches Err(e) && e matches RunError::NoPrefixSelected,
        },
{
    match selection {
        Some(index) => Ok(prefix_code(index)),
        None => Err(RunError::NoPrefixSelected),
    }
}

/// The command-line flags, read once at startup and immutable after.
pub struct Opt {
    pub debug: bool,
    pub execute: bool,
}

impl Opt {
    pub fn new(debug: bool, execute: bool) -> (r: Opt)
        ensures
            r.debug == debug,
            r.execute == execute,
    {
        Opt { debug, execute }
    }

    /// Runs `f` only in debug mode.
    pub fn debug<F: FnOnce()>(&self, f: F)
        requires
            self.debug ==> call_requires(f, ()),
    {
        if self.debug {
            f();
        }
    }
}

/// Everything a run does after collecting input, as one value: either it
/// aborts with an error, or it prints the command and stops (dry run), or
/// it prints the command and executes it.
pub enum RunPlan {
    Abort { error: RunError },
    DryRun { command: String },
    Execute { command: String, branch_name: String },
}

/// Decides the run's one terminal path from the collection outcome and
/// the execute flag. A failed collection aborts with that error and no
/// command at all; without the execute flag the command is only shown;
/// with it the command is also handed on for execution, together with
/// the branch name for the confirmation message.
pub fn plan_run(collected: Result<BranchInfo, RunError>, execute: bool) -> (p: RunPlan)
    ensures
        match collected {
            Err(e) => p matches RunPlan::Abort { error } && error == e,
            Ok(info) => if execute {
                p matches RunPlan::Execute { command, branch_name }
                    && command@ == git_command_spec(info@) && branch_name@ == branch_name_spec(
                    info@,
                )
            } else {
                p matches RunPlan::DryRun { command } && command@ == git_command_spec(info@)
            },
        },
{
    match collected {
        Err(error) => RunPlan::Abort { error },
        Ok(info) => {
            let command = info.generate_git_command();
            if execute {
                let branch_name = info.generate_branch_name();
                RunPlan::Execute { command, branch_name }
            } else {
                RunPlan::DryRun { command }
            }
        },
    }
}

/// The line that shows the generated command.
pub fn command_display_line(command: &str) -> (r: String)
    ensures
        r@ == "コマンド: $ "@ + command@,
{
    let mut s = String::from_str("コマンド: $ ");
    s.append(command);
    s
}

/// The confirmation printed after the command interpreter was launched.
pub fn confirmation_message(branch_name: &str) -> (r: String)
    ensures
        r@ == "新しいブランチを作成しました: "@ + branch_name@,
{
    let mut s = String::from_str("新しいブランチを作成しました: ");
    s.append(branch_name);
    s
}

} // verus!
