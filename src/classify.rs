//! Decides how a catalog entry is run, from its name and its command text.
use vstd::prelude::*;

use crate::text::{contains_str, same_str, seq_contains, seq_starts_with, starts_with_str};

verus! {

pub const SHOW_VERSION: &'static str = "__SHOW_VERSION__";

pub const SOKOBAN_GAME: &'static str = "__SOKOBAN_GAME__";

pub const CHECK_BREW: &'static str = "__CHECK_BREW__";

pub const LIST_INSTALLED: &'static str = "__LIST_INSTALLED__";

pub const LIST_OUTDATED: &'static str = "__LIST_OUTDATED__";

/// Prefix of a command that asks for free text and then fills a template with it.
pub const PROMPT_PREFIX: &'static str = "__PROMPT_FOR_TEXT__:";

/// Prefix shared by every built-in command.
pub const SENTINEL_MARK: &'static str = "__";

/// Behaviour that runs inside the program rather than in a shell.
#[derive(Debug, Clone, Copy, PartialEq, Eq, Structural)]
pub enum Builtin {
    ShowVersion,
    Puzzle,
    CheckBrew,
    ListInstalled,
    ListOutdated,
}

/// How a selected entry is carried out.
#[derive(Debug, Clone, Copy, PartialEq, Eq, Structural)]
pub enum Plan {
    Builtin(Builtin),
    PromptThenRun,
    Header,
    ConfirmThenRun,
    HandoffRun,
    CapturedRun,
}

pub open spec fn builtin_of(cmd: Seq<char>) -> Option<Builtin> {
    if cmd == SHOW_VERSION@ {
        Some(Builtin::ShowVersion)
    } else if cmd == SOKOBAN_GAME@ {
        Some(Builtin::Puzzle)
    } else if cmd == CHECK_BREW@ {
        Some(Builtin::CheckBrew)
    } else if cmd == LIST_INSTALLED@ {
        Some(Builtin::ListInstalled)
    } else if cmd == LIST_OUTDATED@ {
        Some(Builtin::ListOutdated)
    } else {
        None
    }
}

pub open spec fn is_destructive(name: Seq<char>) -> bool {
    seq_contains(name, "(destructive)"@)
}

pub open spec fn needs_sudo(cmd: Seq<char>) -> bool {
    seq_contains(cmd, "sudo"@)
}

pub open spec fn is_interactive(name: Seq<char>, cmd: Seq<char>) -> bool {
    needs_sudo(cmd) || is_destructive(name) || seq_contains(name, "(interactive)"@)
}

/// The name marks a read-only, reporting action.
pub open spec fn is_info(name: Seq<char>) -> bool {
    ||| seq_contains(name, "List"@)
    ||| seq_contains(name, "Show"@)
    ||| seq_contains(name, "About"@)
    ||| seq_contains(name, "Version"@)
    ||| seq_contains(name, "Dependencies"@)
    ||| seq_contains(name, "System Information"@)
    ||| seq_contains(name, "Count"@)
    ||| seq_contains(name, "Find"@)
}

/// The name is on the list of actions that may be run any number of times.
pub open spec fn is_repeatable(name: Seq<char>) -> bool {
    seq_contains(name, "Add Small Spacer"@)
}

/// The plan for an entry, checked in a fixed order: built-ins, prompts, headers,
/// then destructive, interactive and captured runs.
pub open spec fn plan_of(name: Seq<char>, cmd: Seq<char>) -> Plan {
    if builtin_of(cmd) is Some && !seq_starts_with(cmd, PROMPT_PREFIX@) {
        Plan::Builtin(builtin_of(cmd)->Some_0)
    } else if seq_starts_with(cmd, PROMPT_PREFIX@) {
        Plan::PromptThenRun
    } else if cmd.len() == 0 {
        Plan::Header
    } else if is_destructive(name) {
        Plan::ConfirmThenRun
    } else if is_interactive(name, cmd) {
        Plan::HandoffRun
    } else {
        Plan::CapturedRun
    }
}

/// A command that is neither a header nor a built-in.
pub open spec fn is_shell_command(cmd: Seq<char>) -> bool {
    cmd.len() > 0 && !seq_starts_with(cmd, SENTINEL_MARK@)
}

/// Whether the command text asks for elevated privileges.
pub fn require_sudo(command: &str) -> (r: bool)
    ensures
        r == needs_sudo(command@),
{
    contains_str(command, "sudo")
}

/// The built-in that a command names, if any.
pub fn builtin_for(command: &str) -> (r: Option<Builtin>)
    ensures
        r == builtin_of(command@),
{
    if same_str(command, SHOW_VERSION) {
        Some(Builtin::ShowVersion)
    } else if same_str(command, SOKOBAN_GAME) {
        Some(Builtin::Puzzle)
    } else if same_str(command, CHECK_BREW) {
        Some(Builtin::CheckBrew)
    } else if same_str(command, LIST_INSTALLED) {
        Some(Builtin::ListInstalled)
    } else if same_str(command, LIST_OUTDATED) {
        Some(Builtin::ListOutdated)
    } else {
        None
    }
}

/// Whether the name marks a read-only, reporting action.
pub fn info_name(name: &str) -> (r: bool)
    ensures
        r == is_info(name@),
{
    contains_str(name, "List") || contains_str(name, "Show") || contains_str(name, "About")
        || contains_str(name, "Version") || contains_str(name, "Dependencies") || contains_str(
        name,
        "System Information",
    ) || contains_str(name, "Count") || contains_str(name, "Find")
}

/// Whether the name is on the list of actions that may be run any number of times.
pub fn repeatable_name(name: &str) -> (r: bool)
    ensures
        r == is_repeatable(name@),
{
    contains_str(name, "Add Small Spacer")
}

/// Whether the name carries the destructive marker.
pub fn destructive_name(name: &str) -> (r: bool)
    ensures
        r == is_destructive(name@),
{
    contains_str(name, "(destructive)")
}

/// Whether the entry must be run with the terminal handed over.
pub fn interactive_entry(name: &str, command: &str) -> (r: bool)
    ensures
        r == is_interactive(name@, command@),
{
    require_sudo(command) || destructive_name(name) || contains_str(name, "(interactive)")
}

/// The plan for an entry with the given name and command.
pub fn classify(name: &str, command: &str) -> (r: Plan)
    ensures
        r == plan_of(name@, command@),
{
    let prompt = starts_with_str(command, PROMPT_PREFIX);
    if !prompt {
        if let Some(b) = builtin_for(command) {
            return Plan::Builtin(b);
        }
    }
    if prompt {
        Plan::PromptThenRun
    } else if command.unicode_len() == 0 {
        Plan::Header
    } else if destructive_name(name) {
        Plan::ConfirmThenRun
    } else if interactive_entry(name, command) {
        Plan::HandoffRun
    } else {
        Plan::CapturedRun
    }
}

/// Whether a command can be run directly from the command line.
pub fn is_directly_runnable(command: &str) -> (r: bool)
    ensures
        r == is_shell_command(command@),
{
    command.unicode_len() > 0 && !starts_with_str(command, SENTINEL_MARK)
}

} // verus!
