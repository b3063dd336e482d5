//! What happens when an entry is chosen: the plan decides between an in-process
//! action, a prompt, a confirmation and a command; the command itself is run by the
//! caller, which reports its outcome back through `App::complete`.
use vstd::prelude::*;

use crate::app::{
    drilled_in, get_app_version, message_is, App, APP_VERSION, ERROR_TICKS, NOTE_TICKS, STATUS_TICKS,
};
use crate::classify::{
    classify, info_name, interactive_entry, is_info, is_interactive, is_repeatable, plan_of,
    repeatable_name, Builtin, Plan, PROMPT_PREFIX,
};
use crate::sokoban::SokobanGame;
use crate::text::{same_str, split_lines, trim_str, trimmed, lines_of, views};

verus! {

/// What to do once a command has finished.
#[derive(Debug)]
pub enum Completion {
    /// An entry run with the terminal handed over; `record` marks it applied on success.
    Handoff { name: String, record: bool },
    /// An entry run with its output captured.
    Captured { name: String, info: bool, record: bool },
    /// The command built from a prompt's template.
    CustomText,
    /// A fetch of the installed or of the outdated packages.
    PackageList { outdated: bool },
    /// A follow-up command chosen from a package list.
    Quiet,
}

/// Work that the caller must carry out on the library's behalf.
#[derive(Debug)]
pub enum Effect {
    /// Nothing to run.
    Idle,
    /// Run `command` with the terminal handed over, then report through `then`.
    Handoff { command: String, then: Completion },
    /// Run `command` capturing its output, then report through `then`.
    Capture { command: String, then: Completion },
    /// Find out whether `program` can be found on the search path; report through
    /// `App::finish_probe`.
    Probe { program: String },
}

pub open spec fn success_text(name: Seq<char>) -> Seq<char> {
    "Successfully applied: "@ + trimmed(name)
}

pub open spec fn error_text(name: Seq<char>, e: Seq<char>) -> Seq<char> {
    "Error executing '"@ + trimmed(name) + "': "@ + e
}

pub open spec fn no_output_text(name: Seq<char>) -> Seq<char> {
    "'"@ + trimmed(name) + "' executed successfully with no output."@
}

pub open spec fn kind_word(name: Seq<char>, cmd: Seq<char>) -> Seq<char> {
    if is_info(name) {
        "info"@
    } else if is_interactive(name, cmd) {
        "interactive"@
    } else {
        "normal"@
    }
}

pub open spec fn starting_text(name: Seq<char>, cmd: Seq<char>) -> Seq<char> {
    "Executing "@ + kind_word(name, cmd) + " command: "@ + trimmed(name)
}

pub open spec fn confirm_text(name: Seq<char>) -> Seq<char> {
    "\u{26a0}\u{fe0f}  DESTRUCTIVE ACTION: "@ + trimmed(name)
        + "\nType 'yes' to confirm or press any other key to cancel"@
}

pub open spec fn prompt_text(name: Seq<char>) -> Seq<char> {
    "Enter text for: "@ + trimmed(name)
}

/// The applied names after a successful run of `name`: added once, and only if `record`.
pub open spec fn applied_after(a: Seq<Seq<char>>, name: Seq<char>, record: bool) -> Seq<Seq<char>> {
    if record && !a.contains(name) {
        a.push(name)
    } else {
        a
    }
}

/// The lines that hold more than whitespace.
pub open spec fn nonblank(ls: Seq<Seq<char>>) -> Seq<Seq<char>>
    decreases ls.len(),
{
    if ls.len() == 0 {
        Seq::empty()
    } else if trimmed(ls.last()).len() == 0 {
        nonblank(ls.drop_last())
    } else {
        nonblank(ls.drop_last()).push(ls.last())
    }
}

pub open spec fn package_title(outdated: bool) -> Seq<char> {
    if outdated {
        "Outdated Packages (Press Enter to upgrade)"@
    } else {
        "Installed Packages (Press Enter for info)"@
    }
}

pub open spec fn no_packages_text(outdated: bool) -> Seq<char> {
    if outdated {
        "All Homebrew packages are up to date."@
    } else {
        "No installed Homebrew packages found."@
    }
}

pub open spec fn fetch_error_text(outdated: bool, e: Seq<char>) -> Seq<char> {
    if outdated {
        "Error fetching outdated packages: "@ + e
    } else {
        "Error fetching installed packages: "@ + e
    }
}

/// Only the status line changed, to `msg` for `ticks` ticks.
pub open spec fn shows_status(o: App, f: App, msg: Seq<char>, ticks: u32) -> bool {
    &&& f == App { status_message: f.status_message, status_timer: ticks, ..o }
    &&& message_is(f.status_message, msg)
}

/// Only the status line and the applied names changed.
pub open spec fn shows_status_applied(o: App, f: App, msg: Seq<char>, name: Seq<char>, record: bool) -> bool {
    &&& f == App {
        status_message: f.status_message,
        status_timer: STATUS_TICKS,
        applied_tweaks: f.applied_tweaks,
        ..o
    }
    &&& message_is(f.status_message, msg)
    &&& views(f.applied_tweaks@) == applied_after(views(o.applied_tweaks@), name, record)
}

/// Only the full-screen text changed, to `text`, scrolled to the top.
pub open spec fn shows_text(o: App, f: App, text: Seq<char>) -> bool {
    &&& f == App { fullscreen_output: f.fullscreen_output, fullscreen_output_scroll: 0, ..o }
    &&& message_is(f.fullscreen_output, text)
}

/// Only the full-screen text and the applied names changed.
pub open spec fn shows_text_applied(o: App, f: App, text: Seq<char>, name: Seq<char>, record: bool) -> bool {
    &&& f == App {
        fullscreen_output: f.fullscreen_output,
        fullscreen_output_scroll: 0,
        applied_tweaks: f.applied_tweaks,
        ..o
    }
    &&& message_is(f.fullscreen_output, text)
    &&& views(f.applied_tweaks@) == applied_after(views(o.applied_tweaks@), name, record)
}

/// The state after a command's outcome is reported.
pub open spec fn completed(o: App, f: App, then: Completion, outcome: Result<String, String>) -> bool {
    match then {
        Completion::Handoff { name, record } => match outcome {
            Ok(_) => shows_status_applied(o, f, success_text(name@), name@, record),
            Err(e) => shows_status(o, f, error_text(name@, e@), ERROR_TICKS),
        },
        Completion::Captured { name, info, record } => match outcome {
            Ok(out) => if info {
                shows_text(o, f, if trimmed(out@).len() == 0 { no_output_text(name@) } else { out@ })
            } else if trimmed(out@).len() == 0 {
                shows_status_applied(o, f, success_text(name@), name@, record)
            } else {
                shows_text_applied(o, f, out@, name@, record)
            },
            Err(e) => shows_status(o, f, error_text(name@, e@), ERROR_TICKS),
        },
        Completion::CustomText => match outcome {
            Ok(_) => shows_status(o, f, "Successfully applied custom text."@, STATUS_TICKS),
            Err(e) => shows_status(o, f, "Error: "@ + e@, ERROR_TICKS),
        },
        Completion::PackageList { outdated } => match outcome {
            Ok(out) => if nonblank(lines_of(out@)).len() == 0 {
                shows_text(o, f, no_packages_text(outdated))
            } else {
                &&& f == App {
                    fullscreen_list: f.fullscreen_list,
                    fullscreen_list_selected: 0,
                    fullscreen_list_title: f.fullscreen_list_title,
                    ..o
                }
                &&& f.fullscreen_list matches Some(l) && views(l@) == nonblank(lines_of(out@))
                &&& f.fullscreen_list_title@ == package_title(outdated)
            },
            Err(e) => shows_text(o, f, fetch_error_text(outdated, e@)),
        },
        Completion::Quiet => match outcome {
            Ok(_) => f == o,
            Err(e) => shows_status(o, f, "Error: "@ + e@, ERROR_TICKS),
        },
    }
}

/// The state and effect after an entry of the given plan is chosen.
pub open spec fn entry_dispatched(o: App, f: App, e: Effect, name: Seq<char>, cmd: Seq<char>) -> bool {
    match plan_of(name, cmd) {
        Plan::Builtin(Builtin::ShowVersion) => e is Idle && shows_text(o, f, "macOS Tweaks v"@ + APP_VERSION@),
        Plan::Builtin(Builtin::Puzzle) => {
            &&& e is Idle
            &&& f == App { sokoban_game: f.sokoban_game, ..o }
            &&& f.sokoban_game matches Some(g) && g.is_initial_level()
        },
        Plan::Builtin(Builtin::CheckBrew) => {
            &&& f == o
            &&& e matches Effect::Probe { program } && program@ == "brew"@
        },
        Plan::Builtin(Builtin::ListInstalled) => {
            &&& f == o
            &&& e matches Effect::Capture { command, then: Completion::PackageList { outdated } }
                && command@ == "brew list"@ && !outdated
        },
        Plan::Builtin(Builtin::ListOutdated) => {
            &&& f == o
            &&& e matches Effect::Capture { command, then: Completion::PackageList { outdated } }
                && command@ == "brew outdated"@ && outdated
        },
        Plan::PromptThenRun => {
            &&& e is Idle
            &&& f == App {
                text_input_prompt: f.text_input_prompt,
                text_input_command_template: f.text_input_command_template,
                input_buffer: f.input_buffer,
                ..o
            }
            &&& message_is(f.text_input_prompt, prompt_text(name))
            &&& message_is(f.text_input_command_template, cmd.subrange(PROMPT_PREFIX@.len() as int, cmd.len() as int))
            &&& f.input_buffer@.len() == 0
        },
        Plan::Header => e is Idle && drilled_in(o, f),
        Plan::ConfirmThenRun => {
            &&& e is Idle
            &&& f == App {
                pending_destructive_command: f.pending_destructive_command,
                confirmation_message: f.confirmation_message,
                input_buffer: f.input_buffer,
                ..o
            }
            &&& f.pending_destructive_command matches Some(p) && p.0@ == name && p.1@ == cmd
            &&& message_is(f.confirmation_message, confirm_text(name))
            &&& f.input_buffer@.len() == 0
        },
        Plan::HandoffRun => {
            &&& shows_status(o, f, starting_text(name, cmd), NOTE_TICKS)
            &&& e matches Effect::Handoff { command, then: Completion::Handoff { name: n, record } }
                && command@ == cmd && n@ == name && record == !is_repeatable(name)
        },
        Plan::CapturedRun => {
            &&& shows_status(o, f, starting_text(name, cmd), NOTE_TICKS)
            &&& e matches Effect::Capture { command, then: Completion::Captured { name: n, info, record } }
                && command@ == cmd && n@ == name && info == is_info(name) && record == !is_repeatable(name)
        },
    }
}

/// The state and effect after Enter in the navigation view.
pub open spec fn dispatched(o: App, f: App, e: Effect) -> bool {
    if o.view_level != 1 {
        e is Idle && drilled_in(o, f)
    } else {
        match o.selected_entry() {
            None => e is Idle && f == o,
            Some(t) => entry_dispatched(o, f, e, t.name@, t.enable_command@),
        }
    }
}

fn success_message(name: &str) -> (r: String)
    ensures
        r@ == success_text(name@),
{
    String::from_str("Successfully applied: ").concat(trim_str(name))
}

fn error_message(name: &str, e: &str) -> (r: String)
    ensures
        r@ == error_text(name@, e@),
{
    String::from_str("Error executing '").concat(trim_str(name)).concat("': ").concat(e)
}

/// Keeps the lines that hold more than whitespace.
fn nonblank_lines(text: &str) -> (r: Vec<String>)
    ensures
        views(r@) == nonblank(lines_of(text@)),
{
    let lines = split_lines(text);
    let ghost ls = views(lines@);
    let mut out: Vec<String> = Vec::new();
    let mut i: usize = 0;
    while i < lines.len()
        invariant
            ls == views(lines@),
            i <= lines@.len(),
            views(out@) == nonblank(ls.take(i as int)),
        decreases lines@.len() - i,
    {
        let ghost before = out@;
        assert(ls.take(i + 1).drop_last() =~= ls.take(i as int));
        assert(ls.take(i + 1).last() == lines@[i as int]@);
        if trim_str(lines[i].as_str()).unicode_len() > 0 {
            out.push(lines[i].clone());
            assert(views(out@) =~= views(before).push(lines@[i as int]@));
        }
        i += 1;
    }
    assert(ls.take(lines@.len() as int) =~= ls);
    out
}

impl App {
    fn set_status(&mut self, m: String, ticks: u32)
        ensures
            *final(self) == (App { status_message: Some(m), status_timer: ticks, ..*old(self) }),
    {
        self.status_message = Some(m);
        self.status_timer = ticks;
    }

    fn show_text(&mut self, m: String)
        ensures
            *final(self) == (App { fullscreen_output: Some(m), fullscreen_output_scroll: 0, ..*old(self) }),
    {
        self.fullscreen_output = Some(m);
        self.fullscreen_output_scroll = 0;
    }

    /// Adds `name` to the applied names if `record` holds and it is not there yet.
    fn record_applied(&mut self, name: &str, record: bool)
        ensures
            *final(self) == (App { applied_tweaks: final(self).applied_tweaks, ..*old(self) }),
            views(final(self).applied_tweaks@) == applied_after(views(old(self).applied_tweaks@), name@, record),
    {
        if !record {
            return;
        }
        let ghost a = views(self.applied_tweaks@);
        let mut i: usize = 0;
        while i < self.applied_tweaks.len()
            invariant
                a == views(self.applied_tweaks@),
                i <= a.len(),
                forall|k: int| 0 <= k < i ==> a[k] != name@,
            decreases a.len() - i,
        {
            if same_str(self.applied_tweaks[i].as_str(), name) {
                assert(a[i as int] == name@);
                return;
            }
            i += 1;
        }
        self.applied_tweaks.push(String::from_str(name));
        assert(views(self.applied_tweaks@) =~= a.push(name@));
        assert(!a.contains(name@));
    }

    /// Decides what choosing the item under the cursor does. At the category list this
    /// opens the category; on a header it opens the header; on an action it follows the
    /// action's plan, handing any command to run back to the caller.
    pub fn apply_selected_tweak(&mut self) -> (e: Effect)
        requires
            old(self).wf(),
            old(self).overlays_closed(),
        ensures
            final(self).wf(),
            dispatched(*old(self), *final(self), e),
    {
        if self.view_level != 1 {
            self.handle_right_key();
            return Effect::Idle;
        }
        let tweak = match self.get_selected_item() {
            None => return Effect::Idle,
            Some(t) => t,
        };
        let name = tweak.name;
        let command = tweak.enable_command;
        match classify(name.as_str(), command.as_str()) {
            Plan::Builtin(Builtin::ShowVersion) => {
                self.show_text(String::from_str("macOS Tweaks v").concat(get_app_version()));
                Effect::Idle
            },
            Plan::Builtin(Builtin::Puzzle) => {
                self.sokoban_game = Some(SokobanGame::new());
                Effect::Idle
            },
            Plan::Builtin(Builtin::CheckBrew) => Effect::Probe { program: String::from_str("brew") },
            Plan::Builtin(Builtin::ListInstalled) => Effect::Capture {
                command: String::from_str("brew list"),
                then: Completion::PackageList { outdated: false },
            },
            Plan::Builtin(Builtin::ListOutdated) => Effect::Capture {
                command: String::from_str("brew outdated"),
                then: Completion::PackageList { outdated: true },
            },
            Plan::PromptThenRun => {
                let n = command.unicode_len();
                let p = PROMPT_PREFIX.unicode_len();
                let template = command.as_str().substring_char(p, n);
                self.text_input_prompt = Some(String::from_str("Enter text for: ").concat(trim_str(name.as_str())));
                self.text_input_command_template = Some(String::from_str(template));
                self.input_buffer = String::new();
                Effect::Idle
            },
            Plan::Header => {
                self.handle_right_key();
                Effect::Idle
            },
            Plan::ConfirmThenRun => {
                let msg = String::from_str("\u{26a0}\u{fe0f}  DESTRUCTIVE ACTION: ").concat(trim_str(name.as_str())).concat(
                    "\nType 'yes' to confirm or press any other key to cancel",
                );
                self.pending_destructive_command = Some((name, command));
                self.confirmation_message = Some(msg);
                self.input_buffer = String::new();
                Effect::Idle
            },
            Plan::HandoffRun => {
                self.note_start(name.as_str(), command.as_str());
                let record = !repeatable_name(name.as_str());
                Effect::Handoff { command, then: Completion::Handoff { name, record } }
            },
            Plan::CapturedRun => {
                self.note_start(name.as_str(), command.as_str());
                let record = !repeatable_name(name.as_str());
                let info = info_name(name.as_str());
                Effect::Capture { command, then: Completion::Captured { name, info, record } }
            },
        }
    }

    /// Shows which kind of command is being started.
    fn note_start(&mut self, name: &str, command: &str)
        ensures
            shows_status(*old(self), *final(self), starting_text(name@, command@), NOTE_TICKS),
    {
        let kind = if info_name(name) {
            "info"
        } else if interactive_entry(name, command) {
            "interactive"
        } else {
            "normal"
        };
        let msg = String::from_str("Executing ").concat(kind).concat(" command: ").concat(trim_str(name));
        self.set_status(msg, NOTE_TICKS);
    }

    /// Takes in the outcome of a command started through an `Effect`: `Ok` with the
    /// captured output (empty after a hand-off), or `Err` with the error's text.
    pub fn complete(&mut self, then: Completion, outcome: Result<String, String>)
        requires
            old(self).wf(),
            old(self).overlays_closed(),
        ensures
            final(self).wf(),
            completed(*old(self), *final(self), then, outcome),
    {
        match then {
            Completion::Handoff { name, record } => match outcome {
                Ok(_) => {
                    self.record_applied(name.as_str(), record);
                    self.set_status(success_message(name.as_str()), STATUS_TICKS);
                },
                Err(e) => self.set_status(error_message(name.as_str(), e.as_str()), ERROR_TICKS),
            },
            Completion::Captured { name, info, record } => match outcome {
                Ok(out) => {
                    let blank = trim_str(out.as_str()).unicode_len() == 0;
                    if info {
                        if blank {
                            let m = String::from_str("'").concat(trim_str(name.as_str())).concat(
                                "' executed successfully with no output.",
                            );
                            self.show_text(m);
                        } else {
                            self.show_text(out);
                        }
                    } else {
                        self.record_applied(name.as_str(), record);
                        if blank {
                            self.set_status(success_message(name.as_str()), STATUS_TICKS);
                        } else {
                            self.show_text(out);
                        }
                    }
                },
                Err(e) => self.set_status(error_message(name.as_str(), e.as_str()), ERROR_TICKS),
            },
            Completion::CustomText => match outcome {
                Ok(_) => self.set_status(String::from_str("Successfully applied custom text."), STATUS_TICKS),
                Err(e) => self.set_status(String::from_str("Error: ").concat(e.as_str()), ERROR_TICKS),
            },
            Completion::PackageList { outdated } => match outcome {
                Ok(out) => {
                    let packages = nonblank_lines(out.as_str());
                    if packages.len() == 0 {
                        let m = if outdated {
                            String::from_str("All Homebrew packages are up to date.")
                        } else {
                            String::from_str("No installed Homebrew packages found.")
                        };
                        self.show_text(m);
                    } else {
                        self.fullscreen_list = Some(packages);
                        self.fullscreen_list_selected = 0;
                        self.fullscreen_list_title = if outdated {
                            String::from_str("Outdated Packages (Press Enter to upgrade)")
                        } else {
                            String::from_str("Installed Packages (Press Enter for info)")
                        };
                    }
                },
                Err(e) => {
                    let m = if outdated {
                        String::from_str("Error fetching outdated packages: ").concat(e.as_str())
                    } else {
                        String::from_str("Error fetching installed packages: ").concat(e.as_str())
                    };
                    self.show_text(m);
                },
            },
            Completion::Quiet => match outcome {
                Ok(_) => {},
                Err(e) => self.set_status(String::from_str("Error: ").concat(e.as_str()), ERROR_TICKS),
            },
        }
    }

    /// Shows whether the probed program was found.
    pub fn finish_probe(&mut self, found: bool)
        requires
            old(self).wf(),
            old(self).overlays_closed(),
        ensures
            final(self).wf(),
            found ==> shows_text(*old(self), *final(self), "Homebrew is installed and available in your PATH."@),
            !found ==> shows_text(*old(self), *final(self), "Homebrew is not installed or not in your PATH."@),
    {
        if found {
            self.show_text(String::from_str("Homebrew is installed and available in your PATH."));
        } else {
            self.show_text(String::from_str("Homebrew is not installed or not in your PATH."));
        }
    }
}

} // verus!
