//! Input routing: at most one overlay owns the keyboard, checked in a fixed order
//! (puzzle, package list, full-screen text, text prompt, confirmation) before the
//! navigation view gets the key.
use vstd::prelude::*;

use crate::app::{drilled_in, drilled_out, message_is, moved, App, STATUS_TICKS};
use crate::dispatch::{dispatched, Completion, Effect};
use crate::sokoban::{stepped, SokobanGame};
use crate::text::{
    contains_str, fill_placeholder, fill_template, lower_of, lowercase, pop_char, push_char,
    same_str, seq_contains, trim_str, trimmed,
};

verus! {

/// A key press, as far as the interface tells keys apart.
#[derive(Debug, Clone, Copy, PartialEq, Eq, Structural)]
pub enum Key {
    Char(char),
    Up,
    Down,
    Left,
    Right,
    Enter,
    Esc,
    Backspace,
    Other,
}

/// The step that a key makes in the puzzle.
pub open spec fn step_of(key: Key) -> Option<(int, int)> {
    match key {
        Key::Char('w') | Key::Up => Some((0, -1)),
        Key::Char('s') | Key::Down => Some((0, 1)),
        Key::Char('a') | Key::Left => Some((-1, 0)),
        Key::Char('d') | Key::Right => Some((1, 0)),
        _ => None,
    }
}

/// The input buffer after a key that edits it; `None` for any other key.
pub open spec fn edited(buf: Seq<char>, key: Key) -> Option<Seq<char>> {
    match key {
        Key::Char(c) => Some(buf.push(c)),
        Key::Backspace => Some(if buf.len() == 0 { buf } else { buf.drop_last() }),
        _ => None,
    }
}

/// Only the input buffer changed, as the key edits it.
pub open spec fn buffer_edited(o: App, f: App, key: Key) -> bool {
    &&& f == App { input_buffer: f.input_buffer, ..o }
    &&& f.input_buffer@ == edited(o.input_buffer@, key)->Some_0
}

/// A key while the puzzle is open.
pub open spec fn puzzle_keyed(o: App, f: App, key: Key) -> bool {
    let g = o.sokoban_game->Some_0;
    if key == Key::Char('q') || key == Key::Esc {
        f == App { sokoban_game: None, ..o }
    } else if key == Key::Char('r') {
        &&& f == App { sokoban_game: f.sokoban_game, ..o }
        &&& f.sokoban_game matches Some(h) && h.is_initial_level()
    } else if step_of(key) is Some && g.moves < u32::MAX {
        &&& f == App { sokoban_game: f.sokoban_game, ..o }
        &&& f.sokoban_game matches Some(h) && stepped(g, h, step_of(key)->Some_0.0, step_of(key)->Some_0.1)
    } else {
        f == o
    }
}

/// A key while the package list is open.
pub open spec fn list_keyed(o: App, f: App, e: Effect, key: Key) -> bool {
    let l = o.fullscreen_list->Some_0@;
    let n = l.len() as int;
    let i = o.fullscreen_list_selected as int;
    if n == 0 {
        f == o && e is Idle
    } else if key == Key::Up {
        e is Idle && f == App { fullscreen_list_selected: (if i == 0 { n - 1 } else { i - 1 }) as usize, ..o }
    } else if key == Key::Down {
        e is Idle && f == App { fullscreen_list_selected: ((i + 1) % n) as usize, ..o }
    } else if key == Key::Enter {
        &&& f == App { fullscreen_list: None, ..o }
        &&& e matches Effect::Handoff { command, then } && then is Quiet && command@ == (if seq_contains(
            o.fullscreen_list_title@,
            "Outdated"@,
        ) {
            "brew upgrade "@
        } else {
            "brew info "@
        }) + l[i]@
    } else if key == Key::Esc || key == Key::Char('q') {
        e is Idle && f == App { fullscreen_list: None, ..o }
    } else {
        f == o && e is Idle
    }
}

/// A key while full-screen text is shown: arrows scroll, anything else closes it.
pub open spec fn text_keyed(o: App, f: App, key: Key) -> bool {
    let s = o.fullscreen_output_scroll;
    if key == Key::Up {
        f == App { fullscreen_output_scroll: if s == 0 { 0 } else { (s - 1) as u16 }, ..o }
    } else if key == Key::Down {
        f == App { fullscreen_output_scroll: if s == u16::MAX { s } else { (s + 1) as u16 }, ..o }
    } else {
        f == App { fullscreen_output: None, fullscreen_output_scroll: 0, ..o }
    }
}

/// The prompt is closed and its buffer emptied; nothing else changed but `status`.
pub open spec fn prompt_closed(o: App, f: App) -> bool {
    &&& f == App {
        text_input_prompt: None,
        text_input_command_template: None,
        input_buffer: f.input_buffer,
        status_message: f.status_message,
        status_timer: f.status_timer,
        ..o
    }
    &&& f.input_buffer@.len() == 0
}

/// Submitting the prompt: the template, with its placeholder filled from the buffer,
/// becomes a captured run.
pub open spec fn prompt_submitted(o: App, f: App, e: Effect) -> bool {
    &&& prompt_closed(o, f)
    &&& f.status_message == o.status_message && f.status_timer == o.status_timer
    &&& match o.text_input_command_template {
        Some(t) => e matches Effect::Capture { command, then } && then is CustomText && command@
            == fill_placeholder(t@, o.input_buffer@),
        None => e is Idle,
    }
}

/// Cancelling the prompt: nothing runs.
pub open spec fn prompt_cancelled(o: App, f: App) -> bool {
    &&& prompt_closed(o, f)
    &&& f.status_timer == STATUS_TICKS
    &&& message_is(f.status_message, "Action canceled."@)
}

/// A key while the text prompt is open.
pub open spec fn prompt_keyed(o: App, f: App, e: Effect, key: Key) -> bool {
    if edited(o.input_buffer@, key) is Some {
        e is Idle && buffer_edited(o, f, key)
    } else if key == Key::Enter {
        prompt_submitted(o, f, e)
    } else if key == Key::Esc {
        e is Idle && prompt_cancelled(o, f)
    } else {
        e is Idle && f == o
    }
}

/// Resolving a confirmation with the normalised answer `answer`: the pending command
/// is handed out only when the answer is exactly `yes`. Either way the pending
/// command, the prompt and the buffer are cleared.
pub open spec fn confirmed(o: App, f: App, e: Effect, answer: Seq<char>) -> bool {
    let runs = o.pending_destructive_command is Some && answer == "yes"@;
    let cancels = o.pending_destructive_command is Some && answer != "yes"@;
    &&& f == App {
        pending_destructive_command: None,
        confirmation_message: None,
        input_buffer: f.input_buffer,
        status_message: f.status_message,
        status_timer: f.status_timer,
        ..o
    }
    &&& f.input_buffer@.len() == 0
    &&& !cancels ==> f.status_message == o.status_message && f.status_timer == o.status_timer
    &&& cancels ==> f.status_timer == STATUS_TICKS && message_is(f.status_message, "Action canceled."@)
    &&& !runs ==> e is Idle
    &&& runs ==> (e matches Effect::Handoff { command, then: Completion::Handoff { name, record } }
        && command@ == o.pending_destructive_command->Some_0.1@ && name@
        == o.pending_destructive_command->Some_0.0@ && !record)
}

/// A key while a destructive action waits for confirmation.
pub open spec fn confirm_keyed(o: App, f: App, e: Effect, key: Key) -> bool {
    if edited(o.input_buffer@, key) is Some {
        e is Idle && buffer_edited(o, f, key)
    } else if key == Key::Enter {
        confirmed(o, f, e, lower_of(trimmed(o.input_buffer@)))
    } else if key == Key::Esc {
        confirmed(o, f, e, "no"@)
    } else {
        e is Idle && f == o
    }
}

/// A key in the navigation view.
pub open spec fn main_keyed(o: App, f: App, e: Effect, key: Key) -> bool {
    match key {
        Key::Char('q') => e is Idle && f == App { should_quit: true, ..o },
        Key::Enter => dispatched(o, f, e),
        Key::Right => e is Idle && drilled_in(o, f),
        Key::Left => e is Idle && drilled_out(o, f),
        Key::Up => e is Idle && moved(o, f, false),
        Key::Down => e is Idle && moved(o, f, true),
        _ => e is Idle && f == o,
    }
}

/// Which part of the interface a key goes to, and what it does there.
pub open spec fn routed(o: App, f: App, e: Effect, key: Key) -> bool {
    if o.sokoban_game is Some {
        e is Idle && puzzle_keyed(o, f, key)
    } else if o.fullscreen_list is Some {
        list_keyed(o, f, e, key)
    } else if o.fullscreen_output is Some {
        e is Idle && text_keyed(o, f, key)
    } else if o.text_input_prompt is Some {
        prompt_keyed(o, f, e, key)
    } else if o.confirmation_message is Some {
        confirm_keyed(o, f, e, key)
    } else {
        main_keyed(o, f, e, key)
    }
}

impl App {
    /// Applies a key that edits the input buffer.
    fn edit_buffer(&mut self, key: Key)
        requires
            edited(old(self).input_buffer@, key) is Some,
        ensures
            buffer_edited(*old(self), *final(self), key),
    {
        match key {
            Key::Char(c) => push_char(&mut self.input_buffer, c),
            _ => {
                pop_char(&mut self.input_buffer);
            },
        }
    }

    /// Resolves the pending confirmation with an answer already trimmed and lower-cased.
    pub fn confirm_with(&mut self, answer: &str) -> (e: Effect)
        requires
            old(self).wf(),
        ensures
            final(self).wf(),
            confirmed(*old(self), *final(self), e, answer@),
    {
        let e = match self.pending_destructive_command.take() {
            Some(p) => {
                if same_str(answer, "yes") {
                    let (name, command) = p;
                    Effect::Handoff { command, then: Completion::Handoff { name, record: false } }
                } else {
                    self.status_message = Some(String::from_str("Action canceled."));
                    self.status_timer = STATUS_TICKS;
                    Effect::Idle
                }
            },
            None => Effect::Idle,
        };
        self.confirmation_message = None;
        self.input_buffer = String::new();
        e
    }

    /// Resolves the pending confirmation with what the user typed: it goes ahead only if
    /// the input, trimmed and lower-cased, is `yes`.
    pub fn handle_confirmation(&mut self, input: &str) -> (e: Effect)
        requires
            old(self).wf(),
        ensures
            final(self).wf(),
            confirmed(*old(self), *final(self), e, lower_of(trimmed(input@))),
    {
        let answer = lowercase(trim_str(input));
        self.confirm_with(answer.as_str())
    }

    /// Submits the text prompt: fills the template's placeholder with the buffer.
    pub fn submit_text_input(&mut self) -> (e: Effect)
        requires
            old(self).wf(),
        ensures
            final(self).wf(),
            prompt_submitted(*old(self), *final(self), e),
    {
        let e = match self.text_input_command_template.take() {
            Some(t) => Effect::Capture {
                command: fill_template(t.as_str(), self.input_buffer.as_str()),
                then: Completion::CustomText,
            },
            None => Effect::Idle,
        };
        self.text_input_prompt = None;
        self.input_buffer = String::new();
        e
    }

    /// Closes the text prompt without running anything.
    pub fn cancel_text_input(&mut self)
        requires
            old(self).wf(),
        ensures
            final(self).wf(),
            prompt_cancelled(*old(self), *final(self)),
    {
        self.text_input_prompt = None;
        self.text_input_command_template = None;
        self.input_buffer = String::new();
        self.status_message = Some(String::from_str("Action canceled."));
        self.status_timer = STATUS_TICKS;
    }

    fn handle_sokoban_key(&mut self, key: Key)
        requires
            old(self).wf(),
            old(self).sokoban_game is Some,
        ensures
            final(self).wf(),
            puzzle_keyed(*old(self), *final(self), key),
    {
        if key == Key::Char('q') || key == Key::Esc {
            self.sokoban_game = None;
            return;
        }
        if key == Key::Char('r') {
            self.sokoban_game = Some(SokobanGame::new());
            return;
        }
        let (dx, dy): (i32, i32) = match key {
            Key::Char('w') | Key::Up => (0, -1),
            Key::Char('s') | Key::Down => (0, 1),
            Key::Char('a') | Key::Left => (-1, 0),
            Key::Char('d') | Key::Right => (1, 0),
            _ => return,
        };
        match self.sokoban_game.take() {
            Some(mut g) => {
                if g.moves < u32::MAX {
                    g.move_player(dx, dy);
                }
                self.sokoban_game = Some(g);
            },
            None => {},
        }
    }

    fn handle_fullscreen_list_key(&mut self, key: Key) -> (e: Effect)
        requires
            old(self).wf(),
            old(self).fullscreen_list is Some,
        ensures
            final(self).wf(),
            list_keyed(*old(self), *final(self), e, key),
    {
        let count = match &self.fullscreen_list {
            Some(l) => l.len(),
            None => 0,
        };
        if count == 0 {
            return Effect::Idle;
        }
        let selected = self.fullscreen_list_selected;
        match key {
            Key::Up => {
                self.fullscreen_list_selected = if selected == 0 { count - 1 } else { selected - 1 };
                Effect::Idle
            },
            Key::Down => {
                self.fullscreen_list_selected = (selected + 1) % count;
                Effect::Idle
            },
            Key::Enter => {
                let list = self.fullscreen_list.take();
                match list {
                    Some(l) => {
                        let prefix = if contains_str(self.fullscreen_list_title.as_str(), "Outdated") {
                            "brew upgrade "
                        } else {
                            "brew info "
                        };
                        let command = String::from_str(prefix).concat(l[selected].as_str());
                        Effect::Handoff { command, then: Completion::Quiet }
                    },
                    None => Effect::Idle,
                }
            },
            Key::Esc | Key::Char('q') => {
                self.fullscreen_list = None;
                Effect::Idle
            },
            _ => Effect::Idle,
        }
    }

    fn handle_fullscreen_text_key(&mut self, key: Key)
        requires
            old(self).wf(),
        ensures
            final(self).wf(),
            text_keyed(*old(self), *final(self), key),
    {
        match key {
            Key::Up => {
                if self.fullscreen_output_scroll > 0 {
                    self.fullscreen_output_scroll = self.fullscreen_output_scroll - 1;
                }
            },
            Key::Down => {
                if self.fullscreen_output_scroll < u16::MAX {
                    self.fullscreen_output_scroll = self.fullscreen_output_scroll + 1;
                }
            },
            _ => {
                self.fullscreen_output = None;
                self.fullscreen_output_scroll = 0;
            },
        }
    }

    fn handle_text_input_key(&mut self, key: Key) -> (e: Effect)
        requires
            old(self).wf(),
        ensures
            final(self).wf(),
            prompt_keyed(*old(self), *final(self), e, key),
    {
        match key {
            Key::Char(_) | Key::Backspace => {
                self.edit_buffer(key);
                Effect::Idle
            },
            Key::Enter => self.submit_text_input(),
            Key::Esc => {
                self.cancel_text_input();
                Effect::Idle
            },
            _ => Effect::Idle,
        }
    }

    fn handle_confirmation_key(&mut self, key: Key) -> (e: Effect)
        requires
            old(self).wf(),
        ensures
            final(self).wf(),
            confirm_keyed(*old(self), *final(self), e, key),
    {
        match key {
            Key::Char(_) | Key::Backspace => {
                self.edit_buffer(key);
                Effect::Idle
            },
            Key::Enter => {
                let input = self.input_buffer.clone();
                self.handle_confirmation(input.as_str())
            },
            Key::Esc => self.confirm_with("no"),
            _ => Effect::Idle,
        }
    }

    fn handle_main_key(&mut self, key: Key) -> (e: Effect)
        requires
            old(self).wf(),
            old(self).overlays_closed(),
        ensures
            final(self).wf(),
            main_keyed(*old(self), *final(self), e, key),
    {
        match key {
            Key::Char('q') => {
                self.should_quit = true;
                Effect::Idle
            },
            Key::Enter => self.apply_selected_tweak(),
            Key::Right => {
                self.handle_right_key();
                Effect::Idle
            },
            Key::Left => {
                self.handle_left_key();
                Effect::Idle
            },
            Key::Up => {
                self.previous_item();
                Effect::Idle
            },
            Key::Down => {
                self.next_item();
                Effect::Idle
            },
            _ => Effect::Idle,
        }
    }

    /// Sends a key to the overlay that owns the keyboard, or to the navigation view
    /// when none is open, and returns any command that must now be run.
    pub fn handle_key(&mut self, key: Key) -> (e: Effect)
        requires
            old(self).wf(),
        ensures
            final(self).wf(),
            routed(*old(self), *final(self), e, key),
            !(e is Idle) ==> final(self).overlays_closed(),
    {
        if self.sokoban_game.is_some() {
            self.handle_sokoban_key(key);
            Effect::Idle
        } else if self.fullscreen_list.is_some() {
            self.handle_fullscreen_list_key(key)
        } else if self.fullscreen_output.is_some() {
            self.handle_fullscreen_text_key(key);
            Effect::Idle
        } else if self.text_input_prompt.is_some() {
            self.handle_text_input_key(key)
        } else if self.confirmation_message.is_some() {
            self.handle_confirmation_key(key)
        } else {
            self.handle_main_key(key)
        }
    }
}

} // verus!
