//! The interface state: the two-level navigation over the catalog, the overlays
//! and the status line.
use vstd::prelude::*;

use crate::catalog::{
    category_name_list, category_names, find_named, first_named, header_list, header_names, header_position, nth_header, is_tree, lemma_trees_each,
    names_of, option_list, option_names, TopLevelCategory,
};
use crate::config::Config;
use crate::sokoban::SokobanGame;
use crate::text::{eq_ignore_ascii_case_spec, eq_ignore_ascii_case_str, trim_str, trimmed, views};
use crate::tweaks::{same_tweak, Tweak};

verus! {

pub const APP_VERSION: &'static str = "0.1.0";

/// Ticks that an ordinary status message stays on screen.
pub const STATUS_TICKS: u32 = 50;

/// Ticks that an error message stays on screen.
pub const ERROR_TICKS: u32 = 80;

/// Ticks that the note about a command being started stays on screen.
pub const NOTE_TICKS: u32 = 20;

pub fn get_app_version() -> (r: &'static str)
    ensures
        r@ == APP_VERSION@,
{
    APP_VERSION
}

/// Everything the interface shows and remembers during a session.
#[derive(Debug)]
pub struct App {
    /// 0: the categories; 1: the entries of the selected category.
    pub view_level: u8,
    /// The cursor at each level.
    pub selected_indices: [usize; 2],
    /// The header whose options are shown, at level 1.
    pub viewing_sub_category: Option<String>,
    pub should_quit: bool,
    pub categories: Vec<TopLevelCategory>,
    /// Names of the entries run successfully in this session.
    pub applied_tweaks: Vec<String>,
    pub status_message: Option<String>,
    /// Render ticks left before the status message is cleared.
    pub status_timer: u32,
    /// Name and command of a destructive entry waiting for confirmation.
    pub pending_destructive_command: Option<(String, String)>,
    pub confirmation_message: Option<String>,
    pub text_input_prompt: Option<String>,
    pub text_input_command_template: Option<String>,
    pub input_buffer: String,
    pub fullscreen_output: Option<String>,
    pub fullscreen_output_scroll: u16,
    pub config: Config,
    pub fullscreen_list: Option<Vec<String>>,
    pub fullscreen_list_selected: usize,
    pub fullscreen_list_title: String,
    pub sokoban_game: Option<SokobanGame>,
}

/// A catalog entry whose trimmed name equals the trimmed query, ignoring ASCII case.
pub open spec fn name_matches(t: Tweak, q: Seq<char>) -> bool {
    eq_ignore_ascii_case_spec(trimmed(t.name@), trimmed(q))
}

/// The message is present and holds exactly the text `s`.
pub open spec fn message_is(m: Option<String>, s: Seq<char>) -> bool {
    m matches Some(x) && x@ == s
}

impl App {
    /// The entries of the selected category.
    pub open spec fn current_tweaks(&self) -> Seq<Tweak> {
        self.categories@[self.selected_indices@[0] as int].tweaks@
    }

    /// The list shown at the current level.
    pub open spec fn current_list(&self) -> Seq<Seq<char>> {
        if self.view_level == 0 {
            category_names(self.categories@)
        } else if self.view_level == 1 {
            match self.viewing_sub_category {
                Some(h) => option_names(names_of(self.current_tweaks()), h@),
                None => header_names(names_of(self.current_tweaks())),
            }
        } else {
            Seq::empty()
        }
    }

    /// The entry under the cursor at level 1, found by its position: in the header
    /// list, the `sel`-th entry that is not indented; under header `h`, the entry `sel`
    /// places after the first entry named `h`.
    pub open spec fn selected_entry(&self) -> Option<Tweak> {
        let ts = self.current_tweaks();
        let sel = self.selected_indices@[1] as int;
        if self.view_level == 1 && sel < self.current_list().len() {
            match self.viewing_sub_category {
                None => match nth_header(names_of(ts), sel, 0) {
                    Some(k) => Some(ts[k]),
                    None => None,
                },
                Some(h) => match first_named(ts, h@, 0) {
                    Some(k) => if k + 1 + sel < ts.len() {
                        Some(ts[k + 1 + sel])
                    } else {
                        None
                    },
                    None => None,
                },
            }
        } else {
            None
        }
    }

    /// The state invariant: the level is 0 or 1, the cursors point into their lists,
    /// a header is only open at level 1, no name is recorded as applied twice, and at
    /// most one overlay is open.
    pub open spec fn wf(&self) -> bool {
        &&& self.view_level <= 1
        &&& self.categories@.len() > 0
        &&& self.selected_indices@[0] < self.categories@.len()
        &&& self.view_level == 0 ==> self.viewing_sub_category is None
        &&& self.current_list().len() > 0 ==> self.selected_indices@[self.view_level as int]
            < self.current_list().len()
        &&& self.fullscreen_list matches Some(l) ==> (l@.len() > 0 ==> self.fullscreen_list_selected
            < l@.len())
        &&& self.sokoban_game matches Some(g) ==> g.wf()
        &&& views(self.applied_tweaks@).no_duplicates()
        &&& self.open_overlays() <= 1
    }

    /// How many of the overlays (puzzle, package list, full-screen text, text prompt,
    /// confirmation) are open.
    pub open spec fn open_overlays(&self) -> int {
        (if self.sokoban_game is Some { 1int } else { 0int }) + (if self.fullscreen_list is Some {
            1int
        } else {
            0int
        }) + (if self.fullscreen_output is Some { 1int } else { 0int }) + (if self.text_input_prompt is Some {
            1int
        } else {
            0int
        }) + (if self.confirmation_message is Some { 1int } else { 0int })
    }

    /// No overlay is open: the navigation view owns the keyboard.
    pub open spec fn overlays_closed(&self) -> bool {
        self.open_overlays() == 0
    }

    /// The state at start-up: the category list, nothing open, nothing applied.
    pub open spec fn is_initial(&self) -> bool {
        &&& self.view_level == 0
        &&& self.selected_indices@ == seq![0usize, 0usize]
        &&& self.viewing_sub_category is None
        &&& !self.should_quit
        &&& self.applied_tweaks@.len() == 0
        &&& self.status_message is None
        &&& self.status_timer == 0
        &&& self.pending_destructive_command is None
        &&& self.confirmation_message is None
        &&& self.text_input_prompt is None
        &&& self.text_input_command_template is None
        &&& self.input_buffer@.len() == 0
        &&& self.fullscreen_output is None
        &&& self.fullscreen_list is None
        &&& self.sokoban_game is None
    }

    /// Whether `name` is recorded as applied.
    pub open spec fn is_applied(&self, name: Seq<char>) -> bool {
        views(self.applied_tweaks@).contains(name)
    }
}

/// The effect of moving into the selected item (right arrow, or Enter on a category).
pub open spec fn drilled_in(o: App, f: App) -> bool {
    if o.view_level == 0 {
        if o.categories@[o.selected_indices@[0] as int].tweaks@.len() > 0 {
            &&& f == App { view_level: 1, selected_indices: f.selected_indices, ..o }
            &&& f.selected_indices@ == o.selected_indices@.update(1, 0)
        } else {
            &&& f == App { status_message: f.status_message, status_timer: STATUS_TICKS, ..o }
            &&& message_is(f.status_message, "This category is empty."@)
        }
    } else if o.viewing_sub_category is None && o.selected_entry() is Some
        && o.selected_entry()->Some_0.enable_command@.len() == 0 {
        &&& f == App {
            viewing_sub_category: f.viewing_sub_category,
            selected_indices: f.selected_indices,
            ..o
        }
        &&& message_is(f.viewing_sub_category, o.selected_entry()->Some_0.name@)
        &&& f.selected_indices@ == o.selected_indices@.update(1, 0)
    } else {
        f == o
    }
}

/// The effect of going back one step (left arrow).
pub open spec fn drilled_out(o: App, f: App) -> bool {
    if o.view_level == 1 && o.viewing_sub_category is Some {
        &&& f == App { viewing_sub_category: None, selected_indices: f.selected_indices, ..o }
        &&& f.selected_indices@ == o.selected_indices@.update(1, 0)
    } else if o.view_level == 1 {
        f == App { view_level: 0, ..o }
    } else {
        f == o
    }
}

/// The effect of one render tick on the status line.
pub open spec fn ticked(o: App, f: App) -> bool {
    if o.status_timer == 0 {
        f == o
    } else if o.status_timer == 1 {
        f == App { status_timer: 0, status_message: None, ..o }
    } else {
        f == App { status_timer: (o.status_timer - 1) as u32, ..o }
    }
}

/// No entry of any category matches the query.
pub open spec fn no_match(cs: Seq<TopLevelCategory>, q: Seq<char>) -> bool {
    forall|c: int, i: int|
        0 <= c < cs.len() && 0 <= i < cs[c].tweaks@.len() ==> !name_matches(#[trigger] cs[c].tweaks@[i], q)
}

/// `t` is a copy of the first matching entry, categories and entries taken in order.
pub open spec fn first_match(cs: Seq<TopLevelCategory>, q: Seq<char>, t: Tweak) -> bool {
    exists|c: int, i: int|
        {
            &&& 0 <= c < cs.len()
            &&& 0 <= i < cs[c].tweaks@.len()
            &&& name_matches(#[trigger] cs[c].tweaks@[i], q)
            &&& same_tweak(t, cs[c].tweaks@[i])
            &&& no_match(cs.take(c), q)
            &&& forall|i2: int| 0 <= i2 < i ==> !name_matches(#[trigger] cs[c].tweaks@[i2], q)
        }
}

/// The effect of moving the cursor by one, with wraparound, over the list shown.
pub open spec fn moved(o: App, f: App, forward: bool) -> bool {
    let n = o.current_list().len() as int;
    let d = o.view_level as int;
    let i = o.selected_indices@[d];
    if n == 0 {
        f == o
    } else {
        &&& f == App { selected_indices: f.selected_indices, ..o }
        &&& f.selected_indices@ == o.selected_indices@.update(
            d,
            (if forward {
                (i + 1) % n
            } else if i == 0 {
                n - 1
            } else {
                i - 1
            }) as usize,
        )
    }
}

impl App {
    /// A session over the given catalog, at the category list.
    pub fn with_catalog(config: Config, categories: Vec<TopLevelCategory>) -> (r: App)
        requires
            categories@.len() > 0,
        ensures
            r.wf(),
            r.is_initial(),
            r.categories == categories,
            r.config == config,
    {
        App {
            view_level: 0,
            selected_indices: [0, 0],
            viewing_sub_category: None,
            should_quit: false,
            categories,
            applied_tweaks: Vec::new(),
            status_message: None,
            status_timer: 0,
            pending_destructive_command: None,
            confirmation_message: None,
            text_input_prompt: None,
            text_input_command_template: None,
            input_buffer: String::new(),
            fullscreen_output: None,
            fullscreen_output_scroll: 0,
            config,
            fullscreen_list: None,
            fullscreen_list_selected: 0,
            fullscreen_list_title: String::new(),
            sokoban_game: None,
        }
    }

    /// A session over the built-in catalog: thirteen categories, each a tree of
    /// headers and options.
    pub fn new(config: Config) -> (r: App)
        ensures
            r.wf(),
            r.is_initial(),
            r.config == config,
            r.categories@.len() == 13,
            forall|c: int| 0 <= c < 13 ==> is_tree(#[trigger] r.categories@[c].tweaks@),
    {
        let categories = crate::defaults::default_categories();
        proof {
            lemma_trees_each(categories@, 0);
        }
        App::with_catalog(config, categories)
    }

    /// The list shown at the current level.
    pub fn get_current_list_items(&self) -> (r: Vec<String>)
        requires
            self.wf(),
        ensures
            views(r@) == self.current_list(),
    {
        if self.view_level == 0 {
            category_name_list(&self.categories)
        } else {
            let ts = &self.categories[self.selected_indices[0]].tweaks;
            match &self.viewing_sub_category {
                Some(h) => option_list(ts, h.as_str()),
                None => header_list(ts),
            }
        }
    }

    /// A copy of the entry under the cursor, at level 1.
    pub fn get_selected_item(&self) -> (r: Option<Tweak>)
        requires
            self.wf(),
        ensures
            r is Some <==> self.selected_entry() is Some,
            r matches Some(t) ==> same_tweak(t, self.selected_entry()->Some_0),
    {
        if self.view_level != 1 {
            return None;
        }
        let count = self.get_current_list_items().len();
        let i = self.selected_indices[1];
        if i >= count {
            return None;
        }
        let ts = &self.categories[self.selected_indices[0]].tweaks;
        match &self.viewing_sub_category {
            None => match header_position(ts, i) {
                Some(k) => Some(ts[k].duplicate()),
                None => None,
            },
            Some(h) => match find_named(ts, h.as_str()) {
                Some(k) => {
                    if k < ts.len() - 1 && i < ts.len() - 1 - k {
                        Some(ts[k + 1 + i].duplicate())
                    } else {
                        None
                    }
                },
                None => None,
            },
        }
    }

    /// Whether no overlay is open.
    pub fn no_overlay_open(&self) -> (r: bool)
        ensures
            r == self.overlays_closed(),
    {
        self.sokoban_game.is_none() && self.fullscreen_list.is_none() && self.fullscreen_output.is_none()
            && self.text_input_prompt.is_none() && self.confirmation_message.is_none()
    }

    /// Moves the cursor down, wrapping from the last item to the first.
    pub fn next_item(&mut self)
        requires
            old(self).wf(),
        ensures
            final(self).wf(),
            moved(*old(self), *final(self), true),
            old(self).current_list().len() > 0 && old(self).selected_indices@[old(self).view_level as int] + 1
                == old(self).current_list().len() ==> final(self).selected_indices@[old(self).view_level as int]
                == 0,
    {
        let count = self.get_current_list_items().len();
        if count == 0 {
            return;
        }
        let d: usize = if self.view_level == 0 { 0 } else { 1 };
        let index = self.selected_indices[d];
        let new_index = (index + 1) % count;
        proof {
            if index + 1 == count {
                vstd::arithmetic::div_mod::lemma_mod_self_0(count as int);
            }
        }
        self.selected_indices[d] = new_index;
    }

    /// Moves the cursor up, wrapping from the first item to the last.
    pub fn previous_item(&mut self)
        requires
            old(self).wf(),
        ensures
            final(self).wf(),
            moved(*old(self), *final(self), false),
            old(self).current_list().len() > 0 && old(self).selected_indices@[old(self).view_level as int]
                == 0 ==> final(self).selected_indices@[old(self).view_level as int] + 1 == old(
                self,
            ).current_list().len(),
    {
        let count = self.get_current_list_items().len();
        if count == 0 {
            return;
        }
        let d: usize = if self.view_level == 0 { 0 } else { 1 };
        let index = self.selected_indices[d];
        let new_index = if index == 0 { count - 1 } else { index - 1 };
        self.selected_indices[d] = new_index;
    }

    /// Opens the selected category, or the selected header; an empty category only
    /// gets a status message.
    pub fn handle_right_key(&mut self)
        requires
            old(self).wf(),
        ensures
            final(self).wf(),
            drilled_in(*old(self), *final(self)),
    {
        if self.view_level == 0 {
            let c = self.selected_indices[0];
            if self.categories[c].tweaks.len() > 0 {
                self.view_level = 1;
                self.selected_indices[1] = 0;
            } else {
                self.status_message = Some(String::from_str("This category is empty."));
                self.status_timer = STATUS_TICKS;
            }
        } else if self.viewing_sub_category.is_none() {
            if let Some(item) = self.get_selected_item() {
                if item.enable_command.unicode_len() == 0 {
                    self.viewing_sub_category = Some(item.name);
                    self.selected_indices[1] = 0;
                }
            }
        }
    }

    /// Closes the open header, or goes back from a category to the category list.
    pub fn handle_left_key(&mut self)
        requires
            old(self).wf(),
        ensures
            final(self).wf(),
            drilled_out(*old(self), *final(self)),
    {
        if self.view_level == 1 {
            if self.viewing_sub_category.is_some() {
                self.viewing_sub_category = None;
                self.selected_indices[1] = 0;
            } else {
                self.view_level = 0;
            }
        }
    }

    /// Counts one render tick down and clears the status message when it runs out.
    pub fn update_status_timer(&mut self)
        ensures
            ticked(*old(self), *final(self)),
    {
        if self.status_timer > 0 {
            self.status_timer = self.status_timer - 1;
            if self.status_timer == 0 {
                self.status_message = None;
            }
        }
    }

    /// The first entry, over all categories in order, whose trimmed name equals the
    /// trimmed `name` without regard to ASCII case.
    pub fn find_tweak_by_name(&self, name: &str) -> (r: Option<Tweak>)
        ensures
            r is None <==> no_match(self.categories@, name@),
            r matches Some(t) ==> first_match(self.categories@, name@, t),
    {
        let q = trim_str(name);
        let mut c: usize = 0;
        while c < self.categories.len()
            invariant
                c <= self.categories@.len(),
                q@ == trimmed(name@),
                no_match(self.categories@.take(c as int), name@),
            decreases self.categories@.len() - c,
        {
            let ts = &self.categories[c].tweaks;
            let mut i: usize = 0;
            while i < ts.len()
                invariant
                    c < self.categories@.len(),
                    ts == self.categories@[c as int].tweaks,
                    i <= ts@.len(),
                    q@ == trimmed(name@),
                    no_match(self.categories@.take(c as int), name@),
                    forall|i2: int| 0 <= i2 < i ==> !name_matches(#[trigger] ts@[i2], name@),
                decreases ts@.len() - i,
            {
                let tn = trim_str(ts[i].name.as_str());
                if eq_ignore_ascii_case_str(tn, q) {
                    assert(name_matches(self.categories@[c as int].tweaks@[i as int], name@));
                    let r = ts[i].duplicate();
                    assert(first_match(self.categories@, name@, r));
                    return Some(r);
                }
                i += 1;
            }
            assert forall|c2: int, i2: int|
                0 <= c2 < c + 1 && 0 <= i2 < self.categories@.take(c + 1)[c2].tweaks@.len() implies !name_matches(
                #[trigger] self.categories@.take(c + 1)[c2].tweaks@[i2],
                name@,
            ) by {
                if c2 < c {
                    assert(self.categories@.take(c + 1)[c2] == self.categories@.take(c as int)[c2]);
                }
            }
            c += 1;
        }
        assert(self.categories@.take(c as int) =~= self.categories@);
        None
    }
}

} // verus!
