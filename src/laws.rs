//! Properties that hold across the operations of the interface.
use vstd::prelude::*;

use crate::app::{drilled_in, moved, App};
use crate::classify::{plan_of, Plan};
use crate::dispatch::{applied_after, dispatched, Effect};
use crate::overlay::{routed, Key};
use crate::text::{lower_of, trimmed};

verus! {

/// Moving down from the last item of a non-empty list lands on the first item, and
/// moving up from the first item lands on the last.
pub proof fn lemma_wraparound(o: App, f: App, forward: bool)
    requires
        o.wf(),
        0 < o.current_list().len() <= usize::MAX,
        moved(o, f, forward),
    ensures
        forward && o.selected_indices@[o.view_level as int] + 1 == o.current_list().len()
            ==> f.selected_indices@[o.view_level as int] == 0,
        !forward && o.selected_indices@[o.view_level as int] == 0 ==> f.selected_indices@[o.view_level as int]
            + 1 == o.current_list().len(),
{
    let n = o.current_list().len() as int;
    if forward && o.selected_indices@[o.view_level as int] + 1 == n {
        vstd::arithmetic::div_mod::lemma_mod_self_0(n);
    }
}

/// Opening a category that has no entries keeps the category list on screen and
/// leaves a status message with time left to show.
pub proof fn lemma_empty_category(o: App, f: App)
    requires
        o.wf(),
        o.view_level == 0,
        o.categories@[o.selected_indices@[0] as int].tweaks@.len() == 0,
        drilled_in(o, f),
    ensures
        f.view_level == o.view_level,
        f.status_message is Some,
        f.status_timer > 0,
{
}

/// Choosing a destructive entry never hands out its command: it only asks for
/// confirmation.
pub proof fn lemma_destructive_selection_waits(o: App, f: App, e: Effect)
    requires
        o.wf(),
        o.view_level == 1,
        o.selected_entry() matches Some(t) && plan_of(t.name@, t.enable_command@) == Plan::ConfirmThenRun,
        dispatched(o, f, e),
    ensures
        e is Idle,
        f.pending_destructive_command is Some,
        f.confirmation_message is Some,
{
}

/// While a destructive entry waits for confirmation, a key hands out a command only
/// if it is Enter and the typed answer, trimmed and lower-cased, is exactly `yes`;
/// the command handed out is then the pending one. Whatever the key resolves, the
/// pending command, the prompt and the buffer are cleared together.
pub proof fn lemma_confirmation_gate(o: App, f: App, e: Effect, key: Key)
    requires
        o.wf(),
        o.sokoban_game is None,
        o.fullscreen_list is None,
        o.fullscreen_output is None,
        o.text_input_prompt is None,
        o.confirmation_message is Some,
        routed(o, f, e, key),
    ensures
        !(e is Idle) ==> key == Key::Enter && lower_of(trimmed(o.input_buffer@)) == "yes"@,
        !(e is Idle) ==> (e matches Effect::Handoff { command, then: _ } && o.pending_destructive_command
            matches Some(p) && command@ == p.1@),
        key == Key::Enter || key == Key::Esc ==> f.pending_destructive_command is None
            && f.confirmation_message is None && f.input_buffer@.len() == 0,
{
    reveal_strlit("no");
    reveal_strlit("yes");
    assert("no"@ != "yes"@) by {
        assert("no"@.len() != "yes"@.len());
    }
}

/// After a successful run that is recorded, the name is in the applied set and
/// appears there exactly once; running it again leaves the set as it was, and a run
/// that is not recorded leaves the set unchanged.
pub proof fn lemma_applied_once(a: Seq<Seq<char>>, name: Seq<char>, record: bool)
    requires
        a.no_duplicates(),
    ensures
        applied_after(a, name, record).no_duplicates(),
        record ==> applied_after(a, name, record).contains(name),
        applied_after(applied_after(a, name, record), name, record) == applied_after(a, name, record),
        !record ==> applied_after(a, name, record) == a,
{
    if record && !a.contains(name) {
        let b = a.push(name);
        assert(b[a.len() as int] == name);
        assert(b.contains(name));
    }
}

} // verus!
