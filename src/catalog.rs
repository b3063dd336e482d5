//! The catalog's shape: categories of entries, and the two-level tree that the
//! indentation of entry names encodes.
use vstd::prelude::*;

use crate::text::{same_str, views};
use crate::tweaks::Tweak;

verus! {

/// A named group of catalog entries.
#[derive(Debug, Clone)]
pub struct TopLevelCategory {
    pub name: String,
    pub description: String,
    pub tweaks: Vec<Tweak>,
}

/// Entry names that start with two spaces belong to the header above them.
pub open spec fn is_indented(n: Seq<char>) -> bool {
    n.len() >= 2 && n[0] == ' ' && n[1] == ' '
}

/// From position `i` on, an entry is indented exactly when it has a command, and each
/// entry that is not indented (a header) is directly followed by an indented one.
pub open spec fn shaped_from(ts: Seq<Tweak>, i: int) -> bool
    decreases ts.len() - i,
{
    if i < 0 || i >= ts.len() {
        true
    } else {
        &&& (is_indented(ts[i].name@) <==> ts[i].enable_command@.len() > 0)
        &&& (!is_indented(ts[i].name@) ==> i + 1 < ts.len() && is_indented(ts[i + 1].name@))
        &&& shaped_from(ts, i + 1)
    }
}

/// The entries form a two-level tree: they start with a header, every header has at
/// least one option right after it, and only options carry commands.
pub open spec fn is_tree(ts: Seq<Tweak>) -> bool {
    ts.len() > 0 && !is_indented(ts[0].name@) && shaped_from(ts, 0)
}

/// From position `i` on, every category's entries form a tree.
pub open spec fn trees_from(cs: Seq<TopLevelCategory>, i: int) -> bool
    decreases cs.len() - i,
{
    if i < 0 || i >= cs.len() {
        true
    } else {
        is_tree(cs[i].tweaks@) && trees_from(cs, i + 1)
    }
}

/// A catalog whose categories form trees from position `i` on has each of them a tree.
pub proof fn lemma_trees_each(cs: Seq<TopLevelCategory>, i: int)
    requires
        0 <= i,
        trees_from(cs, i),
    ensures
        forall|c: int| i <= c < cs.len() ==> is_tree(#[trigger] cs[c].tweaks@),
    decreases cs.len() - i,
{
    if i < cs.len() {
        lemma_trees_each(cs, i + 1);
    }
}

/// Whether a name is indented.
pub fn indented_name(n: &str) -> (r: bool)
    ensures
        r == is_indented(n@),
{
    n.unicode_len() >= 2 && n.get_char(0) == ' ' && n.get_char(1) == ' '
}

pub open spec fn names_of(ts: Seq<Tweak>) -> Seq<Seq<char>> {
    ts.map_values(|t: Tweak| t.name@)
}

pub open spec fn category_names(cs: Seq<TopLevelCategory>) -> Seq<Seq<char>> {
    cs.map_values(|c: TopLevelCategory| c.name@)
}

/// The names that are not indented, in order.
pub open spec fn header_names(ns: Seq<Seq<char>>) -> Seq<Seq<char>>
    decreases ns.len(),
{
    if ns.len() == 0 {
        Seq::empty()
    } else if is_indented(ns.last()) {
        header_names(ns.drop_last())
    } else {
        header_names(ns.drop_last()).push(ns.last())
    }
}

/// The run of indented names that starts at position `i`.
pub open spec fn run_from(ns: Seq<Seq<char>>, i: int) -> Seq<Seq<char>>
    decreases ns.len() - i,
{
    if 0 <= i < ns.len() && is_indented(ns[i]) {
        seq![ns[i]] + run_from(ns, i + 1)
    } else {
        Seq::empty()
    }
}

/// The indented run right after the first name at or after `i` equal to `h`.
pub open spec fn options_from(ns: Seq<Seq<char>>, h: Seq<char>, i: int) -> Seq<Seq<char>>
    decreases ns.len() - i,
{
    if i < 0 || i >= ns.len() {
        Seq::empty()
    } else if ns[i] == h {
        run_from(ns, i + 1)
    } else {
        options_from(ns, h, i + 1)
    }
}

/// The entries shown under header `h`.
pub open spec fn option_names(ns: Seq<Seq<char>>, h: Seq<char>) -> Seq<Seq<char>> {
    options_from(ns, h, 0)
}

/// The position of the `n`-th name, counting from position `i`, that is not indented.
pub open spec fn nth_header(ns: Seq<Seq<char>>, n: int, i: int) -> Option<int>
    decreases ns.len() - i,
{
    if i < 0 || i >= ns.len() {
        None
    } else if !is_indented(ns[i]) {
        if n == 0 {
            Some(i)
        } else {
            nth_header(ns, n - 1, i + 1)
        }
    } else {
        nth_header(ns, n, i + 1)
    }
}

/// The position of the first entry at or after `i` named `n`.
pub open spec fn first_named(ts: Seq<Tweak>, n: Seq<char>, i: int) -> Option<int>
    decreases ts.len() - i,
{
    if i < 0 || i >= ts.len() {
        None
    } else if ts[i].name@ == n {
        Some(i)
    } else {
        first_named(ts, n, i + 1)
    }
}

impl TopLevelCategory {
    pub fn new(name: &str, description: &str, tweaks: Vec<Tweak>) -> (r: Self)
        ensures
            r.name@ == name@,
            r.description@ == description@,
            r.tweaks == tweaks,
    {
        TopLevelCategory {
            name: String::from_str(name),
            description: String::from_str(description),
            tweaks,
        }
    }

    /// Names of the entries that can be run from the command line, in order.
    pub fn runnable_names(&self) -> (r: Vec<String>)
        ensures
            views(r@) == runnable_from(self.tweaks@, 0),
    {
        let ghost ts = self.tweaks@;
        let mut out: Vec<String> = Vec::new();
        let mut i: usize = 0;
        while i < self.tweaks.len()
            invariant
                ts == self.tweaks@,
                i <= ts.len(),
                views(out@) + runnable_from(ts, i as int) == runnable_from(ts, 0),
            decreases ts.len() - i,
        {
            let ghost before = out@;
            let t = &self.tweaks[i];
            if crate::classify::is_directly_runnable(t.enable_command.as_str()) {
                out.push(t.name.clone());
                assert(views(out@) =~= views(before).push(ts[i as int].name@));
                assert(views(out@) + runnable_from(ts, i + 1) =~= views(before) + runnable_from(ts, i as int));
            }
            i += 1;
        }
        assert(views(out@) + runnable_from(ts, i as int) =~= views(out@));
        out
    }
}

/// Names, from position `i` on, of the entries whose command is a shell command.
pub open spec fn runnable_from(ts: Seq<Tweak>, i: int) -> Seq<Seq<char>>
    decreases ts.len() - i,
{
    if i < 0 || i >= ts.len() {
        Seq::empty()
    } else if crate::classify::is_shell_command(ts[i].enable_command@) {
        seq![ts[i].name@] + runnable_from(ts, i + 1)
    } else {
        runnable_from(ts, i + 1)
    }
}

/// Names of the categories, in order.
pub fn category_name_list(cs: &Vec<TopLevelCategory>) -> (r: Vec<String>)
    ensures
        views(r@) == category_names(cs@),
{
    let mut out: Vec<String> = Vec::new();
    let mut i: usize = 0;
    while i < cs.len()
        invariant
            i <= cs@.len(),
            views(out@) == category_names(cs@.take(i as int)),
        decreases cs@.len() - i,
    {
        let ghost before = out@;
        out.push(cs[i].name.clone());
        assert(views(out@) =~= views(before).push(cs@[i as int].name@));
        assert(category_names(cs@.take(i + 1)) =~= category_names(cs@.take(i as int)).push(
            cs@[i as int].name@,
        ));
        i += 1;
    }
    assert(cs@.take(cs@.len() as int) =~= cs@);
    out
}

/// The entries that are not indented: the headers and top-level actions.
pub fn header_list(ts: &Vec<Tweak>) -> (r: Vec<String>)
    ensures
        views(r@) == header_names(names_of(ts@)),
{
    let mut out: Vec<String> = Vec::new();
    let mut i: usize = 0;
    while i < ts.len()
        invariant
            i <= ts@.len(),
            views(out@) == header_names(names_of(ts@).take(i as int)),
        decreases ts@.len() - i,
    {
        let ghost before = out@;
        assert(names_of(ts@).take(i + 1).drop_last() =~= names_of(ts@).take(i as int));
        assert(names_of(ts@).take(i + 1).last() == ts@[i as int].name@);
        if !indented_name(ts[i].name.as_str()) {
            out.push(ts[i].name.clone());
            assert(views(out@) =~= views(before).push(ts@[i as int].name@));
        }
        i += 1;
    }
    assert(names_of(ts@).take(ts@.len() as int) =~= names_of(ts@));
    out
}

/// The indented entries right after the first entry named `h`.
pub fn option_list(ts: &Vec<Tweak>, h: &str) -> (r: Vec<String>)
    ensures
        views(r@) == option_names(names_of(ts@), h@),
{
    let ghost ns = names_of(ts@);
    let n = ts.len();
    let mut i: usize = 0;
    while i < n && !same_str(ts[i].name.as_str(), h)
        invariant
            n == ts@.len(),
            ns == names_of(ts@),
            i <= n,
            option_names(ns, h@) == options_from(ns, h@, i as int),
        decreases n - i,
    {
        i += 1;
    }
    let mut out: Vec<String> = Vec::new();
    if i == n {
        return out;
    }
    let mut j: usize = i + 1;
    assert(views(out@) + run_from(ns, j as int) =~= run_from(ns, i + 1));
    while j < n && indented_name(ts[j].name.as_str())
        invariant
            n == ts@.len(),
            ns == names_of(ts@),
            i < j <= n,
            option_names(ns, h@) == run_from(ns, i + 1),
            views(out@) + run_from(ns, j as int) == run_from(ns, i + 1),
        decreases n - j,
    {
        let ghost before = out@;
        out.push(ts[j].name.clone());
        assert(views(out@) =~= views(before).push(ns[j as int]));
        assert(views(out@) + run_from(ns, j + 1) =~= views(before) + run_from(ns, j as int));
        j += 1;
    }
    assert(views(out@) + run_from(ns, j as int) =~= views(out@));
    out
}

/// The position of the `n`-th entry whose name is not indented.
pub fn header_position(ts: &Vec<Tweak>, n: usize) -> (r: Option<usize>)
    ensures
        r matches Some(k) ==> nth_header(names_of(ts@), n as int, 0) == Some(k as int) && k < ts@.len(),
        r is None ==> nth_header(names_of(ts@), n as int, 0) is None,
{
    let ghost ns = names_of(ts@);
    let mut left: usize = n;
    let mut i: usize = 0;
    while i < ts.len()
        invariant
            ns == names_of(ts@),
            i <= ts@.len(),
            nth_header(ns, n as int, 0) == nth_header(ns, left as int, i as int),
        decreases ts@.len() - i,
    {
        if !indented_name(ts[i].name.as_str()) {
            if left == 0 {
                return Some(i);
            }
            left -= 1;
        }
        i += 1;
    }
    None
}

/// The first entry named `n`, if any.
pub fn find_named(ts: &Vec<Tweak>, n: &str) -> (r: Option<usize>)
    ensures
        r matches Some(k) ==> first_named(ts@, n@, 0) == Some(k as int) && k < ts@.len(),
        r is None ==> first_named(ts@, n@, 0) is None,
{
    let mut i: usize = 0;
    while i < ts.len()
        invariant
            i <= ts@.len(),
            first_named(ts@, n@, 0) == first_named(ts@, n@, i as int),
        decreases ts@.len() - i,
    {
        if same_str(ts[i].name.as_str(), n) {
            return Some(i);
        }
        i += 1;
    }
    None
}

} // verus!
