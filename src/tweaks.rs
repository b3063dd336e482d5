//! A single catalog entry.
use vstd::prelude::*;

verus! {

/// One catalog entry: a header when `enable_command` is empty, otherwise a runnable action.
#[derive(Debug, Clone)]
pub struct Tweak {
    pub name: String,
    pub description: String,
    pub enable_command: String,
    pub disable_command: String,
    pub is_enabled: bool,
}

/// The two entries hold the same text and flag.
pub open spec fn same_tweak(a: Tweak, b: Tweak) -> bool {
    &&& a.name@ == b.name@
    &&& a.description@ == b.description@
    &&& a.enable_command@ == b.enable_command@
    &&& a.disable_command@ == b.disable_command@
    &&& a.is_enabled == b.is_enabled
}

impl Tweak {
    pub fn new(
        name: &str,
        description: &str,
        enable_command: &str,
        disable_command: &str,
        is_enabled: bool,
    ) -> (r: Self)
        ensures
            r.name@ == name@,
            r.description@ == description@,
            r.enable_command@ == enable_command@,
            r.disable_command@ == disable_command@,
            r.is_enabled == is_enabled,
    {
        Tweak {
            name: String::from_str(name),
            description: String::from_str(description),
            enable_command: String::from_str(enable_command),
            disable_command: String::from_str(disable_command),
            is_enabled,
        }
    }

    /// A field-by-field copy of this entry.
    pub fn duplicate(&self) -> (r: Self)
        ensures
            same_tweak(r, *self),
    {
        Tweak {
            name: self.name.clone(),
            description: self.description.clone(),
            enable_command: self.enable_command.clone(),
            disable_command: self.disable_command.clone(),
            is_enabled: self.is_enabled,
        }
    }
}

} // verus!
