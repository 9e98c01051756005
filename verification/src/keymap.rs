//! A keymap is a single-key shortcut: a trigger character, a description
//! shown in the menu, a command template, and optionally the placeholder
//! token that the user's typed text replaces in the template.

use vstd::prelude::*;

verus! {

/// One shortcut entry of the launcher's menu.
///
/// A keymap with `placeholder == None` runs `command` verbatim; one with a
/// placeholder opens an editing session whose finalized text replaces the
/// first occurrence of the placeholder in `command`.
pub struct Keymap {
    pub key: char,
    pub description: String,
    pub command: String,
    pub placeholder: Option<String>,
}

impl Keymap {
    /// A shortcut that runs its command verbatim, with no editing session.
    pub fn new(key: char, description: &str, command: &str) -> (r: Keymap)
        ensures
            r.key == key,
            r.description@ == description@,
            r.command@ == command@,
            r.placeholder is None,
    {
        Keymap {
            key,
            description: description.to_owned(),
            command: command.to_owned(),
            placeholder: None,
        }
    }

    /// A shortcut whose command template holds a placeholder to be replaced
    /// by text the user types.
    pub fn with_placeholder(key: char, description: &str, command: &str, placeholder: &str) -> (r:
        Keymap)
        ensures
            r.key == key,
            r.description@ == description@,
            r.command@ == command@,
            r.placeholder matches Some(p) && p@ == placeholder@,
    {
        Keymap {
            key,
            description: description.to_owned(),
            command: command.to_owned(),
            placeholder: Some(placeholder.to_owned()),
        }
    }
}

/// Holds when `i` is the position of the first keymap whose trigger is `key`:
/// table order decides precedence among duplicate triggers.
pub open spec fn first_trigger(kms: Seq<Keymap>, key: char, i: int) -> bool {
    &&& 0 <= i < kms.len()
    &&& kms[i].key == key
    &&& forall|j: int| 0 <= j < i ==> kms[j].key != key
}

/// Law: at most one position is the first match for a trigger.
pub proof fn lemma_first_trigger_unique(kms: Seq<Keymap>, key: char, i: int, j: int)
    requires
        first_trigger(kms, key, i),
        first_trigger(kms, key, j),
    ensures
        i == j,
{
    if i < j {
        assert(kms[i].key != key);
    }
    if j < i {
        assert(kms[j].key != key);
    }
}

/// Finds the first keymap whose trigger is `key`.
pub fn find_keymap(kms: &Vec<Keymap>, key: char) -> (r: Option<usize>)
    ensures
        r matches Some(i) ==> first_trigger(kms@, key, i as int),
        r is None ==> forall|j: int| 0 <= j < kms@.len() ==> kms@[j].key != key,
{
    let mut i: usize = 0;
    while i < kms.len()
        invariant
            0 <= i <= kms@.len(),
            forall|j: int| 0 <= j < i ==> kms@[j].key != key,
        decreases kms@.len() - i,
    {
        if kms[i].key == key {
            return Some(i);
        }
        i = i + 1;
    }
    None
}

} // verus!
