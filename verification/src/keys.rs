//! Key symbols, modifier masks, and the bindings the terminal window reacts to.
//!
//! A key press arrives as a key symbol together with the mask of modifiers
//! that were held when it was pressed. Four combinations are bound to an
//! action of the window; every other combination is passed through.

use vstd::prelude::*;

verus! {

/// A key symbol, as the windowing layer reports it.
pub type Key = u32;

/// A mask of modifier bits, as the windowing layer reports it.
pub type ModifierType = u32;

/// The key symbol of the Escape key.
pub const KEY_ESCAPE: Key = 0xff1b;

/// The key symbol of the lower-case letter `n`.
pub const KEY_N: Key = 0x06e;

/// The key symbol of the lower-case letter `p`.
pub const KEY_P: Key = 0x070;

/// The key symbol of the slash.
pub const KEY_SLASH: Key = 0x02f;

/// The modifier bit of the Control key.
pub const CONTROL_MASK: ModifierType = 4;

/// The empty modifier mask: no modifier is held.
pub const NO_MODIFIER: ModifierType = 0;

/// What a key press asks of the window.
#[derive(Clone, Copy, Debug, PartialEq, Eq, Structural)]
pub enum Binding {
    /// Control and `n`: go to the previous match.
    FindPrevious,
    /// Control and `p`: go to the next match.
    FindNext,
    /// Control and slash: show the search entry.
    ActivateSearch,
    /// Escape alone: dismiss the search.
    DismissSearch,
    /// Any other combination: nothing is bound to it.
    Unbound,
}

/// Whether the Control bit is set in `modifier`, whatever else is set.
pub open spec fn control_held(modifier: ModifierType) -> bool {
    modifier & CONTROL_MASK == CONTROL_MASK
}

/// Whether `key` is one of the four key symbols that take part in a binding.
pub open spec fn is_bound_key(key: Key) -> bool {
    key == KEY_N || key == KEY_P || key == KEY_SLASH || key == KEY_ESCAPE
}

/// The binding of a key symbol pressed under a modifier mask.
///
/// With Control held, `n`, `p` and slash are bound. Escape is bound only
/// under the empty mask.
pub open spec fn binding_of(key: Key, modifier: ModifierType) -> Binding {
    if control_held(modifier) {
        if key == KEY_N {
            Binding::FindPrevious
        } else if key == KEY_P {
            Binding::FindNext
        } else if key == KEY_SLASH {
            Binding::ActivateSearch
        } else {
            Binding::Unbound
        }
    } else if modifier == NO_MODIFIER && key == KEY_ESCAPE {
        Binding::DismissSearch
    } else {
        Binding::Unbound
    }
}

/// Classifies a key press.
pub fn binding(key: Key, modifier: ModifierType) -> (res: Binding)
    ensures
        res == binding_of(key, modifier),
{
    if modifier & CONTROL_MASK == CONTROL_MASK {
        if key == KEY_N {
            Binding::FindPrevious
        } else if key == KEY_P {
            Binding::FindNext
        } else if key == KEY_SLASH {
            Binding::ActivateSearch
        } else {
            Binding::Unbound
        }
    } else if modifier == NO_MODIFIER && key == KEY_ESCAPE {
        Binding::DismissSearch
    } else {
        Binding::Unbound
    }
}

/// A key symbol outside the four bound ones is bound to nothing, under
/// every modifier mask.
pub proof fn lemma_other_keys_unbound(key: Key, modifier: ModifierType)
    requires
        !is_bound_key(key),
    ensures
        binding_of(key, modifier) == Binding::Unbound,
{
}

/// The empty mask does not hold Control, so Escape alone dismisses.
pub proof fn lemma_escape_alone_dismisses()
    ensures
        !control_held(NO_MODIFIER),
        binding_of(KEY_ESCAPE, NO_MODIFIER) == Binding::DismissSearch,
{
    assert(0u32 & 4u32 != 4u32) by (bit_vector);
}

/// Control alone holds Control.
pub proof fn lemma_control_alone_held()
    ensures
        control_held(CONTROL_MASK),
        binding_of(KEY_N, CONTROL_MASK) == Binding::FindPrevious,
        binding_of(KEY_P, CONTROL_MASK) == Binding::FindNext,
        binding_of(KEY_SLASH, CONTROL_MASK) == Binding::ActivateSearch,
{
    assert(4u32 & 4u32 == 4u32) by (bit_vector);
}

} // verus!
