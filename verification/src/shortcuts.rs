//! Global keyboard shortcuts: `/` focuses the symbol input, `Ctrl+Enter`
//! fetches, `Ctrl+K` focuses the watchlist search and `1` / `2` / `3` switch
//! the timeframe. Plain keys do nothing while a text field has focus, so
//! typing a symbol such as "601318" never flips the timeframe; the Ctrl
//! combinations stay active.

use vstd::prelude::*;

verus! {

/// The keys pressed in one frame.
#[derive(Debug, Clone, Copy, PartialEq, Eq, Structural)]
pub struct ShortcutKeys {
    /// `/`.
    pub slash: bool,
    /// `Ctrl+Enter`.
    pub ctrl_enter: bool,
    /// `Ctrl+K`.
    pub ctrl_k: bool,
    /// `1`.
    pub num1: bool,
    /// `2`.
    pub num2: bool,
    /// `3`.
    pub num3: bool,
}

/// What a shortcut does.
#[derive(Debug, Clone, Copy, PartialEq, Eq, Structural)]
pub enum ShortcutAction {
    /// Focus the toolbar symbol input.
    FocusSymbol,
    /// Fetch the current selection.
    Fetch,
    /// Focus the watchlist search input.
    FocusSearch,
    /// Switch to the timeframe of this toolbar index (and fetch).
    SetTimeframe(usize),
}

/// `[a]` when `cond` holds, nothing otherwise.
pub open spec fn when(cond: bool, a: ShortcutAction) -> Seq<ShortcutAction> {
    if cond {
        seq![a]
    } else {
        Seq::empty()
    }
}

/// The actions of a frame, in the order they run.
pub open spec fn shortcut_actions_spec(keys: ShortcutKeys, editing_text: bool, has_symbol_input: bool) -> Seq<
    ShortcutAction,
> {
    when(keys.slash && !editing_text && has_symbol_input, ShortcutAction::FocusSymbol) + when(
        keys.ctrl_enter,
        ShortcutAction::Fetch,
    ) + when(keys.ctrl_k, ShortcutAction::FocusSearch) + when(
        keys.num1 && !editing_text,
        ShortcutAction::SetTimeframe(0),
    ) + when(keys.num2 && !editing_text, ShortcutAction::SetTimeframe(1)) + when(
        keys.num3 && !editing_text,
        ShortcutAction::SetTimeframe(2),
    )
}

/// Decide the actions of a frame from its keys, whether a text field has
/// focus, and whether the symbol input exists yet.
pub fn shortcut_actions(keys: ShortcutKeys, editing_text: bool, has_symbol_input: bool) -> (r: Vec<
    ShortcutAction,
>)
    ensures
        r@ == shortcut_actions_spec(keys, editing_text, has_symbol_input),
{
    let mut r: Vec<ShortcutAction> = Vec::new();
    if keys.slash && !editing_text && has_symbol_input {
        r.push(ShortcutAction::FocusSymbol);
    }
    if keys.ctrl_enter {
        r.push(ShortcutAction::Fetch);
    }
    if keys.ctrl_k {
        r.push(ShortcutAction::FocusSearch);
    }
    if keys.num1 && !editing_text {
        r.push(ShortcutAction::SetTimeframe(0));
    }
    if keys.num2 && !editing_text {
        r.push(ShortcutAction::SetTimeframe(1));
    }
    if keys.num3 && !editing_text {
        r.push(ShortcutAction::SetTimeframe(2));
    }
    assert(r@ =~= shortcut_actions_spec(keys, editing_text, has_symbol_input));
    r
}

/// While a text field has focus no plain key acts: neither the symbol focus
/// nor a timeframe switch happens.
pub proof fn lemma_typing_never_switches_timeframe(keys: ShortcutKeys, has_symbol_input: bool)
    ensures
        forall|i: int|
            0 <= i < shortcut_actions_spec(keys, true, has_symbol_input).len() ==> {
                let a = #[trigger] shortcut_actions_spec(keys, true, has_symbol_input)[i];
                a == ShortcutAction::Fetch || a == ShortcutAction::FocusSearch
            },
{
    let s = shortcut_actions_spec(keys, true, has_symbol_input);
    assert(s =~= when(keys.ctrl_enter, ShortcutAction::Fetch) + when(
        keys.ctrl_k,
        ShortcutAction::FocusSearch,
    ));
}

} // verus!
