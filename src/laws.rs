//! Properties of the menu model that hold across many calls.

use vstd::prelude::*;
use crate::menu::{is_quit_key, AppView, EffectView, Key, KeyPress, QUIT_ITEM};

verus! {

/// A cursor movement: a call of `move_up` or of `move_down`.
pub enum Move {
    Up,
    Down,
}

/// The state after the movements `moves`, in order, starting from `v`.
pub open spec fn after_moves(v: AppView, moves: Seq<Move>) -> AppView
    decreases moves.len(),
{
    if moves.len() == 0 {
        v
    } else {
        match moves.last() {
            Move::Up => after_moves(v, moves.drop_last()).moved_up(),
            Move::Down => after_moves(v, moves.drop_last()).moved_down(),
        }
    }
}

/// The state after the key presses `keys`, in order, starting from `v`.
pub open spec fn after_keys(v: AppView, keys: Seq<KeyPress>) -> AppView
    decreases keys.len(),
{
    if keys.len() == 0 {
        v
    } else {
        after_keys(v, keys.drop_last()).after_key(keys.last()).0
    }
}

/// Whatever movements are made, the cursor stays on an item, and neither
/// the items nor their statuses change.
pub proof fn lemma_moves_keep_cursor_in_range(v: AppView, moves: Seq<Move>)
    requires
        v.wf(),
    ensures
        after_moves(v, moves).wf(),
        0 <= after_moves(v, moves).cursor < v.items.len(),
        after_moves(v, moves).items == v.items,
        after_moves(v, moves).statuses == v.statuses,
    decreases moves.len(),
{
    if moves.len() > 0 {
        lemma_moves_keep_cursor_in_range(v, moves.drop_last());
    }
}

/// Whatever keys are pressed, the menu stays well formed, and no status
/// changes: a status changes only when an action's outcome is recorded.
pub proof fn lemma_keys_keep_statuses(v: AppView, keys: Seq<KeyPress>)
    requires
        v.wf(),
    ensures
        after_keys(v, keys).wf(),
        after_keys(v, keys).items == v.items,
        after_keys(v, keys).statuses == v.statuses,
    decreases keys.len(),
{
    if keys.len() > 0 {
        lemma_keys_keep_statuses(v, keys.drop_last());
    }
}

/// Escape, `q`, control-`c`, and enter on the quit item each stop the menu,
/// ask for no work, and leave every status as it was.
pub proof fn lemma_quit_stops(v: AppView, k: KeyPress)
    requires
        v.wf(),
        is_quit_key(k) || (k.code == Key::Enter && v.cursor == QUIT_ITEM),
    ensures
        !v.after_key(k).0.running,
        v.after_key(k).0.statuses == v.statuses,
        v.after_key(k).0.cursor == v.cursor,
        v.after_key(k).1 == EffectView::Nothing,
{
}

} // verus!
