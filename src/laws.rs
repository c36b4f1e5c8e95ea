use vstd::prelude::*;

use crate::state::{
    apply_model, default_accounts, default_model, event_allowed, label, model_valid, restored,
    select_model, AppModel, UiEvent,
};

verus! {

/// Choosing account `i` of a valid state selects index `i`, and the selector
/// then shows the name of account `i`.
pub proof fn selecting_shows_account(m: AppModel, i: usize)
    requires
        model_valid(m),
        i < m.accounts.len(),
    ensures
        apply_model(m, UiEvent::SelectAccount(i)) == select_model(m, i as nat),
        select_model(m, i as nat).account == i,
        label(select_model(m, i as nat)) == m.accounts[i as int],
        model_valid(select_model(m, i as nat)),
{
}

/// "Add Snip20" and "Refresh" open the dialog and "Close" closes it, whatever
/// the state was; the account selection is left as it was.
pub proof fn dialog_buttons(m: AppModel)
    ensures
        apply_model(m, UiEvent::AddSnip20).adding_snip20,
        apply_model(m, UiEvent::Refresh).adding_snip20,
        !apply_model(m, UiEvent::Close).adding_snip20,
        apply_model(m, UiEvent::AddSnip20).account == m.account,
        apply_model(m, UiEvent::AddSnip20).accounts == m.accounts,
        apply_model(m, UiEvent::Refresh).account == m.account,
        apply_model(m, UiEvent::Refresh).accounts == m.accounts,
        apply_model(m, UiEvent::Close).account == m.account,
        apply_model(m, UiEvent::Close).accounts == m.accounts,
{
}

/// Every event that a state allows leads to a valid state again.
pub proof fn events_keep_valid(m: AppModel, ev: UiEvent)
    requires
        model_valid(m),
        event_allowed(m, ev),
    ensures
        model_valid(apply_model(m, ev)),
{
}

/// When nothing was saved, or what was saved is not a valid state, startup
/// gives the default state: the first of the three default accounts selected
/// and the dialog closed.
pub proof fn unreadable_state_gives_default(saved: Option<AppModel>)
    requires
        saved matches Some(m) ==> !model_valid(m),
    ensures
        restored(saved) == default_model(),
        restored(saved).account == 0,
        restored(saved).accounts == default_accounts(),
        restored(saved).accounts.len() == 3,
        !restored(saved).adding_snip20,
{
}

/// Saving a valid state and reading it back gives the same state.
pub proof fn save_then_restore(m: AppModel)
    requires
        model_valid(m),
    ensures
        restored(Some(m)) == m,
{
}

/// Saving the default state and reading it back gives the default state.
pub proof fn default_survives_restore()
    ensures
        restored(Some(default_model())) == default_model(),
{
    save_then_restore(default_model());
}

} // verus!
