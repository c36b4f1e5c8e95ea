use vstd::prelude::*;

verus! {

/// What a `SecretApp` holds, as mathematical values.
pub struct AppModel {
    pub account: nat,
    pub accounts: Seq<Seq<char>>,
    pub adding_snip20: bool,
}

/// The names of the accounts offered at first start.
pub open spec fn default_accounts() -> Seq<Seq<char>> {
    seq!["Account1"@, "Account2"@, "Account3"@]
}

/// The state at first start: first account selected, dialog closed.
pub open spec fn default_model() -> AppModel {
    AppModel { account: 0, accounts: default_accounts(), adding_snip20: false }
}

/// A state is valid when the selected index names one of the accounts.
pub open spec fn model_valid(m: AppModel) -> bool {
    m.account < m.accounts.len()
}

/// The label shown on the account selector: the name of the selected account.
pub open spec fn label(m: AppModel) -> Seq<char> {
    m.accounts[m.account as int]
}

/// The state after account `i` is chosen in the selector.
pub open spec fn select_model(m: AppModel, i: nat) -> AppModel {
    AppModel { account: i, ..m }
}

/// The state with the "add token" dialog opened (`true`) or closed (`false`).
pub open spec fn dialog_model(m: AppModel, open: bool) -> AppModel {
    AppModel { adding_snip20: open, ..m }
}

/// One thing the user did during a frame.
pub enum UiEvent {
    /// An entry of the account selector was chosen.
    SelectAccount(usize),
    /// The "Add Snip20" button was clicked.
    AddSnip20,
    /// The "Refresh" button was clicked.
    Refresh,
    /// The dialog's "Close" button was clicked.
    Close,
}

/// An event can be applied to a state when any account it names exists.
pub open spec fn event_allowed(m: AppModel, ev: UiEvent) -> bool {
    match ev {
        UiEvent::SelectAccount(i) => i < m.accounts.len(),
        _ => true,
    }
}

/// The state after an event. "Refresh" opens the dialog, as "Add Snip20" does.
pub open spec fn apply_model(m: AppModel, ev: UiEvent) -> AppModel {
    match ev {
        UiEvent::SelectAccount(i) => select_model(m, i as nat),
        UiEvent::AddSnip20 => dialog_model(m, true),
        UiEvent::Refresh => dialog_model(m, true),
        UiEvent::Close => dialog_model(m, false),
    }
}

/// The state brought back from a saved snapshot: the snapshot itself when it
/// is valid, else the default state.
pub open spec fn restored(saved: Option<AppModel>) -> AppModel {
    match saved {
        Some(m) => if model_valid(m) { m } else { default_model() },
        None => default_model(),
    }
}

/// The plain values that are saved at shutdown and read back at startup.
pub struct Snapshot {
    pub account: usize,
    pub accounts: Vec<String>,
    pub adding_snip20: bool,
}

impl View for Snapshot {
    type V = AppModel;

    open spec fn view(&self) -> AppModel {
        AppModel {
            account: self.account as nat,
            accounts: self.accounts@.map_values(|s: String| s@),
            adding_snip20: self.adding_snip20,
        }
    }
}

/// The model of a saved snapshot, if there is one.
pub open spec fn saved_model(saved: Option<Snapshot>) -> Option<AppModel> {
    match saved {
        Some(s) => Some(s@),
        None => None,
    }
}

/// State of the application between frames.
pub struct SecretApp {
    account: usize,
    accounts: Vec<String>,
    adding_snip20: bool,
}

impl View for SecretApp {
    type V = AppModel;

    closed spec fn view(&self) -> AppModel {
        AppModel {
            account: self.account as nat,
            accounts: self.accounts@.map_values(|s: String| s@),
            adding_snip20: self.adding_snip20,
        }
    }
}

impl SecretApp {
    #[verifier::type_invariant]
    closed spec fn inv(self) -> bool {
        self.account < self.accounts.len()
    }

    /// Index of the selected account.
    pub fn account(&self) -> (r: usize)
        ensures
            r == self@.account,
            r < self@.accounts.len(),
    {
        proof { use_type_invariant(self); }
        self.account
    }

    /// Names of the accounts, in selector order.
    pub fn accounts(&self) -> (r: &Vec<String>)
        ensures
            r@.map_values(|s: String| s@) == self@.accounts,
    {
        &self.accounts
    }

    /// Whether the "add token" dialog is open.
    pub fn adding_snip20(&self) -> (r: bool)
        ensures
            r == self@.adding_snip20,
    {
        self.adding_snip20
    }

    /// Text of the account selector: the selected account's name.
    pub fn selected_text(&self) -> (r: &String)
        ensures
            r@ == label(self@),
    {
        proof { use_type_invariant(self); }
        &self.accounts[self.account]
    }

    /// Chooses account `i` in the selector.
    pub fn select_account(&mut self, i: usize)
        requires
            i < old(self)@.accounts.len(),
        ensures
            final(self)@ == select_model(old(self)@, i as nat),
    {
        self.account = i;
    }

    /// Handles a click on "Add Snip20": the dialog opens.
    pub fn add_snip20_clicked(&mut self)
        ensures
            final(self)@ == dialog_model(old(self)@, true),
    {
        proof { use_type_invariant(&*self); }
        self.adding_snip20 = true;
    }

    /// Handles a click on "Refresh": the dialog opens, as for "Add Snip20".
    pub fn refresh_clicked(&mut self)
        ensures
            final(self)@ == dialog_model(old(self)@, true),
    {
        proof { use_type_invariant(&*self); }
        self.adding_snip20 = true;
    }

    /// Handles a click on the dialog's "Close": the dialog closes.
    pub fn close_clicked(&mut self)
        ensures
            final(self)@ == dialog_model(old(self)@, false),
    {
        proof { use_type_invariant(&*self); }
        self.adding_snip20 = false;
    }

    /// Applies one user event to the state.
    pub fn apply(&mut self, ev: UiEvent)
        requires
            event_allowed(old(self)@, ev),
        ensures
            final(self)@ == apply_model(old(self)@, ev),
    {
        match ev {
            UiEvent::SelectAccount(i) => self.select_account(i),
            UiEvent::AddSnip20 => self.add_snip20_clicked(),
            UiEvent::Refresh => self.refresh_clicked(),
            UiEvent::Close => self.close_clicked(),
        }
    }

    /// The values to save at shutdown.
    pub fn snapshot(&self) -> (r: Snapshot)
        ensures
            r@ == self@,
    {
        let accounts = self.accounts.clone();
        assert(accounts@ == self.accounts@) by {
            assert forall|k: int| 0 <= k < accounts@.len() implies accounts@[k] == self.accounts@[k] by {
                assert(cloned::<String>(self.accounts[k], accounts[k]));
            }
            assert(accounts@ =~= self.accounts@);
        }
        Snapshot { account: self.account, accounts, adding_snip20: self.adding_snip20 }
    }

    /// The state at startup from what was saved, if anything was read back.
    /// A snapshot whose selected index names no account is refused, and the
    /// default state is used instead, as when nothing could be read.
    pub fn restore(saved: Option<Snapshot>) -> (r: SecretApp)
        ensures
            r@ == restored(saved_model(saved)),
    {
        match saved {
            Some(s) => {
                if s.account < s.accounts.len() {
                    SecretApp { account: s.account, accounts: s.accounts, adding_snip20: s.adding_snip20 }
                } else {
                    SecretApp::default()
                }
            },
            None => SecretApp::default(),
        }
    }
}

impl Default for SecretApp {
    fn default() -> (r: Self)
        ensures
            r@ == default_model(),
            model_valid(r@),
    {
        let accounts = vec!["Account1".to_owned(), "Account2".to_owned(), "Account3".to_owned()];
        let r = SecretApp { account: 0, accounts, adding_snip20: false };
        assert(r@.accounts =~= default_accounts());
        r
    }
}

} // verus!
