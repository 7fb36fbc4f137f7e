//! The interactive front-end's decisions: a state machine over key presses.
//! Mutating engine calls are only ever requested from a confirmed transition;
//! the caller performs them and reports back.

use vstd::prelude::*;

use crate::ledger::{AuthKind, SequenceFile};
use crate::text::{decimal, decimal_of};

verus! {

/// A key press, as the front-end distinguishes them.
#[derive(Clone, Copy, Debug, PartialEq, Eq, Structural)]
pub enum Key {
    Up,
    Down,
    Enter,
    Delete,
    Esc,
    Char(char),
    Other,
}

/// What the front-end is doing.
#[derive(Debug)]
pub enum Mode {
    Normal,
    ConfirmSwitch { num: u32, email: String },
    ConfirmRemove { num: u32, email: String },
    ConfirmAdd { email: String },
    /// A switch completed; a token account needs a new shell to take effect.
    Done { needs_new_shell: bool },
}

/// A one-line message under the list.
#[derive(Debug)]
pub struct Flash {
    pub message: String,
    pub is_error: bool,
}

/// A confirmed engine call for the caller to perform.
#[derive(Debug)]
pub enum Action {
    Switch { num: u32 },
    Remove { num: u32, email: String },
    Add,
}

/// The front-end's state.
#[derive(Debug)]
pub struct App {
    pub seq: SequenceFile,
    /// Label shown as active: the live OAUTH identity, else the active slot's label.
    pub current_email: Option<String>,
    pub selected: usize,
    pub mode: Mode,
    pub flash: Option<Flash>,
    pub quit: bool,
    /// Whether the token override variable is set.
    pub env_token: bool,
}

pub open spec fn opt_text(o: Option<String>) -> Option<Seq<char>> {
    match o {
        Some(s) => Some(s@),
        None => None,
    }
}

/// The label shown as active: the live identity, else the active slot's label.
pub open spec fn display_email(seq: crate::ledger::LedgerModel, live: Option<Seq<char>>) -> Option<Seq<char>> {
    match live {
        Some(e) => Some(e),
        None => match seq.active {
            Some(n) => if seq.slots.contains_key(n) {
                Some(seq.slots[n].email)
            } else {
                None
            },
            None => None,
        },
    }
}

/// Whether `f` shows `message`, as an error or not.
pub open spec fn shows(f: Option<Flash>, message: Seq<char>, is_error: bool) -> bool {
    f matches Some(x) && x.message@ == message && x.is_error == is_error
}

fn flash(message: String, is_error: bool) -> (r: Option<Flash>)
    ensures
        shows(r, message@, is_error),
{
    Some(Flash { message, is_error })
}

impl App {
    pub open spec fn wf(&self) -> bool {
        &&& self.seq.wf()
        &&& (self.seq.sequence.len() > 0 ==> self.selected < self.seq.sequence.len())
    }

    /// The label shown as active (see [`display_email`]).
    pub fn resolve_display_email(seq: &SequenceFile, live_email: Option<String>) -> (r: Option<String>)
        requires
            seq.wf(),
        ensures
            opt_text(r) == display_email(seq@, opt_text(live_email)),
    {
        match live_email {
            Some(e) => Some(e),
            None => match seq.active_account_number {
                Some(n) => match seq.entry(n) {
                    Some(e) => Some(e.email.clone()),
                    None => None,
                },
                None => None,
            },
        }
    }

    /// A fresh front-end over `seq`, with the first row selected.
    pub fn new(seq: SequenceFile, live_email: Option<String>, env_token: bool) -> (r: App)
        requires
            seq.wf(),
        ensures
            r.wf(),
            r.seq@ == seq@,
            opt_text(r.current_email) == display_email(seq@, opt_text(live_email)),
            r.selected == 0,
            r.mode is Normal,
            r.flash is None,
            !r.quit,
            r.env_token == env_token,
    {
        let current_email = Self::resolve_display_email(&seq, live_email);
        App { seq, current_email, selected: 0, mode: Mode::Normal, flash: None, quit: false, env_token }
    }

    /// Takes a freshly loaded ledger; the selection is clamped to the list.
    pub fn reload(&mut self, seq: SequenceFile, live_email: Option<String>)
        requires
            seq.wf(),
        ensures
            final(self).wf(),
            final(self).seq@ == seq@,
            opt_text(final(self).current_email) == display_email(seq@, opt_text(live_email)),
            final(self).selected == (if seq.sequence.len() > 0 && old(self).selected
                >= seq.sequence.len() {
                (seq.sequence.len() - 1) as usize
            } else {
                old(self).selected
            }),
            final(self).mode == old(self).mode,
            final(self).quit == old(self).quit,
            final(self).env_token == old(self).env_token,
    {
        self.current_email = Self::resolve_display_email(&seq, live_email);
        self.seq = seq;
        if self.seq.sequence.len() > 0 && self.selected >= self.seq.sequence.len() {
            self.selected = self.seq.sequence.len() - 1;
        }
    }

    /// The id of the selected row.
    pub fn selected_num(&self) -> (r: Option<u32>)
        ensures
            r == (if self.selected < self.seq.sequence.len() {
                Some(self.seq.sequence@[self.selected as int])
            } else {
                None
            }),
    {
        if self.selected < self.seq.sequence.len() {
            Some(self.seq.sequence[self.selected])
        } else {
            None
        }
    }

    /// The slot shown as active: the ledger's active slot, else the slot of the
    /// displayed label.
    pub fn active_num(&self) -> (r: Option<u32>)
        requires
            self.seq.wf(),
        ensures
            r == (match self.seq.active_account_number {
                Some(a) => Some(a),
                None => match opt_text(self.current_email) {
                    Some(e) => self.seq@.find_email(e),
                    None => None,
                },
            }),
    {
        match self.seq.active_account_number {
            Some(a) => Some(a),
            None => match &self.current_email {
                Some(e) => self.seq.find_by_email(e.as_str()),
                None => None,
            },
        }
    }
}

fn joined2(a: &str, b: &str) -> (r: String)
    ensures
        r@ == a@ + b@,
{
    let mut s = a.to_string();
    s.append(b);
    s
}

fn joined(a: &str, b: &str, c: &str) -> (r: String)
    ensures
        r@ == a@ + b@ + c@,
{
    let mut s = a.to_string();
    s.append(b);
    s.append(c);
    s
}

impl App {
    pub open spec fn selected_spec(&self) -> Option<u32> {
        if self.selected < self.seq.sequence.len() {
            Some(self.seq.sequence@[self.selected as int])
        } else {
            None
        }
    }

    pub open spec fn active_spec(&self) -> Option<u32> {
        match self.seq.active_account_number {
            Some(a) => Some(a),
            None => match opt_text(self.current_email) {
                Some(e) => self.seq@.find_email(e),
                None => None,
            },
        }
    }

    /// Handles a key in normal mode: move the selection, ask to switch to,
    /// remove or add an account, or quit.
    pub fn handle_normal(&mut self, key: Key)
        requires
            old(self).wf(),
        ensures
            final(self).wf(),
            final(self).seq == old(self).seq,
            final(self).current_email == old(self).current_email,
            final(self).env_token == old(self).env_token,
            match key {
                Key::Up | Key::Char('k') => final(self).selected == (if old(self).selected > 0 {
                    (old(self).selected - 1) as usize
                } else {
                    old(self).selected
                }) && final(self).mode == old(self).mode,
                Key::Down | Key::Char('j') => final(self).selected == (if old(self).selected + 1
                    < old(self).seq.sequence.len() {
                    (old(self).selected + 1) as usize
                } else {
                    old(self).selected
                }) && final(self).mode == old(self).mode,
                Key::Enter | Key::Char(' ') => final(self).selected == old(self).selected && match old(
                    self,
                ).selected_spec() {
                    Some(num) => if old(self).active_spec() == Some(num) {
                        final(self).mode == old(self).mode && shows(final(self).flash, "Already the active account"@, false)
                    } else {
                        final(self).mode matches Mode::ConfirmSwitch { num: n, email } && n == num
                            && email@ == old(self).seq@.slots[num].email
                    },
                    None => final(self).mode == old(self).mode,
                },
                Key::Delete | Key::Char('d') => final(self).selected == old(self).selected && match old(
                    self,
                ).selected_spec() {
                    Some(num) => final(self).mode matches Mode::ConfirmRemove { num: n, email }
                        && n == num && email@ == old(self).seq@.slots[num].email,
                    None => final(self).mode == old(self).mode,
                },
                Key::Char('a') => final(self).selected == old(self).selected && match opt_text(
                    old(self).current_email,
                ) {
                    Some(e) => if old(self).seq@.has_email(e) {
                        final(self).mode == old(self).mode && shows(final(self).flash, e + " is already managed"@, false)
                    } else {
                        final(self).mode matches Mode::ConfirmAdd { email } && email@ == e
                    },
                    None => final(self).mode == old(self).mode && final(self).flash is Some
                        && final(self).flash->0.is_error == !old(self).env_token,
                },
                Key::Esc | Key::Char('q') => final(self).quit && final(self).selected == old(
                    self,
                ).selected && final(self).mode == old(self).mode,
                _ => final(self).selected == old(self).selected && final(self).mode == old(
                    self,
                ).mode && final(self).quit == old(self).quit,
            },
    {
        match key {
            Key::Up | Key::Char('k') => {
                if self.selected > 0 {
                    self.selected = self.selected - 1;
                }
            },
            Key::Down | Key::Char('j') => {
                if self.selected < usize::MAX && self.selected + 1 < self.seq.sequence.len() {
                    self.selected = self.selected + 1;
                }
            },
            Key::Enter | Key::Char(' ') => {
                if let Some(num) = self.selected_num() {
                    assert(self.seq@.order.contains(num)) by {
                        assert(self.seq@.order[self.selected as int] == num);
                    }
                    assert(self.seq@.slots.contains_key(num));
                    let email = self.seq.entry(num).unwrap().email.clone();
                    if self.active_num() == Some(num) {
                        self.flash = flash("Already the active account".to_string(), false);
                    } else {
                        self.mode = Mode::ConfirmSwitch { num, email };
                    }
                }
            },
            Key::Delete | Key::Char('d') => {
                if let Some(num) = self.selected_num() {
                    assert(self.seq@.order.contains(num)) by {
                        assert(self.seq@.order[self.selected as int] == num);
                    }
                    assert(self.seq@.slots.contains_key(num));
                    let email = self.seq.entry(num).unwrap().email.clone();
                    self.mode = Mode::ConfirmRemove { num, email };
                }
            },
            Key::Char('a') => {
                match &self.current_email {
                    Some(e) => {
                        if self.seq.account_exists(e.as_str()) {
                            self.flash = flash(joined2(e.as_str(), " is already managed"), false);
                        } else {
                            self.mode = Mode::ConfirmAdd { email: e.clone() };
                        }
                    },
                    None => {
                        if self.env_token {
                            self.flash = flash(
                                "Token accounts: run  ccswitch add  in a terminal to set up".to_string(),
                                false,
                            );
                        } else {
                            self.flash = flash(
                                "No active account found — log in to the host application first".to_string(),
                                true,
                            );
                        }
                    },
                }
            },
            Key::Esc | Key::Char('q') => {
                self.quit = true;
            },
            _ => {},
        }
    }

    /// Handles a key while a confirmation is pending: `y` confirms and hands
    /// back the engine call to perform, `n` or Esc cancels.
    pub fn handle_confirm(&mut self, key: Key) -> (r: Option<Action>)
        requires
            old(self).wf(),
        ensures
            final(self).wf(),
            final(self).seq == old(self).seq,
            final(self).selected == old(self).selected,
            final(self).current_email == old(self).current_email,
            final(self).env_token == old(self).env_token,
            final(self).quit == old(self).quit,
            match key {
                Key::Char('y') | Key::Char('Y') => final(self).mode is Normal && match old(
                    self,
                ).mode {
                    Mode::ConfirmSwitch { num, .. } => r == Some(Action::Switch { num }),
                    Mode::ConfirmRemove { num, email } => r == Some(Action::Remove { num, email }),
                    Mode::ConfirmAdd { .. } => r == Some(Action::Add),
                    _ => r is None,
                },
                Key::Char('n') | Key::Char('N') | Key::Esc => r is None && final(self).mode is Normal
                    && shows(final(self).flash, "Cancelled"@, false),
                _ => r is None && final(self).mode == old(self).mode,
            },
    {
        match key {
            Key::Char('y') | Key::Char('Y') => {
                let mut mode = Mode::Normal;
                std::mem::swap(&mut self.mode, &mut mode);
                match mode {
                    Mode::ConfirmSwitch { num, .. } => Some(Action::Switch { num }),
                    Mode::ConfirmRemove { num, email } => Some(Action::Remove { num, email }),
                    Mode::ConfirmAdd { .. } => Some(Action::Add),
                    _ => None,
                }
            },
            Key::Char('n') | Key::Char('N') | Key::Esc => {
                self.mode = Mode::Normal;
                self.flash = flash("Cancelled".to_string(), false);
                None
            },
            _ => None,
        }
    }

    /// Records the result of a confirmed switch to `num`: on success the
    /// reloaded ledger is taken and the front-end is done (a token account
    /// needs a new shell); on failure the error is shown.
    pub fn switch_finished(&mut self, num: u32, result: Result<(SequenceFile, Option<String>), String>)
        requires
            old(self).wf(),
            result matches Ok((s, _)) ==> s.wf(),
        ensures
            final(self).wf(),
            match result {
                Ok((s, _)) => final(self).seq@ == s@ && final(self).mode == (Mode::Done {
                    needs_new_shell: s@.slots.contains_key(num) && s@.slots[num].auth_kind
                        == AuthKind::Token,
                }),
                Err(e) => final(self).seq == old(self).seq && shows(final(self).flash, "Switch failed: "@ + e@, true),
            },
    {
        match result {
            Ok((seq, live_email)) => {
                self.reload(seq, live_email);
                let needs_new_shell = match self.seq.entry(num) {
                    Some(e) => match e.auth_kind {
                        AuthKind::Token => true,
                        AuthKind::Oauth => false,
                    },
                    None => false,
                };
                self.mode = Mode::Done { needs_new_shell };
            },
            Err(e) => {
                self.flash = flash(joined2("Switch failed: ", e.as_str()), true);
            },
        }
    }

    /// Records the result of a confirmed removal of slot `num` labelled `email`.
    pub fn remove_finished(
        &mut self,
        num: u32,
        email: &str,
        result: Result<(SequenceFile, Option<String>), String>,
    )
        requires
            old(self).wf(),
            result matches Ok((s, _)) ==> s.wf(),
        ensures
            final(self).wf(),
            match result {
                Ok((s, _)) => final(self).seq@ == s@ && shows(
                    final(self).flash,
                    "Removed Account "@ + decimal_of(num as nat) + " ("@ + email@ + ")"@,
                    false,
                ),
                Err(e) => final(self).seq == old(self).seq && shows(final(self).flash, "Remove failed: "@ + e@, true),
            },
    {
        match result {
            Ok((seq, live_email)) => {
                self.reload(seq, live_email);
                let mut m = joined("Removed Account ", decimal(num).as_str(), " (");
                m.append(email);
                m.append(")");
                self.flash = flash(m, false);
            },
            Err(e) => {
                self.flash = flash(joined2("Remove failed: ", e.as_str()), true);
            },
        }
    }

    /// Records the result of a confirmed add: the engine's notice on success,
    /// the error otherwise.
    pub fn add_finished(&mut self, result: Result<(SequenceFile, Option<String>, String), String>)
        requires
            old(self).wf(),
            result matches Ok((s, _, _)) ==> s.wf(),
        ensures
            final(self).wf(),
            match result {
                Ok((s, _, notice)) => final(self).seq@ == s@ && shows(final(self).flash, notice@, false),
                Err(e) => final(self).seq == old(self).seq && shows(final(self).flash, "Add failed: "@ + e@, true),
            },
    {
        match result {
            Ok((seq, live_email, notice)) => {
                self.reload(seq, live_email);
                self.flash = flash(notice, false);
            },
            Err(e) => {
                self.flash = flash(joined2("Add failed: ", e.as_str()), true);
            },
        }
    }
}

} // verus!
