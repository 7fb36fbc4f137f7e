//! The switch engine: what add, switch, remove and rotate do to the stores and
//! to the ledger. Each operation takes the ledger and what was read from the
//! stores, and returns the store steps to perform in order, followed by the
//! ledger to persist last.

use vstd::prelude::*;

use crate::json::{
    is_json, json_quoted, quoted, json_member, json_pretty, json_string_member, json_valid, json_with_member, member,
    pretty, string_member, with_member,
};
use crate::clock::{now_utc, unix_seconds};
use crate::ledger::{AccountEntry, AuthKind, LedgerModel, SequenceFile, SlotModel};

verus! {

/// One write or delete against the credential store, the config mirror or the
/// host application's live storage.
#[derive(Debug)]
pub enum Step {
    /// Overwrite the credential backup of a slot.
    SaveCredentialBackup { slot: u32, label: String, blob: String },
    /// Overwrite the config backup of a slot.
    SaveConfigBackup { slot: u32, label: String, document: String },
    /// Delete the credential backup of a slot; absent is fine.
    DeleteCredentialBackup { slot: u32, label: String },
    /// Delete the config backup of a slot; absent is fine.
    DeleteConfigBackup { slot: u32, label: String },
    /// Overwrite the host application's live credentials.
    WriteLiveCredentials { blob: String },
    /// Overwrite the host application's live config.
    WriteLiveConfig { document: String },
    /// Overwrite the singleton slot read by shells to export the token.
    WriteActiveToken { token: String },
}

/// A [`Step`] as mathematical values.
pub enum StepModel {
    SaveCredentialBackup { slot: u32, label: Seq<char>, blob: Seq<char> },
    SaveConfigBackup { slot: u32, label: Seq<char>, document: Seq<char> },
    DeleteCredentialBackup { slot: u32, label: Seq<char> },
    DeleteConfigBackup { slot: u32, label: Seq<char> },
    WriteLiveCredentials { blob: Seq<char> },
    WriteLiveConfig { document: Seq<char> },
    WriteActiveToken { token: Seq<char> },
}

impl View for Step {
    type V = StepModel;

    open spec fn view(&self) -> StepModel {
        match self {
            Step::SaveCredentialBackup { slot, label, blob } => StepModel::SaveCredentialBackup {
                slot: *slot,
                label: label@,
                blob: blob@,
            },
            Step::SaveConfigBackup { slot, label, document } => StepModel::SaveConfigBackup {
                slot: *slot,
                label: label@,
                document: document@,
            },
            Step::DeleteCredentialBackup { slot, label } => StepModel::DeleteCredentialBackup {
                slot: *slot,
                label: label@,
            },
            Step::DeleteConfigBackup { slot, label } => StepModel::DeleteConfigBackup {
                slot: *slot,
                label: label@,
            },
            Step::WriteLiveCredentials { blob } => StepModel::WriteLiveCredentials { blob: blob@ },
            Step::WriteLiveConfig { document } => StepModel::WriteLiveConfig {
                document: document@,
            },
            Step::WriteActiveToken { token } => StepModel::WriteActiveToken { token: token@ },
        }
    }
}

impl StepModel {
    /// Whether the step writes to the host application's live storage or the
    /// active-token slot.
    pub open spec fn touches_live(self) -> bool {
        ||| self is WriteLiveCredentials
        ||| self is WriteLiveConfig
        ||| self is WriteActiveToken
    }
}

/// The steps of a list, as mathematical values.
pub open spec fn steps_view(steps: Seq<Step>) -> Seq<StepModel> {
    steps.map_values(|s: Step| s@)
}

/// Why an operation did not go ahead.
#[derive(Clone, Copy, Debug, PartialEq, Eq, Structural)]
pub enum EngineError {
    /// The live config names no OAUTH account.
    NoLiveAccount,
    /// The ledger has no slots.
    NoAccounts,
    /// The identifier names no slot.
    NoMatch,
    /// The slot does not exist.
    NoSuchAccount { num: u32 },
    /// The live account has no slot.
    NotManaged,
    /// Rotation needs at least two slots.
    SingleAccount,
    /// The token is empty.
    EmptyToken,
    /// Every slot id is taken.
    NoFreeId,
    /// The live credentials could not be read.
    LiveCredentialsUnreadable,
    /// The live config could not be read or is not JSON.
    LiveConfigUnreadable,
    /// The live config is not a JSON object the identity can be merged into.
    LiveConfigNotMergeable,
    /// The slot has no credential backup.
    MissingCredentialBackup { num: u32 },
    /// The slot has no config backup.
    MissingConfigBackup { num: u32 },
    /// The slot's config backup is not JSON.
    InvalidConfigBackup { num: u32 },
    /// The slot's config backup carries no identity marker.
    MissingIdentity { num: u32 },
    /// The slot's credential backup holds no token.
    InvalidCredentialBackup { num: u32 },
}

/// The member of the host config that carries the account identity.
pub open spec fn identity_key() -> Seq<char> {
    "oauthAccount"@
}

/// The OAUTH identity's label in a live config document.
pub open spec fn live_email(config: Option<Seq<char>>) -> Option<Seq<char>> {
    match config {
        Some(text) => match json_member(text, identity_key()) {
            Some(m) => json_string_member(m, "emailAddress"@),
            None => None,
        },
        None => None,
    }
}

/// The OAUTH identity's external id in a live config document.
pub open spec fn live_uuid(config: Option<Seq<char>>) -> Option<Seq<char>> {
    match config {
        Some(text) => match json_member(text, identity_key()) {
            Some(m) => json_string_member(m, "accountUuid"@),
            None => None,
        },
        None => None,
    }
}

pub open spec fn opt_view(o: Option<String>) -> Option<Seq<char>> {
    match o {
        Some(s) => Some(s@),
        None => None,
    }
}

/// The label of the OAUTH account that is logged in, read from the live config.
pub fn current_email(config: &Option<String>) -> (r: Option<String>)
    ensures
        opt_view(r) == live_email(opt_view(*config)),
{
    match config {
        Some(text) => match member(text.as_str(), "oauthAccount") {
            Some(m) => string_member(m.as_str(), "emailAddress"),
            None => None,
        },
        None => None,
    }
}

/// The external id of the OAUTH account that is logged in, read from the live config.
pub fn current_uuid(config: &Option<String>) -> (r: Option<String>)
    ensures
        opt_view(r) == live_uuid(opt_view(*config)),
{
    match config {
        Some(text) => match member(text.as_str(), "oauthAccount") {
            Some(m) => string_member(m.as_str(), "accountUuid"),
            None => None,
        },
        None => None,
    }
}

/// What `add` did, as mathematical values.
pub enum AddModel {
    Failed(EngineError),
    AlreadyManaged(u32),
    Added(u32, Seq<StepModel>),
}

/// What `add` did.
#[derive(Debug)]
pub enum AddOutcome {
    /// The live account already has this slot; nothing changed.
    AlreadyManaged { num: u32 },
    /// The live account got slot `num`; perform `steps`, then persist the ledger.
    Added { num: u32, steps: Vec<Step> },
}

pub open spec fn add_view(r: Result<AddOutcome, EngineError>) -> AddModel {
    match r {
        Err(e) => AddModel::Failed(e),
        Ok(AddOutcome::AlreadyManaged { num }) => AddModel::AlreadyManaged(num),
        Ok(AddOutcome::Added { num, steps }) => AddModel::Added(num, steps_view(steps@)),
    }
}

/// Registering the live OAUTH account: its label comes from the live config;
/// if a slot has that label (the first in rotation order is reported) nothing
/// changes; else the next id is allocated,
/// the live credentials and the pretty-printed live config are copied into that
/// slot's backups, and the slot is appended to the rotation and made active.
/// The second component is the ledger afterwards.
pub open spec fn add_spec(
    l: LedgerModel,
    config: Option<Seq<char>>,
    creds: Option<Seq<char>>,
    now: Seq<char>,
) -> (AddModel, LedgerModel) {
    match live_email(config) {
        None => (AddModel::Failed(EngineError::NoLiveAccount), l),
        Some(email) => match l.find_email(email) {
            Some(n) => (AddModel::AlreadyManaged(n), l),
            None => match l.next_id() {
                None => (AddModel::Failed(EngineError::NoFreeId), l),
                Some(num) => match creds {
                    None => (AddModel::Failed(EngineError::LiveCredentialsUnreadable), l),
                    Some(blob) => match json_pretty(config->0) {
                        None => (AddModel::Failed(EngineError::LiveConfigUnreadable), l),
                        Some(doc) => {
                            let uuid = match live_uuid(config) {
                                Some(u) => u,
                                None => Seq::empty(),
                            };
                            let slot = SlotModel {
                                email,
                                uuid,
                                added: now,
                                auth_kind: AuthKind::Oauth,
                            };
                            (
                                AddModel::Added(
                                    num,
                                    seq![
                                        StepModel::SaveCredentialBackup { slot: num, label: email, blob },
                                        StepModel::SaveConfigBackup { slot: num, label: email, document: doc },
                                    ],
                                ),
                                l.with_slot(num, slot, now),
                            )
                        },
                    },
                },
            },
        },
    }
}

/// Registers the live OAUTH account as a new slot (see [`add_spec`]).
pub fn core_add(
    ledger: &mut SequenceFile,
    live_config: &Option<String>,
    live_credentials: Option<String>,
    now: String,
) -> (r: Result<AddOutcome, EngineError>)
    requires
        old(ledger).wf(),
    ensures
        (add_view(r), final(ledger)@) == add_spec(
            old(ledger)@,
            opt_view(*live_config),
            opt_view(live_credentials),
            now@,
        ),
        final(ledger).wf(),
{
    let email = match current_email(live_config) {
        Some(e) => e,
        None => return Err(EngineError::NoLiveAccount),
    };
    if let Some(n) = ledger.find_by_email(email.as_str()) {
        return Ok(AddOutcome::AlreadyManaged { num: n });
    }
    let num = match ledger.next_account_number() {
        Some(n) => n,
        None => return Err(EngineError::NoFreeId),
    };
    let blob = match live_credentials {
        Some(b) => b,
        None => return Err(EngineError::LiveCredentialsUnreadable),
    };
    let config_text = match live_config {
        Some(t) => t,
        None => return Err(EngineError::LiveConfigUnreadable),
    };
    let document = match pretty(config_text.as_str()) {
        Some(d) => d,
        None => return Err(EngineError::LiveConfigUnreadable),
    };
    let uuid = match current_uuid(live_config) {
        Some(u) => u,
        None => String::new(),
    };
    proof {
        lemma_next_id_unused(ledger@);
    }
    let mut steps: Vec<Step> = Vec::new();
    steps.push(Step::SaveCredentialBackup { slot: num, label: email.clone(), blob });
    steps.push(Step::SaveConfigBackup { slot: num, label: email.clone(), document });
    let entry = AccountEntry { email, uuid, added: now.clone(), auth_kind: AuthKind::Oauth };
    ledger.register(num, entry, now);
    assert(steps_view(steps@) =~= seq![steps@[0]@, steps@[1]@]);
    Ok(AddOutcome::Added { num, steps })
}

/// The next id is not in use.
pub proof fn lemma_next_id_unused(l: LedgerModel)
    requires
        l.wf(),
    ensures
        l.next_id() matches Some(n) ==> !l.slots.contains_key(n),
{
    crate::ledger::lemma_top_id(l.order);
    if let Some(n) = l.next_id() {
        if l.slots.contains_key(n) {
            assert(l.order.contains(n));
        }
    }
}

/// The slot the live session belongs to: the active slot if the ledger has
/// one, else the slot labelled with the live OAUTH identity.
pub open spec fn source_spec(l: LedgerModel, config: Option<Seq<char>>) -> Result<u32, EngineError> {
    match l.active {
        Some(a) => Ok(a),
        None => match live_email(config) {
            None => Err(EngineError::NoLiveAccount),
            Some(e) => match l.find_email(e) {
                Some(n) => Ok(n),
                None => Err(EngineError::NotManaged),
            },
        },
    }
}

/// Determines the slot the live session belongs to (see [`source_spec`]).
pub fn resolve_current_account(ledger: &SequenceFile, live_config: &Option<String>) -> (r: Result<
    u32,
    EngineError,
>)
    requires
        ledger.wf(),
    ensures
        r == source_spec(ledger@, opt_view(*live_config)),
        r matches Ok(n) ==> ledger@.slots.contains_key(n),
{
    match ledger.active_account_number {
        Some(a) => Ok(a),
        None => match current_email(live_config) {
            None => Err(EngineError::NoLiveAccount),
            Some(e) => match ledger.find_by_email(e.as_str()) {
                Some(n) => Ok(n),
                None => Err(EngineError::NotManaged),
            },
        },
    }
}

/// Refreshing the outgoing slot's backups: an OAUTH slot gets the live
/// credentials and the pretty-printed live config; a token slot gets nothing.
pub open spec fn snapshot_spec(
    kind: AuthKind,
    slot: u32,
    label: Seq<char>,
    config: Option<Seq<char>>,
    creds: Option<Seq<char>>,
) -> Result<Seq<StepModel>, EngineError> {
    match kind {
        AuthKind::Token => Ok(Seq::empty()),
        AuthKind::Oauth => match creds {
            None => Err(EngineError::LiveCredentialsUnreadable),
            Some(blob) => match config {
                None => Err(EngineError::LiveConfigUnreadable),
                Some(c) => match json_pretty(c) {
                    None => Err(EngineError::LiveConfigUnreadable),
                    Some(doc) => Ok(
                        seq![
                            StepModel::SaveCredentialBackup { slot, label, blob },
                            StepModel::SaveConfigBackup { slot, label, document: doc },
                        ],
                    ),
                },
            },
        },
    }
}

/// Activating the incoming slot from its backups: an OAUTH slot's credentials
/// go live and only its identity marker is merged into the live config; a
/// token slot's token goes to the active-token slot.
pub open spec fn activation_spec(
    kind: AuthKind,
    slot: u32,
    backup_creds: Seq<char>,
    backup_config: Option<Seq<char>>,
    config: Option<Seq<char>>,
) -> Result<Seq<StepModel>, EngineError> {
    match kind {
        AuthKind::Oauth => match backup_config {
            None => Err(EngineError::MissingConfigBackup { num: slot }),
            Some(b) => if !json_valid(b) {
                Err(EngineError::InvalidConfigBackup { num: slot })
            } else {
                match json_member(b, identity_key()) {
                    None => Err(EngineError::MissingIdentity { num: slot }),
                    Some(marker) => match config {
                        None => Err(EngineError::LiveConfigUnreadable),
                        Some(c) => match json_with_member(c, identity_key(), marker) {
                            None => Err(EngineError::LiveConfigNotMergeable),
                            Some(merged) => Ok(
                                seq![
                                    StepModel::WriteLiveCredentials { blob: backup_creds },
                                    StepModel::WriteLiveConfig { document: merged },
                                ],
                            ),
                        },
                    },
                }
            },
        },
        AuthKind::Token => match json_string_member(backup_creds, "token"@) {
            None => Err(EngineError::InvalidCredentialBackup { num: slot }),
            Some(token) => Ok(seq![StepModel::WriteActiveToken { token }]),
        },
    }
}

fn snapshot_steps(
    kind: AuthKind,
    slot: u32,
    label: &String,
    live_config: &Option<String>,
    live_credentials: Option<String>,
) -> (r: Result<Vec<Step>, EngineError>)
    ensures
        match r {
            Ok(v) => snapshot_spec(kind, slot, label@, opt_view(*live_config), opt_view(live_credentials)) == Ok::<Seq<StepModel>, EngineError>(steps_view(v@)),
            Err(e) => snapshot_spec(kind, slot, label@, opt_view(*live_config), opt_view(live_credentials)) == Err::<Seq<StepModel>, EngineError>(e),
        },
{
    let mut steps: Vec<Step> = Vec::new();
    match kind {
        AuthKind::Token => {
            assert(steps_view(steps@) =~= Seq::empty());
            Ok(steps)
        },
        AuthKind::Oauth => {
            let blob = match live_credentials {
                Some(b) => b,
                None => return Err(EngineError::LiveCredentialsUnreadable),
            };
            let text = match live_config {
                Some(t) => t,
                None => return Err(EngineError::LiveConfigUnreadable),
            };
            let document = match pretty(text.as_str()) {
                Some(d) => d,
                None => return Err(EngineError::LiveConfigUnreadable),
            };
            steps.push(Step::SaveCredentialBackup { slot, label: label.clone(), blob });
            steps.push(Step::SaveConfigBackup { slot, label: label.clone(), document });
            assert(steps_view(steps@) =~= seq![steps@[0]@, steps@[1]@]);
            Ok(steps)
        },
    }
}

fn activation_steps(
    kind: AuthKind,
    slot: u32,
    backup_creds: String,
    backup_config: &Option<String>,
    live_config: &Option<String>,
) -> (r: Result<Vec<Step>, EngineError>)
    ensures
        match r {
            Ok(v) => activation_spec(kind, slot, backup_creds@, opt_view(*backup_config), opt_view(*live_config)) == Ok::<Seq<StepModel>, EngineError>(steps_view(v@)),
            Err(e) => activation_spec(kind, slot, backup_creds@, opt_view(*backup_config), opt_view(*live_config)) == Err::<Seq<StepModel>, EngineError>(e),
        },
{
    let mut steps: Vec<Step> = Vec::new();
    match kind {
        AuthKind::Oauth => {
            let b = match backup_config {
                Some(b) => b,
                None => return Err(EngineError::MissingConfigBackup { num: slot }),
            };
            if !is_json(b.as_str()) {
                return Err(EngineError::InvalidConfigBackup { num: slot });
            }
            let marker = match member(b.as_str(), "oauthAccount") {
                Some(m) => m,
                None => return Err(EngineError::MissingIdentity { num: slot }),
            };
            let c = match live_config {
                Some(c) => c,
                None => return Err(EngineError::LiveConfigUnreadable),
            };
            let merged = match with_member(c.as_str(), "oauthAccount", marker.as_str()) {
                Some(m) => m,
                None => return Err(EngineError::LiveConfigNotMergeable),
            };
            steps.push(Step::WriteLiveCredentials { blob: backup_creds });
            steps.push(Step::WriteLiveConfig { document: merged });
            assert(steps_view(steps@) =~= seq![steps@[0]@, steps@[1]@]);
            Ok(steps)
        },
        AuthKind::Token => {
            let token = match string_member(backup_creds.as_str(), "token") {
                Some(t) => t,
                None => return Err(EngineError::InvalidCredentialBackup { num: slot }),
            };
            steps.push(Step::WriteActiveToken { token });
            assert(steps_view(steps@) =~= seq![steps@[0]@]);
            Ok(steps)
        },
    }
}

/// What `switch` did, as mathematical values.
pub enum SwitchModel {
    Failed(EngineError),
    AlreadyActive(u32),
    Switched(u32, u32, Seq<StepModel>),
}

/// What `switch` did.
#[derive(Debug)]
pub enum SwitchOutcome {
    /// The target is the live account already; nothing changed.
    AlreadyActive { num: u32 },
    /// Perform `steps`, then persist the ledger, which now names `to` active.
    Switched { from: u32, to: u32, steps: Vec<Step> },
}

pub open spec fn switch_view(r: Result<SwitchOutcome, EngineError>) -> SwitchModel {
    match r {
        Err(e) => SwitchModel::Failed(e),
        Ok(SwitchOutcome::AlreadyActive { num }) => SwitchModel::AlreadyActive(num),
        Ok(SwitchOutcome::Switched { from, to, steps }) => SwitchModel::Switched(
            from,
            to,
            steps_view(steps@),
        ),
    }
}

/// Switching to slot `target`: the outgoing slot's backups are refreshed
/// first, then the target is activated from its backups, then the ledger names
/// it active. Nothing is done if the target is the live account already.
/// The second component is the ledger afterwards.
pub open spec fn switch_spec(
    l: LedgerModel,
    target: u32,
    config: Option<Seq<char>>,
    live_creds: Option<Seq<char>>,
    backup_creds: Option<Seq<char>>,
    backup_config: Option<Seq<char>>,
    now: Seq<char>,
) -> (SwitchModel, LedgerModel) {
    if !l.slots.contains_key(target) {
        (SwitchModel::Failed(EngineError::NoSuchAccount { num: target }), l)
    } else {
        match source_spec(l, config) {
            Err(e) => (SwitchModel::Failed(e), l),
            Ok(cur) => if cur == target {
                (SwitchModel::AlreadyActive(target), l)
            } else {
                match snapshot_spec(
                    l.slots[cur].auth_kind,
                    cur,
                    l.slots[cur].email,
                    config,
                    live_creds,
                ) {
                    Err(e) => (SwitchModel::Failed(e), l),
                    Ok(snap) => match backup_creds {
                        None => (
                            SwitchModel::Failed(EngineError::MissingCredentialBackup { num: target }),
                            l,
                        ),
                        Some(tc) => match activation_spec(
                            l.slots[target].auth_kind,
                            target,
                            tc,
                            backup_config,
                            config,
                        ) {
                            Err(e) => (SwitchModel::Failed(e), l),
                            Ok(act) => (
                                SwitchModel::Switched(cur, target, snap + act),
                                l.with_active(target, now),
                            ),
                        },
                    },
                }
            },
        }
    }
}

/// Switches the live account to slot `target` (see [`switch_spec`]).
pub fn core_switch(
    ledger: &mut SequenceFile,
    target: u32,
    live_config: &Option<String>,
    live_credentials: Option<String>,
    backup_credentials: Option<String>,
    backup_config: &Option<String>,
    now: String,
) -> (r: Result<SwitchOutcome, EngineError>)
    requires
        old(ledger).wf(),
    ensures
        (switch_view(r), final(ledger)@) == switch_spec(
            old(ledger)@,
            target,
            opt_view(*live_config),
            opt_view(live_credentials),
            opt_view(backup_credentials),
            opt_view(*backup_config),
            now@,
        ),
        final(ledger).wf(),
{
    let target_entry = match ledger.entry(target) {
        Some(e) => e,
        None => return Err(EngineError::NoSuchAccount { num: target }),
    };
    let target_kind = target_entry.auth_kind;
    let current = match resolve_current_account(ledger, live_config) {
        Ok(n) => n,
        Err(e) => return Err(e),
    };
    if current == target {
        return Ok(SwitchOutcome::AlreadyActive { num: target });
    }
    let current_entry = ledger.entry(current).unwrap();
    let mut steps = match snapshot_steps(
        current_entry.auth_kind,
        current,
        &current_entry.email,
        live_config,
        live_credentials,
    ) {
        Ok(v) => v,
        Err(e) => return Err(e),
    };
    let tc = match backup_credentials {
        Some(t) => t,
        None => return Err(EngineError::MissingCredentialBackup { num: target }),
    };
    let mut act = match activation_steps(target_kind, target, tc, backup_config, live_config) {
        Ok(v) => v,
        Err(e) => return Err(e),
    };
    let ghost snap_seq = steps@;
    let ghost act_seq = act@;
    steps.append(&mut act);
    assert(steps_view(steps@) =~= steps_view(snap_seq) + steps_view(act_seq));
    ledger.activate(target, now);
    Ok(SwitchOutcome::Switched { from: current, to: target, steps })
}

/// Removing slot `num`: both of its backups are deleted and it leaves the
/// ledger; live storage is never touched. The second component is the ledger
/// afterwards.
pub open spec fn remove_spec(l: LedgerModel, num: u32, now: Seq<char>) -> (
    Result<Seq<StepModel>, EngineError>,
    LedgerModel,
) {
    if !l.slots.contains_key(num) {
        (Err(EngineError::NoSuchAccount { num }), l)
    } else {
        let label = l.slots[num].email;
        (
            Ok(
                seq![
                    StepModel::DeleteCredentialBackup { slot: num, label },
                    StepModel::DeleteConfigBackup { slot: num, label },
                ],
            ),
            l.without_slot(num, now),
        )
    }
}

/// Removes slot `num` (see [`remove_spec`]).
pub fn core_remove(ledger: &mut SequenceFile, num: u32, now: String) -> (r: Result<
    Vec<Step>,
    EngineError,
>)
    requires
        old(ledger).wf(),
    ensures
        (
            match r {
                Ok(v) => Ok::<Seq<StepModel>, EngineError>(steps_view(v@)),
                Err(e) => Err::<Seq<StepModel>, EngineError>(e),
            },
            final(ledger)@,
        ) == remove_spec(old(ledger)@, num, now@),
        final(ledger).wf(),
{
    let label = match ledger.entry(num) {
        Some(e) => e.email.clone(),
        None => return Err(EngineError::NoSuchAccount { num }),
    };
    let mut steps: Vec<Step> = Vec::new();
    steps.push(Step::DeleteCredentialBackup { slot: num, label: label.clone() });
    steps.push(Step::DeleteConfigBackup { slot: num, label });
    assert(steps_view(steps@) =~= seq![steps@[0]@, steps@[1]@]);
    ledger.forget(num, now);
    Ok(steps)
}

/// The slot an identifier names, for a command that needs one.
pub open spec fn target_spec(l: LedgerModel, identifier: Seq<char>) -> Result<u32, EngineError> {
    if l.order.len() == 0 {
        Err(EngineError::NoAccounts)
    } else {
        match l.resolve(identifier) {
            Some(n) => Ok(n),
            None => Err(EngineError::NoMatch),
        }
    }
}

/// Resolves the slot that a command names by number or label.
pub fn resolve_target(ledger: &SequenceFile, identifier: &str) -> (r: Result<u32, EngineError>)
    requires
        ledger.wf(),
    ensures
        r == target_spec(ledger@, identifier@),
        r matches Ok(n) ==> ledger@.slots.contains_key(n),
{
    if ledger.sequence.len() == 0 {
        return Err(EngineError::NoAccounts);
    }
    match ledger.resolve(identifier) {
        Some(n) => Ok(n),
        None => Err(EngineError::NoMatch),
    }
}

/// The slot to switch to for `switch <identifier>`.
pub fn switch_to(ledger: &SequenceFile, identifier: &str) -> (r: Result<u32, EngineError>)
    requires
        ledger.wf(),
    ensures
        r == target_spec(ledger@, identifier@),
        r matches Ok(n) ==> ledger@.slots.contains_key(n),
{
    resolve_target(ledger, identifier)
}

/// What rotating to the next account asks for.
#[derive(Clone, Copy, Debug, PartialEq, Eq, Structural)]
pub enum Rotation {
    /// Switch to this slot.
    Next { num: u32 },
    /// The live account is not managed: register it instead of switching.
    AddLive,
}

/// Rotating: at least two slots are needed; the current slot is the active
/// one, else the one of the live identity; the next is its successor in
/// rotation order, wrapping past the end. An unmanaged live account is to be
/// added first.
pub open spec fn rotation_spec(l: LedgerModel, config: Option<Seq<char>>) -> Result<
    Rotation,
    EngineError,
> {
    if l.order.len() == 0 {
        Err(EngineError::NoAccounts)
    } else if l.order.len() < 2 {
        Err(EngineError::SingleAccount)
    } else {
        match l.active {
            Some(a) => Ok(Rotation::Next { num: l.successor(a) }),
            None => match live_email(config) {
                None => Err(EngineError::NoLiveAccount),
                Some(e) => match l.find_email(e) {
                    None => Ok(Rotation::AddLive),
                    Some(n) => Ok(Rotation::Next { num: l.successor(n) }),
                },
            },
        }
    }
}

/// Picks the next account in rotation order (see [`rotation_spec`]).
pub fn switch_next(ledger: &SequenceFile, live_config: &Option<String>) -> (r: Result<
    Rotation,
    EngineError,
>)
    requires
        ledger.wf(),
    ensures
        r == rotation_spec(ledger@, opt_view(*live_config)),
        r matches Ok(Rotation::Next { num }) ==> ledger@.slots.contains_key(num),
{
    if ledger.sequence.len() == 0 {
        return Err(EngineError::NoAccounts);
    }
    if ledger.sequence.len() < 2 {
        return Err(EngineError::SingleAccount);
    }
    let current = match ledger.active_account_number {
        Some(a) => a,
        None => match current_email(live_config) {
            None => return Err(EngineError::NoLiveAccount),
            Some(e) => match ledger.find_by_email(e.as_str()) {
                None => return Ok(Rotation::AddLive),
                Some(n) => n,
            },
        },
    };
    Ok(Rotation::Next { num: ledger.successor(current) })
}

/// Which flow `add` takes: the token flow when the live config names no OAUTH
/// account or the token override variable is set, the OAUTH flow otherwise.
pub fn add_mode(live_config: &Option<String>, env_token_set: bool) -> (r: AuthKind)
    ensures
        r == (if live_email(opt_view(*live_config)) is None || env_token_set {
            AuthKind::Token
        } else {
            AuthKind::Oauth
        }),
{
    if current_email(live_config).is_none() || env_token_set {
        AuthKind::Token
    } else {
        AuthKind::Oauth
    }
}

/// A label hint carried by a token. Tokens are opaque, so there is none.
pub fn email_from_token(token: &str) -> (r: Option<String>)
    ensures
        r is None,
{
    None
}

/// The default label of a token account added at Unix time `seconds` (its
/// low 32 bits).
pub fn token_label_at(seconds: u32) -> (r: String)
    ensures
        r@ == "token-"@ + crate::text::hex_of(seconds as nat, 8),
{
    let mut s = "token-".to_string();
    s.append(crate::text::hex_padded(seconds, 8).as_str());
    s
}

/// The label a token account gets: what the operator typed, else the default.
pub fn choose_label(typed: String, default_label: String) -> (r: String)
    ensures
        r@ == (if typed@.len() > 0 { typed@ } else { default_label@ }),
{
    if typed.as_str().is_empty() {
        default_label
    } else {
        typed
    }
}

/// The envelope a token is kept in: `{"token":<token as a JSON string>}`.
pub open spec fn token_envelope(token: Seq<char>) -> Seq<char> {
    "{\"token\":"@ + json_quoted(token) + "}"@
}

/// Registering a token account: the token must be non-empty; if a slot has
/// the label nothing changes; else the token's envelope and the pretty-printed
/// live config (or `{}`) become the new slot's backups, the token goes to the
/// active-token slot, and the slot is appended and made active. The second
/// component is the ledger afterwards.
pub open spec fn token_add_spec(
    l: LedgerModel,
    token: Seq<char>,
    label: Seq<char>,
    config: Option<Seq<char>>,
    now: Seq<char>,
) -> (AddModel, LedgerModel) {
    if token.len() == 0 {
        (AddModel::Failed(EngineError::EmptyToken), l)
    } else if let Some(n) = l.find_email(label) {
        (AddModel::AlreadyManaged(n), l)
    } else {
        match l.next_id() {
            None => (AddModel::Failed(EngineError::NoFreeId), l),
            Some(num) => {
                let doc = match config {
                    Some(c) => match json_pretty(c) {
                        Some(d) => d,
                        None => "{}"@,
                    },
                    None => "{}"@,
                };
                let slot = SlotModel {
                    email: label,
                    uuid: Seq::empty(),
                    added: now,
                    auth_kind: AuthKind::Token,
                };
                (
                    AddModel::Added(
                        num,
                        seq![
                            StepModel::SaveCredentialBackup { slot: num, label, blob: token_envelope(token) },
                            StepModel::SaveConfigBackup { slot: num, label, document: doc },
                            StepModel::WriteActiveToken { token },
                        ],
                    ),
                    l.with_slot(num, slot, now),
                )
            },
        }
    }
}

/// Registers a token account under `label` (see [`token_add_spec`]).
pub fn core_add_token(
    ledger: &mut SequenceFile,
    token: String,
    label: String,
    live_config: &Option<String>,
    now: String,
) -> (r: Result<AddOutcome, EngineError>)
    requires
        old(ledger).wf(),
    ensures
        (add_view(r), final(ledger)@) == token_add_spec(
            old(ledger)@,
            token@,
            label@,
            opt_view(*live_config),
            now@,
        ),
        final(ledger).wf(),
{
    if token.as_str().is_empty() {
        return Err(EngineError::EmptyToken);
    }
    if let Some(n) = ledger.find_by_email(label.as_str()) {
        return Ok(AddOutcome::AlreadyManaged { num: n });
    }
    let num = match ledger.next_account_number() {
        Some(n) => n,
        None => return Err(EngineError::NoFreeId),
    };
    let mut envelope = "{\"token\":".to_string();
    envelope.append(quoted(token.as_str()).as_str());
    envelope.append("}");
    let document = match live_config {
        Some(c) => match pretty(c.as_str()) {
            Some(d) => d,
            None => "{}".to_string(),
        },
        None => "{}".to_string(),
    };
    proof {
        lemma_next_id_unused(ledger@);
    }
    let mut steps: Vec<Step> = Vec::new();
    steps.push(Step::SaveCredentialBackup { slot: num, label: label.clone(), blob: envelope });
    steps.push(Step::SaveConfigBackup { slot: num, label: label.clone(), document });
    steps.push(Step::WriteActiveToken { token });
    assert(steps_view(steps@) =~= seq![steps@[0]@, steps@[1]@, steps@[2]@]);
    let entry = AccountEntry {
        email: label,
        uuid: String::new(),
        added: now.clone(),
        auth_kind: AuthKind::Token,
    };
    ledger.register(num, entry, now);
    Ok(AddOutcome::Added { num, steps })
}

/// The slot shown as active: the ledger's active slot, else the slot of the
/// live OAUTH identity.
pub open spec fn shown_active(l: LedgerModel, config: Option<Seq<char>>) -> Option<u32> {
    match l.active {
        Some(a) => Some(a),
        None => match live_email(config) {
            Some(e) => l.find_email(e),
            None => None,
        },
    }
}

/// Determines the slot shown as active (see [`shown_active`]).
pub fn active_slot(ledger: &SequenceFile, live_config: &Option<String>) -> (r: Option<u32>)
    requires
        ledger.wf(),
    ensures
        r == shown_active(ledger@, opt_view(*live_config)),
        r matches Some(n) ==> ledger@.slots.contains_key(n),
{
    match ledger.active_account_number {
        Some(a) => Some(a),
        None => match current_email(live_config) {
            Some(e) => ledger.find_by_email(e.as_str()),
            None => None,
        },
    }
}

/// What `status` reports.
#[derive(Clone, Copy, Debug, PartialEq, Eq, Structural)]
pub enum StatusView {
    /// This managed slot is active.
    Managed { num: u32 },
    /// An OAUTH account is logged in but has no slot.
    UnmanagedLive,
    /// A token is in use but has no slot.
    UnmanagedToken,
    /// Nothing is logged in.
    LoggedOut,
}

pub open spec fn status_spec(l: LedgerModel, config: Option<Seq<char>>, env_token_set: bool) -> StatusView {
    match shown_active(l, config) {
        Some(n) => StatusView::Managed { num: n },
        None => if live_email(config) is Some {
            StatusView::UnmanagedLive
        } else if env_token_set {
            StatusView::UnmanagedToken
        } else {
            StatusView::LoggedOut
        },
    }
}

/// The account status: the slot shown as active, or what is live without a slot.
pub fn status(ledger: &SequenceFile, live_config: &Option<String>, env_token_set: bool) -> (r:
    StatusView)
    requires
        ledger.wf(),
    ensures
        r == status_spec(ledger@, opt_view(*live_config), env_token_set),
{
    match active_slot(ledger, live_config) {
        Some(n) => StatusView::Managed { num: n },
        None => {
            if current_email(live_config).is_some() {
                StatusView::UnmanagedLive
            } else if env_token_set {
                StatusView::UnmanagedToken
            } else {
                StatusView::LoggedOut
            }
        },
    }
}

/// One line of the account list.
#[derive(Clone, Debug)]
pub struct ListRow {
    pub num: u32,
    pub email: String,
    pub is_token: bool,
    pub is_active: bool,
}

/// The account list: one row per slot in rotation order, marking the slot
/// shown as active and the token accounts.
pub fn list(ledger: &SequenceFile, live_config: &Option<String>) -> (r: Vec<ListRow>)
    requires
        ledger.wf(),
    ensures
        r@.len() == ledger@.order.len(),
        forall|i: int|
            0 <= i < r@.len() ==> {
                let n = #[trigger] ledger@.order[i];
                &&& r@[i].num == n
                &&& r@[i].email@ == ledger@.slots[n].email
                &&& r@[i].is_token == (ledger@.slots[n].auth_kind == AuthKind::Token)
                &&& r@[i].is_active == (shown_active(ledger@, opt_view(*live_config)) == Some(n))
            },
{
    let active = active_slot(ledger, live_config);
    let mut rows: Vec<ListRow> = Vec::new();
    let mut i: usize = 0;
    while i < ledger.sequence.len()
        invariant
            ledger.wf(),
            i <= ledger.sequence.len(),
            active == shown_active(ledger@, opt_view(*live_config)),
            rows@.len() == i,
            forall|j: int|
                0 <= j < i ==> {
                    let n = #[trigger] ledger@.order[j];
                    &&& rows@[j].num == n
                    &&& rows@[j].email@ == ledger@.slots[n].email
                    &&& rows@[j].is_token == (ledger@.slots[n].auth_kind == AuthKind::Token)
                    &&& rows@[j].is_active == (active == Some(n))
                },
        decreases ledger.sequence.len() - i,
    {
        let n = ledger.sequence[i];
        assert(ledger@.order.contains(n));
        assert(ledger@.slots.contains_key(n));
        let e = ledger.entry(n).unwrap();
        let is_active = match active {
            Some(a) => a == n,
            None => false,
        };
        let is_token = match e.auth_kind {
            AuthKind::Token => true,
            AuthKind::Oauth => false,
        };
        rows.push(ListRow { num: n, email: e.email.clone(), is_token, is_active });
        i = i + 1;
    }
    rows
}

/// The notice `add` reports for the account labelled `email`.
pub fn add_notice(email: &str, outcome: &AddOutcome) -> (r: String)
    ensures
        r@ == (match outcome {
            AddOutcome::AlreadyManaged { .. } => "Account "@ + email@ + " is already managed."@,
            AddOutcome::Added { num, .. } => "Added "@ + email@ + " as Account "@
                + crate::text::decimal_of(*num as nat),
        }),
{
    match outcome {
        AddOutcome::AlreadyManaged { .. } => {
            let mut s = "Account ".to_string();
            s.append(email);
            s.append(" is already managed.");
            s
        },
        AddOutcome::Added { num, .. } => {
            let mut s = "Added ".to_string();
            s.append(email);
            s.append(" as Account ");
            s.append(crate::text::decimal(*num).as_str());
            s
        },
    }
}

/// The default label of a token account added now: `token-` and eight
/// upper-case hexadecimal digits of the clock.
pub fn token_default_label() -> (r: String)
    ensures
        exists|s: u32| r@ == "token-"@ + crate::text::hex_of(s as nat, 8),
{
    let seconds = unix_seconds();
    let low: u32 = #[verifier::truncate] (seconds as u32);
    token_label_at(low)
}

/// Registers the live OAUTH account now: [`core_add`] with the current time,
/// which the ledger records as its last update.
pub fn add(
    ledger: &mut SequenceFile,
    live_config: &Option<String>,
    live_credentials: Option<String>,
) -> (r: Result<AddOutcome, EngineError>)
    requires
        old(ledger).wf(),
    ensures
        (add_view(r), final(ledger)@) == add_spec(
            old(ledger)@,
            opt_view(*live_config),
            opt_view(live_credentials),
            final(ledger)@.last_updated,
        ),
        final(ledger).wf(),
{
    core_add(ledger, live_config, live_credentials, now_utc())
}

/// Switches to slot `target` now: [`core_switch`] with the current time,
/// which the ledger records as its last update.
pub fn do_switch(
    ledger: &mut SequenceFile,
    target: u32,
    live_config: &Option<String>,
    live_credentials: Option<String>,
    backup_credentials: Option<String>,
    backup_config: &Option<String>,
) -> (r: Result<SwitchOutcome, EngineError>)
    requires
        old(ledger).wf(),
    ensures
        (switch_view(r), final(ledger)@) == switch_spec(
            old(ledger)@,
            target,
            opt_view(*live_config),
            opt_view(live_credentials),
            opt_view(backup_credentials),
            opt_view(*backup_config),
            final(ledger)@.last_updated,
        ),
        final(ledger).wf(),
{
    core_switch(
        ledger,
        target,
        live_config,
        live_credentials,
        backup_credentials,
        backup_config,
        now_utc(),
    )
}

/// Removes slot `num` now: [`core_remove`] with the current time, which the
/// ledger records as its last update.
pub fn remove(ledger: &mut SequenceFile, num: u32) -> (r: Result<Vec<Step>, EngineError>)
    requires
        old(ledger).wf(),
    ensures
        (
            match r {
                Ok(v) => Ok::<Seq<StepModel>, EngineError>(steps_view(v@)),
                Err(e) => Err::<Seq<StepModel>, EngineError>(e),
            },
            final(ledger)@,
        ) == remove_spec(old(ledger)@, num, final(ledger)@.last_updated),
        final(ledger).wf(),
{
    core_remove(ledger, num, now_utc())
}

/// Registers a token account now: [`core_add_token`] with the current time,
/// which the ledger records as its last update.
pub fn add_token(
    ledger: &mut SequenceFile,
    token: String,
    label: String,
    live_config: &Option<String>,
) -> (r: Result<AddOutcome, EngineError>)
    requires
        old(ledger).wf(),
    ensures
        (add_view(r), final(ledger)@) == token_add_spec(
            old(ledger)@,
            token@,
            label@,
            opt_view(*live_config),
            final(ledger)@.last_updated,
        ),
        final(ledger).wf(),
{
    core_add_token(ledger, token, label, live_config, now_utc())
}

} // verus!
