//! The credential store and config mirror: where each engine step lands on a
//! given platform, and the atomic write used for JSON documents.

use vstd::prelude::*;

use crate::engine::{Step, StepModel};
use crate::json::{is_json, json_member, json_valid, member};
use crate::layout::{temp_path, Layout};
use crate::platform::Platform;
use crate::text::decimal_of;

verus! {

/// A place a secret or document is kept.
#[derive(Clone, Debug)]
pub enum Location {
    /// An entry of the OS keychain, by service name.
    Keychain { service: String },
    /// A file, by path.
    File { path: String },
}

pub enum LocationModel {
    Keychain(Seq<char>),
    File(Seq<char>),
}

impl View for Location {
    type V = LocationModel;

    open spec fn view(&self) -> LocationModel {
        match self {
            Location::Keychain { service } => LocationModel::Keychain(service@),
            Location::File { path } => LocationModel::File(path@),
        }
    }
}

/// One operation on the stores.
#[derive(Debug)]
pub enum FileOp {
    /// Store `content` at `at`: a keychain entry is added or updated; a file is
    /// written (its directory created) and restricted to its owner.
    Put { at: Location, content: String },
    /// Delete what is at `at`; absent is fine.
    Delete { at: Location },
    /// Write `content` to `temp`, flush, rename it over `path`, and restrict
    /// `path` to its owner.
    Replace { path: String, temp: String, content: String },
}

pub enum OpModel {
    Put(LocationModel, Seq<char>),
    Delete(LocationModel),
    Replace(Seq<char>, Seq<char>, Seq<char>),
}

impl View for FileOp {
    type V = OpModel;

    open spec fn view(&self) -> OpModel {
        match self {
            FileOp::Put { at, content } => OpModel::Put(at@, content@),
            FileOp::Delete { at } => OpModel::Delete(at@),
            FileOp::Replace { path, temp, content } => OpModel::Replace(path@, temp@, content@),
        }
    }
}

/// Why a write was refused.
#[derive(Clone, Copy, Debug, PartialEq, Eq, Structural)]
pub enum StoreError {
    /// The content to write is not a JSON document.
    InvalidJson,
}

/// The atomic replacement of `path` by `content`, refused unless `content` is
/// JSON. The destination is touched only by the final rename.
pub open spec fn atomic_spec(path: Seq<char>, content: Seq<char>, pid: u32) -> Result<
    OpModel,
    StoreError,
> {
    if json_valid(content) {
        Ok(OpModel::Replace(path, path + ".tmp."@ + decimal_of(pid as nat), content))
    } else {
        Err(StoreError::InvalidJson)
    }
}

/// Plans the atomic write of a JSON document (see [`atomic_spec`]).
pub fn write_atomic(path: String, content: String, pid: u32) -> (r: Result<FileOp, StoreError>)
    ensures
        match r {
            Ok(op) => atomic_spec(path@, content@, pid) == Ok::<OpModel, StoreError>(op@),
            Err(e) => atomic_spec(path@, content@, pid) == Err::<OpModel, StoreError>(e),
        },
{
    if !is_json(content.as_str()) {
        return Err(StoreError::InvalidJson);
    }
    let temp = temp_path(path.as_str(), pid);
    Ok(FileOp::Replace { path, temp, content })
}

/// The host config to use: the primary file if it is JSON that carries the
/// identity marker, else the fallback.
pub fn config_path(layout: &Layout, primary_text: &Option<String>) -> (r: String)
    ensures
        r@ == (match primary_text {
            Some(t) => if json_member(t@, "oauthAccount"@) is Some {
                layout.primary_config_spec()
            } else {
                layout.fallback_config_spec()
            },
            None => layout.fallback_config_spec(),
        }),
{
    match primary_text {
        Some(t) => {
            if member(t.as_str(), "oauthAccount").is_some() {
                layout.primary_config_path()
            } else {
                layout.fallback_config_path()
            }
        },
        None => layout.fallback_config_path(),
    }
}

/// Keychain output without the one line terminator the keychain utility appends.
pub fn strip_line_end(s: String) -> (r: String)
    ensures
        r@ == (if s@.len() > 0 && s@.last() == '\n' {
            s@.drop_last()
        } else {
            s@
        }),
{
    let n = s.as_str().unicode_len();
    if n > 0 && s.as_str().get_char(n - 1) == '\n' {
        let r = s.as_str().substring_char(0, n - 1).to_string();
        assert(r@ =~= s@.drop_last());
        r
    } else {
        s
    }
}

/// Content of the shell rc file that exports the active token: the token is
/// read from the keychain on keychain platforms, else from the token file.
pub fn rc_content(platform: Platform, layout: &Layout) -> (r: String)
    ensures
        r@ == "# Managed by ccswitch — do not edit manually\nexport CLAUDE_CODE_OAUTH_TOKEN=$("@ + (
        if platform.keychain_backed() {
            "security find-generic-password -s \"ccswitch-active-token\" -w"@
        } else {
            "cat ~/."@ + layout.host@ + "-switch-backup/active-token"@
        }) + " 2>/dev/null)\n"@,
{
    let mut s = "# Managed by ccswitch — do not edit manually\nexport CLAUDE_CODE_OAUTH_TOKEN=$(".to_string();
    if platform.uses_keychain() {
        s.append("security find-generic-password -s \"ccswitch-active-token\" -w");
    } else {
        s.append(layout.token_file_command().as_str());
    }
    s.append(" 2>/dev/null)\n");
    s
}

/// The stores of one platform under one home directory.
#[derive(Clone, Debug)]
pub struct Stores {
    pub platform: Platform,
    pub layout: Layout,
    /// The host config file in use.
    pub config_path: String,
}

impl Stores {
    pub open spec fn live_spec(&self) -> LocationModel {
        if self.platform.keychain_backed() {
            LocationModel::Keychain(self.layout.live_service_spec())
        } else {
            LocationModel::File(self.layout.creds_file_spec())
        }
    }

    pub open spec fn backup_spec(&self, num: u32, email: Seq<char>) -> LocationModel {
        if self.platform.keychain_backed() {
            LocationModel::Keychain(self.layout.account_service_spec(num, email))
        } else {
            LocationModel::File(self.layout.cred_backup_spec(num, email))
        }
    }

    pub open spec fn active_token_spec(&self) -> LocationModel {
        if self.platform.keychain_backed() {
            LocationModel::Keychain("ccswitch-active-token"@)
        } else {
            LocationModel::File(self.layout.backup_dir_spec() + "/active-token"@)
        }
    }

    pub open spec fn config_backup_spec(&self, num: u32, email: Seq<char>) -> Seq<char> {
        self.layout.config_backup_spec(num, email)
    }

    /// Where the live credentials are read from.
    pub fn read_live(&self) -> (r: Location)
        ensures
            r@ == self.live_spec(),
    {
        if self.platform.uses_keychain() {
            Location::Keychain { service: self.layout.live_service() }
        } else {
            Location::File { path: self.layout.creds_file_path() }
        }
    }

    /// Where the credential backup of slot `num` labelled `email` is read from.
    pub fn read_backup(&self, num: u32, email: &str) -> (r: Location)
        ensures
            r@ == self.backup_spec(num, email@),
    {
        if self.platform.uses_keychain() {
            Location::Keychain { service: self.layout.account_service(num, email) }
        } else {
            Location::File { path: self.layout.cred_backup_path(num, email) }
        }
    }

    fn active_token_location(&self) -> (r: Location)
        ensures
            r@ == self.active_token_spec(),
    {
        if self.platform.uses_keychain() {
            Location::Keychain { service: "ccswitch-active-token".to_string() }
        } else {
            Location::File { path: self.layout.active_token_file_path() }
        }
    }

    /// Overwrites the live credentials.
    pub fn write_live(&self, credentials: String) -> (r: FileOp)
        ensures
            r@ == OpModel::Put(self.live_spec(), credentials@),
    {
        FileOp::Put { at: self.read_live(), content: credentials }
    }

    /// Overwrites the credential backup of slot `num` labelled `email`.
    pub fn write_backup(&self, num: u32, email: &str, credentials: String) -> (r: FileOp)
        ensures
            r@ == OpModel::Put(self.backup_spec(num, email@), credentials@),
    {
        FileOp::Put { at: self.read_backup(num, email), content: credentials }
    }

    /// Deletes the credential backup of slot `num` labelled `email`.
    pub fn delete_backup(&self, num: u32, email: &str) -> (r: FileOp)
        ensures
            r@ == OpModel::Delete(self.backup_spec(num, email@)),
    {
        FileOp::Delete { at: self.read_backup(num, email) }
    }

    /// Overwrites the active-token slot.
    pub fn write_active_token(&self, token: String) -> (r: FileOp)
        ensures
            r@ == OpModel::Put(self.active_token_spec(), token@),
    {
        FileOp::Put { at: self.active_token_location(), content: token }
    }

    /// The operation that performs `step` here.
    pub open spec fn step_spec(&self, step: StepModel, pid: u32) -> Result<OpModel, StoreError> {
        match step {
            StepModel::SaveCredentialBackup { slot, label, blob } => Ok(
                OpModel::Put(self.backup_spec(slot, label), blob),
            ),
            StepModel::SaveConfigBackup { slot, label, document } => Ok(
                OpModel::Put(LocationModel::File(self.config_backup_spec(slot, label)), document),
            ),
            StepModel::DeleteCredentialBackup { slot, label } => Ok(
                OpModel::Delete(self.backup_spec(slot, label)),
            ),
            StepModel::DeleteConfigBackup { slot, label } => Ok(
                OpModel::Delete(LocationModel::File(self.config_backup_spec(slot, label))),
            ),
            StepModel::WriteLiveCredentials { blob } => Ok(OpModel::Put(self.live_spec(), blob)),
            StepModel::WriteLiveConfig { document } => atomic_spec(
                self.config_path@,
                document,
                pid,
            ),
            StepModel::WriteActiveToken { token } => Ok(
                OpModel::Put(self.active_token_spec(), token),
            ),
        }
    }

    /// The operation that performs `step` here (see [`Stores::step_spec`]).
    pub fn op_for(&self, step: Step, pid: u32) -> (r: Result<FileOp, StoreError>)
        ensures
            match r {
                Ok(op) => self.step_spec(step@, pid) == Ok::<OpModel, StoreError>(op@),
                Err(e) => self.step_spec(step@, pid) == Err::<OpModel, StoreError>(e),
            },
    {
        match step {
            Step::SaveCredentialBackup { slot, label, blob } => Ok(
                self.write_backup(slot, label.as_str(), blob),
            ),
            Step::SaveConfigBackup { slot, label, document } => Ok(
                FileOp::Put {
                    at: Location::File {
                        path: self.layout.config_backup_path(slot, label.as_str()),
                    },
                    content: document,
                },
            ),
            Step::DeleteCredentialBackup { slot, label } => Ok(
                self.delete_backup(slot, label.as_str()),
            ),
            Step::DeleteConfigBackup { slot, label } => Ok(
                FileOp::Delete {
                    at: Location::File {
                        path: self.layout.config_backup_path(slot, label.as_str()),
                    },
                },
            ),
            Step::WriteLiveCredentials { blob } => Ok(self.write_live(blob)),
            Step::WriteLiveConfig { document } => write_atomic(
                self.config_path.clone(),
                document,
                pid,
            ),
            Step::WriteActiveToken { token } => Ok(self.write_active_token(token)),
        }
    }
}

} // verus!
