//! Where things live on disk and in the keychain. Every location derives from
//! the user's home directory and the host application's profile: its short
//! name (which names its directory and files) and its title (which names its
//! keychain services).

use vstd::prelude::*;

use crate::text::{decimal, decimal_of};

verus! {

/// `a`, then the decimal id, then `-`, then `label`, then `b`.
pub open spec fn slot_name(a: Seq<char>, num: u32, label: Seq<char>, b: Seq<char>) -> Seq<char> {
    a + decimal_of(num as nat) + "-"@ + label + b
}

fn cat2(a: &str, b: &str) -> (r: String)
    ensures
        r@ == a@ + b@,
{
    let mut s = a.to_string();
    s.append(b);
    s
}

fn cat3(a: &str, b: &str, c: &str) -> (r: String)
    ensures
        r@ == a@ + b@ + c@,
{
    let mut s = cat2(a, b);
    s.append(c);
    s
}

fn join_slot(a: &str, num: u32, label: &str, b: &str) -> (r: String)
    ensures
        r@ == slot_name(a@, num, label@, b@),
{
    let mut s = a.to_string();
    s.append(decimal(num).as_str());
    s.append("-");
    s.append(label);
    s.append(b);
    s
}

/// Paths and service names under one home directory, for one host application.
#[derive(Clone, Debug)]
pub struct Layout {
    pub home: String,
    /// The host application's short name, as in its directory `~/.<host>`.
    pub host: String,
    /// The host application's title, as in its keychain services.
    pub host_title: String,
}

impl Layout {
    pub open spec fn host_dir_spec(&self) -> Seq<char> {
        self.home@ + "/."@ + self.host@
    }

    pub open spec fn backup_dir_spec(&self) -> Seq<char> {
        self.home@ + "/."@ + self.host@ + "-switch-backup"@
    }

    pub open spec fn primary_config_spec(&self) -> Seq<char> {
        self.host_dir_spec() + "/."@ + self.host@ + ".json"@
    }

    pub open spec fn fallback_config_spec(&self) -> Seq<char> {
        self.home@ + "/."@ + self.host@ + ".json"@
    }

    pub open spec fn creds_file_spec(&self) -> Seq<char> {
        self.host_dir_spec() + "/.credentials.json"@
    }

    pub open spec fn config_backup_spec(&self, num: u32, email: Seq<char>) -> Seq<char> {
        self.backup_dir_spec() + slot_name(
            "/configs/."@ + self.host@ + "-config-"@,
            num,
            email,
            ".json"@,
        )
    }

    pub open spec fn cred_backup_spec(&self, num: u32, email: Seq<char>) -> Seq<char> {
        self.backup_dir_spec() + slot_name(
            "/credentials/."@ + self.host@ + "-credentials-"@,
            num,
            email,
            ".json"@,
        )
    }

    pub open spec fn live_service_spec(&self) -> Seq<char> {
        self.host_title@ + "-credentials"@
    }

    pub open spec fn account_service_spec(&self, num: u32, email: Seq<char>) -> Seq<char> {
        slot_name(self.host_title@ + "-Account-"@, num, email, Seq::empty())
    }

    /// The host application's directory.
    pub fn host_dir(&self) -> (r: String)
        ensures
            r@ == self.host_dir_spec(),
    {
        cat3(self.home.as_str(), "/.", self.host.as_str())
    }

    /// Directory that holds the ledger and all backups.
    pub fn backup_dir(&self) -> (r: String)
        ensures
            r@ == self.backup_dir_spec(),
    {
        let mut s = self.host_dir();
        s.append("-switch-backup");
        s
    }

    fn under_backup_dir(&self, rest: &str) -> (r: String)
        ensures
            r@ == self.backup_dir_spec() + rest@,
    {
        let mut s = self.backup_dir();
        s.append(rest);
        s
    }

    /// Directory of the config backups.
    pub fn configs_dir(&self) -> (r: String)
        ensures
            r@ == self.backup_dir_spec() + "/configs"@,
    {
        self.under_backup_dir("/configs")
    }

    /// Directory of the file-backed credential backups.
    pub fn credentials_dir(&self) -> (r: String)
        ensures
            r@ == self.backup_dir_spec() + "/credentials"@,
    {
        self.under_backup_dir("/credentials")
    }

    /// The ledger file.
    pub fn sequence_path(&self) -> (r: String)
        ensures
            r@ == self.backup_dir_spec() + "/sequence.json"@,
    {
        self.under_backup_dir("/sequence.json")
    }

    /// The file-backed slot for the active token.
    pub fn active_token_file_path(&self) -> (r: String)
        ensures
            r@ == self.backup_dir_spec() + "/active-token"@,
    {
        self.under_backup_dir("/active-token")
    }

    /// Config backup of slot `num` labelled `email`.
    pub fn config_backup_path(&self, num: u32, email: &str) -> (r: String)
        ensures
            r@ == self.config_backup_spec(num, email@),
    {
        let prefix = cat3("/configs/.", self.host.as_str(), "-config-");
        let mut s = self.backup_dir();
        s.append(join_slot(prefix.as_str(), num, email, ".json").as_str());
        s
    }

    /// File-backed credential backup of slot `num` labelled `email`.
    pub fn cred_backup_path(&self, num: u32, email: &str) -> (r: String)
        ensures
            r@ == self.cred_backup_spec(num, email@),
    {
        let prefix = cat3("/credentials/.", self.host.as_str(), "-credentials-");
        let mut s = self.backup_dir();
        s.append(join_slot(prefix.as_str(), num, email, ".json").as_str());
        s
    }

    /// The shell rc file that exports the active token.
    pub fn ccswitchrc_path(&self) -> (r: String)
        ensures
            r@ == self.home@ + "/.ccswitchrc"@,
    {
        cat2(self.home.as_str(), "/.ccswitchrc")
    }

    /// The host application's file-backed live credentials.
    pub fn creds_file_path(&self) -> (r: String)
        ensures
            r@ == self.creds_file_spec(),
    {
        let mut s = self.host_dir();
        s.append("/.credentials.json");
        s
    }

    /// The preferred location of the host application's config.
    pub fn primary_config_path(&self) -> (r: String)
        ensures
            r@ == self.primary_config_spec(),
    {
        let mut s = self.host_dir();
        s.append(cat3("/.", self.host.as_str(), ".json").as_str());
        s
    }

    /// The location of the host application's config used otherwise.
    pub fn fallback_config_path(&self) -> (r: String)
        ensures
            r@ == self.fallback_config_spec(),
    {
        let mut s = self.host_dir();
        s.append(".json");
        s
    }

    /// Keychain service of the host application's live credentials.
    pub fn live_service(&self) -> (r: String)
        ensures
            r@ == self.live_service_spec(),
    {
        cat2(self.host_title.as_str(), "-credentials")
    }

    /// Keychain service of the credential backup of slot `num` labelled `email`.
    pub fn account_service(&self, num: u32, email: &str) -> (r: String)
        ensures
            r@ == self.account_service_spec(num, email@),
    {
        let prefix = cat2(self.host_title.as_str(), "-Account-");
        let mut s = prefix.clone();
        s.append(decimal(num).as_str());
        s.append("-");
        s.append(email);
        assert(s@ =~= self.account_service_spec(num, email@));
        s
    }

    /// The shell command the rc file runs to read the active token from a file.
    pub fn token_file_command(&self) -> (r: String)
        ensures
            r@ == "cat ~/."@ + self.host@ + "-switch-backup/active-token"@,
    {
        cat3("cat ~/.", self.host.as_str(), "-switch-backup/active-token")
    }
}

/// The temporary file that an atomic write of `path` goes through, told apart
/// by process id.
pub fn temp_path(path: &str, pid: u32) -> (r: String)
    ensures
        r@ == path@ + ".tmp."@ + decimal_of(pid as nat),
{
    let mut s = path.to_string();
    s.append(".tmp.");
    s.append(decimal(pid).as_str());
    s
}

} // verus!
