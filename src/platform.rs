//! Which credential backend the host platform uses.

use vstd::prelude::*;

verus! {

/// Host platform.
#[derive(Clone, Copy, Debug, PartialEq, Eq, Structural)]
pub enum Platform {
    MacOS,
    Linux,
    Wsl,
}

impl Platform {
    /// Whether secrets go to the OS keychain; otherwise they go to owner-only files.
    pub open spec fn keychain_backed(self) -> bool {
        self is MacOS
    }

    /// Whether secrets go to the OS keychain.
    pub fn uses_keychain(&self) -> (r: bool)
        ensures
            r == self.keychain_backed(),
    {
        match self {
            Platform::MacOS => true,
            _ => false,
        }
    }

    /// Display name.
    pub fn name(&self) -> (r: &'static str)
        ensures
            r@ == platform_name(*self),
    {
        match self {
            Platform::MacOS => "macOS",
            Platform::Linux => "Linux",
            Platform::Wsl => "WSL",
        }
    }
}

pub open spec fn platform_name(p: Platform) -> Seq<char> {
    match p {
        Platform::MacOS => "macOS"@,
        Platform::Linux => "Linux"@,
        Platform::Wsl => "WSL"@,
    }
}

/// The platform for an OS name (as Rust names it) and whether a WSL marker
/// variable is set: macOS is itself, Linux with a marker is WSL, all else Linux.
pub open spec fn platform_for(os: Seq<char>, wsl_marker: bool) -> Platform {
    if os == "macos"@ {
        Platform::MacOS
    } else if os == "linux"@ && wsl_marker {
        Platform::Wsl
    } else {
        Platform::Linux
    }
}

fn same_text(a: &str, b: &str) -> (r: bool)
    ensures
        r == (a@ == b@),
{
    a.to_string() == b.to_string()
}

/// Resolves the platform from the OS name and the WSL hint.
pub fn detect(os: &str, wsl_marker: bool) -> (r: Platform)
    ensures
        r == platform_for(os@, wsl_marker),
{
    if same_text(os, "macos") {
        Platform::MacOS
    } else if same_text(os, "linux") && wsl_marker {
        Platform::Wsl
    } else {
        Platform::Linux
    }
}

} // verus!
