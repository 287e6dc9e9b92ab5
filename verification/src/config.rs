use vstd::prelude::*;

verus! {

/// The finalized description of the target system: the package names
/// selected for the system package manager, the extension identifiers
/// selected for the editor, the target non-root username, and the
/// connection credentials of the optional proxy service.
///
/// The configuration is read-only input; nothing here mutates it.
pub struct Config {
    pub pacman_packages: Vec<String>,
    pub vscode_packages: Vec<String>,
    pub username: String,
    pub shadowsocks_server: String,
    pub shadowsocks_password: String,
}

/// Mathematical image of a [`Config`]: every string as a sequence of
/// characters.
#[verifier::ext_equal]
pub struct ConfigV {
    pub pacman_packages: Seq<Seq<char>>,
    pub vscode_packages: Seq<Seq<char>>,
    pub username: Seq<char>,
    pub shadowsocks_server: Seq<char>,
    pub shadowsocks_password: Seq<char>,
}

impl View for Config {
    type V = ConfigV;

    open spec fn view(&self) -> ConfigV {
        ConfigV {
            pacman_packages: self.pacman_packages.deep_view(),
            vscode_packages: self.vscode_packages.deep_view(),
            username: self.username@,
            shadowsocks_server: self.shadowsocks_server@,
            shadowsocks_password: self.shadowsocks_password@,
        }
    }
}

/// Whether `key` occurs, by exact match, among the strings `ss`.
pub open spec fn seq_contains_str(ss: Seq<Seq<char>>, key: Seq<char>) -> bool {
    exists|i: int| 0 <= i < ss.len() && ss[i] == key
}

/// Exact-match membership test of a package identifier in a selection set.
/// No normalization or case folding: identifiers are opaque keys.
pub fn contains_key(packages: &Vec<String>, key: &str) -> (r: bool)
    ensures
        r == seq_contains_str(packages.deep_view(), key@),
{
    let k: String = key.to_owned();
    let mut i: usize = 0;
    while i < packages.len()
        invariant
            0 <= i <= packages@.len(),
            k@ == key@,
            forall|j: int| 0 <= j < i ==> packages.deep_view()[j] != key@,
        decreases packages@.len() - i,
    {
        if packages[i] == k {
            assert(packages.deep_view()[i as int] == key@);
            return true;
        }
        i = i + 1;
    }
    false
}

} // verus!
