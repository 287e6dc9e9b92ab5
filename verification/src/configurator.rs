use vstd::prelude::*;

use crate::action::{Action, ActionV};
use crate::config::{seq_contains_str, Config, ConfigV};

verus! {

/// `/home/<username>`.
pub open spec fn home_base(username: Seq<char>) -> Seq<char> {
    "/home/"@ + username
}

/// `/home/<username>/<rel>`.
pub open spec fn home_in(username: Seq<char>, rel: Seq<char>) -> Seq<char> {
    "/home/"@ + username + "/"@ + rel
}

/// The single action of the privilege-escalation routine: append the
/// line granting the configured user full escalation rights to the
/// system policy file, and nothing else.
pub open spec fn plan_sudo(c: ConfigV) -> Seq<ActionV> {
    seq![
        ActionV::AppendFile { path: "/etc/sudoers"@, data: c.username + " ALL=(ALL) ALL\n"@ },
    ]
}

/// The alternate-shell routine: change the login shell of `root` and of
/// the configured user, move the staged rc file into the user's home,
/// hand it to the user, clone the shell framework and its three
/// plugin/theme repositories into fixed subdirectories, and hand the
/// whole tree to the user.
pub open spec fn plan_zsh(c: ConfigV) -> Seq<ActionV> {
    seq![
        ActionV::ChangeShell { user: "root"@ },
        ActionV::ChangeShell { user: c.username },
        ActionV::MoveFile {
            from: "/root/installer/zshrc"@,
            to: home_in(c.username, ".zshrc"@),
        },
        ActionV::ChownRecursive { user: c.username, path: home_in(c.username, ".zshrc"@) },
        ActionV::GitClone {
            url: "https://github.com/ohmyzsh/ohmyzsh.git"@,
            dest: home_in(c.username, ".oh-my-zsh"@),
        },
        ActionV::GitClone {
            url: "https://github.com/zsh-users/zsh-syntax-highlighting.git"@,
            dest: home_in(c.username, ".oh-my-zsh/custom/plugins/zsh-syntax-highlighting"@),
        },
        ActionV::GitClone {
            url: "https://github.com/zsh-users/zsh-autosuggestions.git"@,
            dest: home_in(c.username, ".oh-my-zsh/custom/plugins/zsh-autosuggestions"@),
        },
        ActionV::GitClone {
            url: "https://github.com/bhilburn/powerlevel9k.git"@,
            dest: home_in(c.username, ".oh-my-zsh/custom/themes/powerlevel9k"@),
        },
        ActionV::ChownRecursive { user: c.username, path: home_in(c.username, ".oh-my-zsh"@) },
    ]
}

/// One editor-extension install, run as `Some(user)` or as root (`None`).
pub open spec fn install_ext_action(as_user: Option<Seq<char>>, ext: Seq<char>) -> ActionV {
    ActionV::InstallExtension { as_user, extension: ext }
}

/// One per-user install for every configured extension identifier, in
/// the configured order.
pub open spec fn install_actions(u: Seq<char>, pkgs: Seq<Seq<char>>) -> Seq<ActionV> {
    pkgs.map_values(|p: Seq<char>| install_ext_action(Some(u), p))
}

/// The fixed prefix of the editor routine: two font packages, the
/// root-level and per-user settings files moved into freshly created
/// config directories, and the user's `.config` tree handed to the user.
pub open spec fn code_fixed(c: ConfigV) -> Seq<ActionV> {
    seq![
        ActionV::PacmanInstall { packages: seq!["ttf-droid"@, "ttf-ubuntu-font-family"@] },
        ActionV::CreateDirAll { path: "/root/.config/Code - OSS/User"@ },
        ActionV::MoveFile {
            from: "/root/installer/vscode_root.json"@,
            to: "/root/.config/Code - OSS/User/settings.json"@,
        },
        ActionV::CreateDirAll { path: home_in(c.username, ".config/Code - OSS/User"@) },
        ActionV::MoveFile {
            from: "/root/installer/vscode.json"@,
            to: home_in(c.username, ".config/Code - OSS/User/settings.json"@),
        },
        ActionV::ChownRecursive { user: c.username, path: home_in(c.username, ".config"@) },
    ]
}

/// The editor routine: the fixed prefix, one per-user install for every
/// configured extension, and — when one specific identifier is selected —
/// a second install of the same extension as root, under its
/// differently-cased name.  The duplicate install is a known rough edge
/// of the routine, not a designed feature.
pub open spec fn plan_code(c: ConfigV) -> Seq<ActionV> {
    code_fixed(c) + install_actions(c.username, c.vscode_packages) + (if seq_contains_str(
        c.vscode_packages,
        "robbowen.synthwave-vscode"@,
    ) {
        seq![install_ext_action(None, "RobbOwen.synthwave-vscode"@)]
    } else {
        Seq::<ActionV>::empty()
    })
}

/// The proxy routine: move the staged unit file and configuration
/// template into place, fill the configured server address and password
/// into the template's empty-string placeholders, and enable the service.
pub open spec fn plan_shadowsocks(c: ConfigV) -> Seq<ActionV> {
    seq![
        ActionV::MoveFile {
            from: "/root/installer/ss-local.service"@,
            to: "/etc/systemd/system/ss-local.service"@,
        },
        ActionV::CreateDirAll { path: "/etc/shadowsocks-libev"@ },
        ActionV::MoveFile {
            from: "/root/installer/ss-config.json"@,
            to: "/etc/shadowsocks-libev/config.json"@,
        },
        ActionV::SubstituteSecrets {
            path: "/etc/shadowsocks-libev/config.json"@,
            server: c.shadowsocks_server,
            password: c.shadowsocks_password,
        },
        ActionV::EnableService { service: "ss-local.service"@ },
    ]
}

pub open spec fn plan_gvfs_google() -> Seq<ActionV> {
    seq![ActionV::PacmanInstall { packages: seq!["gnome-keyring"@] }]
}

pub open spec fn plan_virt_manager() -> Seq<ActionV> {
    seq![
        ActionV::PacmanInstall { packages: seq!["dnsmasq"@, "ebtables"@, "qemu-headless"@] },
        ActionV::EnableService { service: "libvirtd.service"@ },
    ]
}

pub open spec fn plan_dhcpcd() -> Seq<ActionV> {
    seq![ActionV::EnableService { service: "dhcpcd.service"@ }]
}

pub open spec fn plan_gdm() -> Seq<ActionV> {
    seq![ActionV::EnableService { service: "gdm.service"@ }]
}

pub open spec fn plan_networkmanager() -> Seq<ActionV> {
    seq![ActionV::EnableService { service: "NetworkManager.service"@ }]
}

/// `s` when `present`, else nothing.
pub open spec fn plan_if(present: bool, s: Seq<ActionV>) -> Seq<ActionV> {
    if present {
        s
    } else {
        Seq::<ActionV>::empty()
    }
}

/// The full dispatch: for each of the nine known trigger packages, in
/// this fixed order, the package's routine when it is selected.  Package
/// names outside the known vocabulary contribute nothing.
pub open spec fn plan_for(c: ConfigV) -> Seq<ActionV> {
    plan_if(seq_contains_str(c.pacman_packages, "sudo"@), plan_sudo(c)) + plan_if(
        seq_contains_str(c.pacman_packages, "zsh"@),
        plan_zsh(c),
    ) + plan_if(seq_contains_str(c.pacman_packages, "code"@), plan_code(c)) + plan_if(
        seq_contains_str(c.pacman_packages, "shadowsocks-libev"@),
        plan_shadowsocks(c),
    ) + plan_if(seq_contains_str(c.pacman_packages, "gvfs-google"@), plan_gvfs_google())
        + plan_if(seq_contains_str(c.pacman_packages, "virt-manager"@), plan_virt_manager())
        + plan_if(seq_contains_str(c.pacman_packages, "dhcpcd"@), plan_dhcpcd()) + plan_if(
        seq_contains_str(c.pacman_packages, "gdm"@),
        plan_gdm(),
    ) + plan_if(seq_contains_str(c.pacman_packages, "networkmanager"@), plan_networkmanager())
}

/// The names of the services a plan enables, in plan order.
pub open spec fn enabled_services(plan: Seq<ActionV>) -> Seq<Seq<char>>
    decreases plan.len(),
{
    if plan.len() == 0 {
        Seq::<Seq<char>>::empty()
    } else {
        (match plan[0] {
            ActionV::EnableService { service } => seq![service],
            _ => Seq::<Seq<char>>::empty(),
        }) + enabled_services(plan.skip(1))
    }
}

pub proof fn lemma_enabled_services_add(a: Seq<ActionV>, b: Seq<ActionV>)
    ensures
        enabled_services(a + b) == enabled_services(a) + enabled_services(b),
    decreases a.len(),
{
    if a.len() == 0 {
        assert(a + b =~= b);
        assert(enabled_services(a) + enabled_services(b) =~= enabled_services(b));
    } else {
        assert((a + b)[0] == a[0]);
        assert((a + b).skip(1) =~= a.skip(1) + b);
        lemma_enabled_services_add(a.skip(1), b);
        let h = (match a[0] {
            ActionV::EnableService { service } => seq![service],
            _ => Seq::<Seq<char>>::empty(),
        });
        assert(h + (enabled_services(a.skip(1)) + enabled_services(b)) =~= (h + enabled_services(
            a.skip(1),
        )) + enabled_services(b));
    }
}

pub proof fn lemma_enabled_services_none(plan: Seq<ActionV>)
    requires
        forall|i: int| 0 <= i < plan.len() ==> !((#[trigger] plan[i]) is EnableService),
    ensures
        enabled_services(plan) == Seq::<Seq<char>>::empty(),
    decreases plan.len(),
{
    if plan.len() == 0 {
    } else {
        assert(forall|k: int| 0 <= k < plan.skip(1).len() ==> plan.skip(1)[k] == plan[k + 1]);
        lemma_enabled_services_none(plan.skip(1));
        assert(Seq::<Seq<char>>::empty() + Seq::<Seq<char>>::empty() =~= Seq::<
            Seq<char>,
        >::empty());
    }
}

pub proof fn lemma_enabled_services_single(s: Seq<char>)
    ensures
        enabled_services(seq![ActionV::EnableService { service: s }]) == seq![s],
{
    let p = seq![ActionV::EnableService { service: s }];
    assert(p.skip(1) =~= Seq::<ActionV>::empty());
    assert(seq![s] + enabled_services(p.skip(1)) =~= seq![s]);
}

/// No action of the editor routine enables a service.
proof fn lemma_code_no_enable(c: ConfigV)
    ensures
        forall|i: int|
            0 <= i < plan_code(c).len() ==> !((#[trigger] plan_code(c)[i]) is EnableService),
{
    let p = plan_code(c);
    assert forall|i: int| 0 <= i < p.len() implies !((#[trigger] p[i]) is EnableService) by {
        let fixed = code_fixed(c);
        let installs = install_actions(c.username, c.vscode_packages);
        if i < fixed.len() {
            assert(p[i] == fixed[i]);
        } else if i < fixed.len() + installs.len() {
            assert(p[i] == installs[i - fixed.len()]);
            assert(installs[i - fixed.len()] == install_ext_action(
                Some(c.username),
                c.vscode_packages[i - fixed.len()],
            ));
        } else {
            assert(p[i] == install_ext_action(None, "RobbOwen.synthwave-vscode"@));
        }
    }
}

/// Law: a configuration whose package selection contains none of the
/// nine known trigger packages plans nothing at all — no external
/// command, no filesystem write, a pure no-op.
pub proof fn lemma_no_trigger_no_action(c: ConfigV)
    requires
        !seq_contains_str(c.pacman_packages, "sudo"@),
        !seq_contains_str(c.pacman_packages, "zsh"@),
        !seq_contains_str(c.pacman_packages, "code"@),
        !seq_contains_str(c.pacman_packages, "shadowsocks-libev"@),
        !seq_contains_str(c.pacman_packages, "gvfs-google"@),
        !seq_contains_str(c.pacman_packages, "virt-manager"@),
        !seq_contains_str(c.pacman_packages, "dhcpcd"@),
        !seq_contains_str(c.pacman_packages, "gdm"@),
        !seq_contains_str(c.pacman_packages, "networkmanager"@),
    ensures
        plan_for(c) == Seq::<ActionV>::empty(),
{
    assert(plan_for(c) =~= Seq::<ActionV>::empty());
}

/// Law: a configuration selecting `dhcpcd`, `gdm` and `networkmanager`
/// — and neither of the two other triggers whose routines also enable a
/// service — plans exactly three service enablings, each with its fixed
/// unit name, in the declared dispatch order.
pub proof fn lemma_network_trio_enables_in_order(c: ConfigV)
    requires
        seq_contains_str(c.pacman_packages, "dhcpcd"@),
        seq_contains_str(c.pacman_packages, "gdm"@),
        seq_contains_str(c.pacman_packages, "networkmanager"@),
        !seq_contains_str(c.pacman_packages, "shadowsocks-libev"@),
        !seq_contains_str(c.pacman_packages, "virt-manager"@),
    ensures
        enabled_services(plan_for(c)) == seq![
            "dhcpcd.service"@,
            "gdm.service"@,
            "NetworkManager.service"@,
        ],
{
    let p1 = plan_if(seq_contains_str(c.pacman_packages, "sudo"@), plan_sudo(c));
    let p2 = plan_if(seq_contains_str(c.pacman_packages, "zsh"@), plan_zsh(c));
    let p3 = plan_if(seq_contains_str(c.pacman_packages, "code"@), plan_code(c));
    let p4 = plan_if(seq_contains_str(c.pacman_packages, "shadowsocks-libev"@), plan_shadowsocks(c));
    let p5 = plan_if(seq_contains_str(c.pacman_packages, "gvfs-google"@), plan_gvfs_google());
    let p6 = plan_if(seq_contains_str(c.pacman_packages, "virt-manager"@), plan_virt_manager());
    let p7 = plan_if(seq_contains_str(c.pacman_packages, "dhcpcd"@), plan_dhcpcd());
    let p8 = plan_if(seq_contains_str(c.pacman_packages, "gdm"@), plan_gdm());
    let p9 = plan_if(seq_contains_str(c.pacman_packages, "networkmanager"@), plan_networkmanager());
    lemma_enabled_services_add(p1 + p2 + p3 + p4 + p5 + p6 + p7 + p8, p9);
    lemma_enabled_services_add(p1 + p2 + p3 + p4 + p5 + p6 + p7, p8);
    lemma_enabled_services_add(p1 + p2 + p3 + p4 + p5 + p6, p7);
    lemma_enabled_services_add(p1 + p2 + p3 + p4 + p5, p6);
    lemma_enabled_services_add(p1 + p2 + p3 + p4, p5);
    lemma_enabled_services_add(p1 + p2 + p3, p4);
    lemma_enabled_services_add(p1 + p2, p3);
    lemma_enabled_services_add(p1, p2);
    if seq_contains_str(c.pacman_packages, "sudo"@) {
        lemma_enabled_services_none(plan_sudo(c));
    }
    if seq_contains_str(c.pacman_packages, "zsh"@) {
        lemma_enabled_services_none(plan_zsh(c));
    }
    if seq_contains_str(c.pacman_packages, "code"@) {
        lemma_code_no_enable(c);
        lemma_enabled_services_none(plan_code(c));
    }
    if seq_contains_str(c.pacman_packages, "gvfs-google"@) {
        lemma_enabled_services_none(plan_gvfs_google());
    }
    lemma_enabled_services_single("dhcpcd.service"@);
    lemma_enabled_services_single("gdm.service"@);
    lemma_enabled_services_single("NetworkManager.service"@);
    assert(enabled_services(p1) + enabled_services(p2) + enabled_services(p3) + enabled_services(p4)
        + enabled_services(p5) + enabled_services(p6) + enabled_services(p7) + enabled_services(p8)
        + enabled_services(p9) =~= seq![
        "dhcpcd.service"@,
        "gdm.service"@,
        "NetworkManager.service"@,
    ]);
}

fn push_action(plan: &mut Vec<Action>, a: Action)
    ensures
        final(plan).deep_view() == old(plan).deep_view().push(a@),
{
    let ghost pre = plan.deep_view();
    let ghost av = a@;
    plan.push(a);
    proof {
        assert(plan.deep_view() =~= pre.push(av));
    }
}

/// The action that enables a service in the init system.
pub fn enable_service(service: &str) -> (a: Action)
    ensures
        a@ == (ActionV::EnableService { service: service@ }),
{
    Action::EnableService { service: service.to_owned() }
}

/// Plans the configuration of every selected package against a
/// finalized, read-only [`Config`].
pub struct PackageConfigurator<'a> {
    pub config: &'a Config,
}

impl<'a> PackageConfigurator<'a> {
    pub fn new(config: &'a Config) -> (r: PackageConfigurator<'a>)
        ensures
            r.config == config,
    {
        PackageConfigurator { config }
    }

    /// A path inside the target user's home directory: `/home/<username>`,
    /// joined with `rel` when one is given.  Pure path construction, no
    /// filesystem access.
    pub fn home(&self, rel: Option<&str>) -> (r: String)
        ensures
            r@ == (match rel {
                Some(p) => home_in(self.config.username@, p@),
                None => home_base(self.config.username@),
            }),
    {
        let mut full = "/home/".to_owned();
        full.append(self.config.username.as_str());
        match rel {
            Some(p) => {
                full.append("/");
                full.append(p);
            },
            None => {},
        }
        full
    }

    /// The action that clones `repo` into `dir`.
    pub fn git_clone(&self, repo: &str, dir: String) -> (a: Action)
        ensures
            a@ == (ActionV::GitClone { url: repo@, dest: dir@ }),
    {
        Action::GitClone { url: repo.to_owned(), dest: dir }
    }

    /// The action that recursively hands `path` over to the configured
    /// user.
    pub fn chown_to_user(&self, path: String) -> (a: Action)
        ensures
            a@ == (ActionV::ChownRecursive { user: self.config.username@, path: path@ }),
    {
        Action::ChownRecursive { user: self.config.username.clone(), path }
    }

    pub fn configure_sudo(&self) -> (r: Vec<Action>)
        ensures
            r.deep_view() == plan_sudo(self.config@),
    {
        let data = self.config.username.clone().concat(" ALL=(ALL) ALL\n");
        let mut plan: Vec<Action> = Vec::new();
        push_action(&mut plan, Action::AppendFile { path: "/etc/sudoers".to_owned(), data });
        proof {
            assert(plan.deep_view() =~= plan_sudo(self.config@));
        }
        plan
    }

    pub fn configure_zsh(&self) -> (r: Vec<Action>)
        ensures
            r.deep_view() == plan_zsh(self.config@),
    {
        let mut plan: Vec<Action> = Vec::new();
        push_action(&mut plan, Action::ChangeShell { user: "root".to_owned() });
        push_action(&mut plan, Action::ChangeShell { user: self.config.username.clone() });
        push_action(
            &mut plan,
            Action::MoveFile {
                from: "/root/installer/zshrc".to_owned(),
                to: self.home(Some(".zshrc")),
            },
        );
        let a = self.chown_to_user(self.home(Some(".zshrc")));
        push_action(&mut plan, a);
        let a = self.git_clone(
            "https://github.com/ohmyzsh/ohmyzsh.git",
            self.home(Some(".oh-my-zsh")),
        );
        push_action(&mut plan, a);
        let a = self.git_clone(
            "https://github.com/zsh-users/zsh-syntax-highlighting.git",
            self.home(Some(".oh-my-zsh/custom/plugins/zsh-syntax-highlighting")),
        );
        push_action(&mut plan, a);
        let a = self.git_clone(
            "https://github.com/zsh-users/zsh-autosuggestions.git",
            self.home(Some(".oh-my-zsh/custom/plugins/zsh-autosuggestions")),
        );
        push_action(&mut plan, a);
        let a = self.git_clone(
            "https://github.com/bhilburn/powerlevel9k.git",
            self.home(Some(".oh-my-zsh/custom/themes/powerlevel9k")),
        );
        push_action(&mut plan, a);
        let a = self.chown_to_user(self.home(Some(".oh-my-zsh")));
        push_action(&mut plan, a);
        proof {
            assert(plan.deep_view() =~= plan_zsh(self.config@));
        }
        plan
    }

    pub fn configure_code(&self) -> (r: Vec<Action>)
        ensures
            r.deep_view() == plan_code(self.config@),
    {
        let ghost c = self.config@;
        let mut plan: Vec<Action> = Vec::new();
        let mut fonts: Vec<String> = Vec::new();
        fonts.push("ttf-droid".to_owned());
        fonts.push("ttf-ubuntu-font-family".to_owned());
        proof {
            assert(fonts.deep_view() =~= seq!["ttf-droid"@, "ttf-ubuntu-font-family"@]);
        }
        push_action(&mut plan, Action::PacmanInstall { packages: fonts });
        push_action(
            &mut plan,
            Action::CreateDirAll { path: "/root/.config/Code - OSS/User".to_owned() },
        );
        push_action(
            &mut plan,
            Action::MoveFile {
                from: "/root/installer/vscode_root.json".to_owned(),
                to: "/root/.config/Code - OSS/User/settings.json".to_owned(),
            },
        );
        push_action(
            &mut plan,
            Action::CreateDirAll { path: self.home(Some(".config/Code - OSS/User")) },
        );
        push_action(
            &mut plan,
            Action::MoveFile {
                from: "/root/installer/vscode.json".to_owned(),
                to: self.home(Some(".config/Code - OSS/User/settings.json")),
            },
        );
        let a = self.chown_to_user(self.home(Some(".config")));
        push_action(&mut plan, a);
        proof {
            assert(plan.deep_view() =~= code_fixed(c));
        }
        let ghost pkgs = c.vscode_packages;
        let mut k: usize = 0;
        while k < self.config.vscode_packages.len()
            invariant
                0 <= k <= self.config.vscode_packages@.len(),
                pkgs == self.config@.vscode_packages,
                c == self.config@,
                plan.deep_view() == code_fixed(c) + install_actions(c.username, pkgs.take(k as int)),
            decreases self.config.vscode_packages@.len() - k,
        {
            let pkg = self.config.vscode_packages[k].clone();
            proof {
                assert(pkg@ == pkgs[k as int]);
            }
            push_action(
                &mut plan,
                Action::InstallExtension {
                    as_user: Some(self.config.username.clone()),
                    extension: pkg,
                },
            );
            proof {
                assert(install_actions(c.username, pkgs.take(k + 1)) =~= install_actions(
                    c.username,
                    pkgs.take(k as int),
                ).push(install_ext_action(Some(c.username), pkgs[k as int])));
                assert(plan.deep_view() =~= code_fixed(c) + install_actions(
                    c.username,
                    pkgs.take(k + 1),
                ));
            }
            k = k + 1;
        }
        proof {
            assert(pkgs.take(pkgs.len() as int) =~= pkgs);
        }
        if crate::config::contains_key(&self.config.vscode_packages, "robbowen.synthwave-vscode") {
            push_action(
                &mut plan,
                Action::InstallExtension {
                    as_user: None,
                    extension: "RobbOwen.synthwave-vscode".to_owned(),
                },
            );
            proof {
                assert(plan.deep_view() =~= plan_code(c));
            }
        } else {
            proof {
                assert(plan.deep_view() =~= plan_code(c));
            }
        }
        plan
    }

    pub fn configure_shadowsocks_libev(&self) -> (r: Vec<Action>)
        ensures
            r.deep_view() == plan_shadowsocks(self.config@),
    {
        let mut plan: Vec<Action> = Vec::new();
        push_action(
            &mut plan,
            Action::MoveFile {
                from: "/root/installer/ss-local.service".to_owned(),
                to: "/etc/systemd/system/ss-local.service".to_owned(),
            },
        );
        push_action(&mut plan, Action::CreateDirAll { path: "/etc/shadowsocks-libev".to_owned() });
        push_action(
            &mut plan,
            Action::MoveFile {
                from: "/root/installer/ss-config.json".to_owned(),
                to: "/etc/shadowsocks-libev/config.json".to_owned(),
            },
        );
        push_action(
            &mut plan,
            Action::SubstituteSecrets {
                path: "/etc/shadowsocks-libev/config.json".to_owned(),
                server: self.config.shadowsocks_server.clone(),
                password: self.config.shadowsocks_password.clone(),
            },
        );
        push_action(&mut plan, enable_service("ss-local.service"));
        proof {
            assert(plan.deep_view() =~= plan_shadowsocks(self.config@));
        }
        plan
    }

    pub fn configure_gvfs_google(&self) -> (r: Vec<Action>)
        ensures
            r.deep_view() == plan_gvfs_google(),
    {
        let mut pkgs: Vec<String> = Vec::new();
        pkgs.push("gnome-keyring".to_owned());
        proof {
            assert(pkgs.deep_view() =~= seq!["gnome-keyring"@]);
        }
        let mut plan: Vec<Action> = Vec::new();
        push_action(&mut plan, Action::PacmanInstall { packages: pkgs });
        proof {
            assert(plan.deep_view() =~= plan_gvfs_google());
        }
        plan
    }

    pub fn configure_virt_manager(&self) -> (r: Vec<Action>)
        ensures
            r.deep_view() == plan_virt_manager(),
    {
        let mut pkgs: Vec<String> = Vec::new();
        pkgs.push("dnsmasq".to_owned());
        pkgs.push("ebtables".to_owned());
        pkgs.push("qemu-headless".to_owned());
        proof {
            assert(pkgs.deep_view() =~= seq!["dnsmasq"@, "ebtables"@, "qemu-headless"@]);
        }
        let mut plan: Vec<Action> = Vec::new();
        push_action(&mut plan, Action::PacmanInstall { packages: pkgs });
        push_action(&mut plan, enable_service("libvirtd.service"));
        proof {
            assert(plan.deep_view() =~= plan_virt_manager());
        }
        plan
    }

    pub fn configure_dhcpcd(&self) -> (r: Vec<Action>)
        ensures
            r.deep_view() == plan_dhcpcd(),
    {
        let mut plan: Vec<Action> = Vec::new();
        push_action(&mut plan, enable_service("dhcpcd.service"));
        proof {
            assert(plan.deep_view() =~= plan_dhcpcd());
        }
        plan
    }

    pub fn configure_gdm(&self) -> (r: Vec<Action>)
        ensures
            r.deep_view() == plan_gdm(),
    {
        let mut plan: Vec<Action> = Vec::new();
        push_action(&mut plan, enable_service("gdm.service"));
        proof {
            assert(plan.deep_view() =~= plan_gdm());
        }
        plan
    }

    pub fn configure_networkmanager(&self) -> (r: Vec<Action>)
        ensures
            r.deep_view() == plan_networkmanager(),
    {
        let mut plan: Vec<Action> = Vec::new();
        push_action(&mut plan, enable_service("NetworkManager.service"));
        proof {
            assert(plan.deep_view() =~= plan_networkmanager());
        }
        plan
    }

    /// The dispatcher: the routines of the selected trigger packages, in
    /// the fixed declared order, as one plan.  A configuration selecting
    /// none of the nine known triggers yields the empty plan: nothing is
    /// run and nothing is written.
    #[verifier::rlimit(100)]
    pub fn run(&self) -> (plan: Vec<Action>)
        ensures
            plan.deep_view() == plan_for(self.config@),
    {
        let ghost c = self.config@;
        let mut plan: Vec<Action> = Vec::new();
        let ghost p1 = plan_if(seq_contains_str(c.pacman_packages, "sudo"@), plan_sudo(c));
        let ghost p2 = plan_if(seq_contains_str(c.pacman_packages, "zsh"@), plan_zsh(c));
        let ghost p3 = plan_if(seq_contains_str(c.pacman_packages, "code"@), plan_code(c));
        let ghost p4 = plan_if(
            seq_contains_str(c.pacman_packages, "shadowsocks-libev"@),
            plan_shadowsocks(c),
        );
        let ghost p5 = plan_if(
            seq_contains_str(c.pacman_packages, "gvfs-google"@),
            plan_gvfs_google(),
        );
        let ghost p6 = plan_if(
            seq_contains_str(c.pacman_packages, "virt-manager"@),
            plan_virt_manager(),
        );
        let ghost p7 = plan_if(seq_contains_str(c.pacman_packages, "dhcpcd"@), plan_dhcpcd());
        let ghost p8 = plan_if(seq_contains_str(c.pacman_packages, "gdm"@), plan_gdm());
        let ghost p9 = plan_if(
            seq_contains_str(c.pacman_packages, "networkmanager"@),
            plan_networkmanager(),
        );
        if crate::config::contains_key(&self.config.pacman_packages, "sudo") {
            let mut sub = self.configure_sudo();
            let ghost pre = plan.deep_view();
            let ghost sv = sub.deep_view();
            plan.append(&mut sub);
            proof {
                assert(plan.deep_view() =~= pre + sv);
            }
        }
        proof {
            assert(plan.deep_view() =~= p1);
        }
        if crate::config::contains_key(&self.config.pacman_packages, "zsh") {
            let mut sub = self.configure_zsh();
            let ghost pre = plan.deep_view();
            let ghost sv = sub.deep_view();
            plan.append(&mut sub);
            proof {
                assert(plan.deep_view() =~= pre + sv);
            }
        }
        proof {
            assert(plan.deep_view() =~= p1 + p2);
        }
        if crate::config::contains_key(&self.config.pacman_packages, "code") {
            let mut sub = self.configure_code();
            let ghost pre = plan.deep_view();
            let ghost sv = sub.deep_view();
            plan.append(&mut sub);
            proof {
                assert(plan.deep_view() =~= pre + sv);
            }
        }
        proof {
            assert(plan.deep_view() =~= p1 + p2 + p3);
        }
        if crate::config::contains_key(&self.config.pacman_packages, "shadowsocks-libev") {
            let mut sub = self.configure_shadowsocks_libev();
            let ghost pre = plan.deep_view();
            let ghost sv = sub.deep_view();
            plan.append(&mut sub);
            proof {
                assert(plan.deep_view() =~= pre + sv);
            }
        }
        proof {
            assert(plan.deep_view() =~= p1 + p2 + p3 + p4);
        }
        if crate::config::contains_key(&self.config.pacman_packages, "gvfs-google") {
            let mut sub = self.configure_gvfs_google();
            let ghost pre = plan.deep_view();
            let ghost sv = sub.deep_view();
            plan.append(&mut sub);
            proof {
                assert(plan.deep_view() =~= pre + sv);
            }
        }
        proof {
            assert(plan.deep_view() =~= p1 + p2 + p3 + p4 + p5);
        }
        if crate::config::contains_key(&self.config.pacman_packages, "virt-manager") {
            let mut sub = self.configure_virt_manager();
            let ghost pre = plan.deep_view();
            let ghost sv = sub.deep_view();
            plan.append(&mut sub);
            proof {
                assert(plan.deep_view() =~= pre + sv);
            }
        }
        proof {
            assert(plan.deep_view() =~= p1 + p2 + p3 + p4 + p5 + p6);
        }
        if crate::config::contains_key(&self.config.pacman_packages, "dhcpcd") {
            let mut sub = self.configure_dhcpcd();
            let ghost pre = plan.deep_view();
            let ghost sv = sub.deep_view();
            plan.append(&mut sub);
            proof {
                assert(plan.deep_view() =~= pre + sv);
            }
        }
        proof {
            assert(plan.deep_view() =~= p1 + p2 + p3 + p4 + p5 + p6 + p7);
        }
        if crate::config::contains_key(&self.config.pacman_packages, "gdm") {
            let mut sub = self.configure_gdm();
            let ghost pre = plan.deep_view();
            let ghost sv = sub.deep_view();
            plan.append(&mut sub);
            proof {
                assert(plan.deep_view() =~= pre + sv);
            }
        }
        proof {
            assert(plan.deep_view() =~= p1 + p2 + p3 + p4 + p5 + p6 + p7 + p8);
        }
        if crate::config::contains_key(&self.config.pacman_packages, "networkmanager") {
            let mut sub = self.configure_networkmanager();
            let ghost pre = plan.deep_view();
            let ghost sv = sub.deep_view();
            plan.append(&mut sub);
            proof {
                assert(plan.deep_view() =~= pre + sv);
            }
        }
        proof {
            assert(plan.deep_view() =~= p1 + p2 + p3 + p4 + p5 + p6 + p7 + p8 + p9);
        }
        plan
    }
}

} // verus!
