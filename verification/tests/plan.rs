use package_configurator::action::Action;
use package_configurator::config::Config;
use package_configurator::configurator::PackageConfigurator;

fn cfg(pacman: &[&str], vscode: &[&str], username: &str) -> Config {
    Config {
        pacman_packages: pacman.iter().map(|s| s.to_string()).collect(),
        vscode_packages: vscode.iter().map(|s| s.to_string()).collect(),
        username: username.to_string(),
        shadowsocks_server: String::new(),
        shadowsocks_password: String::new(),
    }
}

#[test]
fn no_triggers_plans_nothing() {
    let config = cfg(&["vim", "htop", "firefox"], &[], "alice");
    let configurator = PackageConfigurator::new(&config);
    let plan = configurator.run();
    assert_eq!(plan.len(), 0);
}

#[test]
fn sudo_appends_exactly_one_line() {
    let config = cfg(&["sudo"], &[], "alice");
    let configurator = PackageConfigurator::new(&config);
    let plan = configurator.run();
    assert_eq!(plan.len(), 1);
    match &plan[0] {
        Action::AppendFile { path, data } => {
            assert_eq!(path, "/etc/sudoers");
            assert_eq!(data, "alice ALL=(ALL) ALL\n");
        }
        _ => panic!("expected an append to the policy file"),
    }
}

#[test]
fn network_trio_enables_in_declared_order() {
    let config = cfg(&["networkmanager", "gdm", "dhcpcd"], &[], "alice");
    let configurator = PackageConfigurator::new(&config);
    let plan = configurator.run();
    assert_eq!(plan.len(), 3);
    let mut services: Vec<String> = Vec::new();
    for a in &plan {
        match a {
            Action::EnableService { service } => services.push(service.clone()),
            _ => panic!("expected only service enablings"),
        }
    }
    assert_eq!(
        services,
        vec![
            "dhcpcd.service".to_string(),
            "gdm.service".to_string(),
            "NetworkManager.service".to_string(),
        ]
    );
}

#[test]
fn home_joins_username_and_relative_path() {
    let config = cfg(&[], &[], "alice");
    let configurator = PackageConfigurator::new(&config);
    assert_eq!(configurator.home(None), "/home/alice");
    assert_eq!(configurator.home(Some(".zshrc")), "/home/alice/.zshrc");
}

#[test]
fn zsh_plan_changes_shells_moves_rc_and_clones() {
    let config = cfg(&["zsh"], &[], "bob");
    let configurator = PackageConfigurator::new(&config);
    let plan = configurator.configure_zsh();
    assert_eq!(plan.len(), 9);
    match &plan[0] {
        Action::ChangeShell { user } => assert_eq!(user, "root"),
        _ => panic!("expected the root shell change first"),
    }
    match &plan[1] {
        Action::ChangeShell { user } => assert_eq!(user, "bob"),
        _ => panic!("expected the user shell change second"),
    }
    match &plan[2] {
        Action::MoveFile { from, to } => {
            assert_eq!(from, "/root/installer/zshrc");
            assert_eq!(to, "/home/bob/.zshrc");
        }
        _ => panic!("expected the rc file move"),
    }
    match &plan[4] {
        Action::GitClone { url, dest } => {
            assert_eq!(url, "https://github.com/ohmyzsh/ohmyzsh.git");
            assert_eq!(dest, "/home/bob/.oh-my-zsh");
        }
        _ => panic!("expected the framework clone"),
    }
    match &plan[8] {
        Action::ChownRecursive { user, path } => {
            assert_eq!(user, "bob");
            assert_eq!(path, "/home/bob/.oh-my-zsh");
        }
        _ => panic!("expected the final ownership handover"),
    }
}

#[test]
fn code_plan_installs_every_extension_as_user() {
    let config = cfg(&["code"], &["ms-python.python", "rust-lang.rust-analyzer"], "carol");
    let configurator = PackageConfigurator::new(&config);
    let plan = configurator.configure_code();
    assert_eq!(plan.len(), 8);
    match &plan[0] {
        Action::PacmanInstall { packages } => {
            assert_eq!(
                packages,
                &vec!["ttf-droid".to_string(), "ttf-ubuntu-font-family".to_string()]
            );
        }
        _ => panic!("expected the font installs first"),
    }
    match &plan[6] {
        Action::InstallExtension { as_user, extension } => {
            assert_eq!(as_user.as_deref(), Some("carol"));
            assert_eq!(extension, "ms-python.python");
        }
        _ => panic!("expected the first extension install"),
    }
    match &plan[7] {
        Action::InstallExtension { as_user, extension } => {
            assert_eq!(as_user.as_deref(), Some("carol"));
            assert_eq!(extension, "rust-lang.rust-analyzer");
        }
        _ => panic!("expected the second extension install"),
    }
}

#[test]
fn code_plan_repeats_one_extension_as_root() {
    let config = cfg(&["code"], &["robbowen.synthwave-vscode"], "carol");
    let configurator = PackageConfigurator::new(&config);
    let plan = configurator.configure_code();
    assert_eq!(plan.len(), 8);
    match &plan[6] {
        Action::InstallExtension { as_user, extension } => {
            assert_eq!(as_user.as_deref(), Some("carol"));
            assert_eq!(extension, "robbowen.synthwave-vscode");
        }
        _ => panic!("expected the per-user install"),
    }
    match &plan[7] {
        Action::InstallExtension { as_user, extension } => {
            assert!(as_user.is_none());
            assert_eq!(extension, "RobbOwen.synthwave-vscode");
        }
        _ => panic!("expected the duplicated root install"),
    }
}

#[test]
fn shadowsocks_plan_moves_patches_and_enables() {
    let mut config = cfg(&["shadowsocks-libev"], &[], "alice");
    config.shadowsocks_server = "1.2.3.4".to_string();
    config.shadowsocks_password = "secret".to_string();
    let configurator = PackageConfigurator::new(&config);
    let plan = configurator.run();
    assert_eq!(plan.len(), 5);
    match &plan[0] {
        Action::MoveFile { from, to } => {
            assert_eq!(from, "/root/installer/ss-local.service");
            assert_eq!(to, "/etc/systemd/system/ss-local.service");
        }
        _ => panic!("expected the unit file move"),
    }
    match &plan[1] {
        Action::CreateDirAll { path } => assert_eq!(path, "/etc/shadowsocks-libev"),
        _ => panic!("expected the config directory creation"),
    }
    match &plan[3] {
        Action::SubstituteSecrets { path, server, password } => {
            assert_eq!(path, "/etc/shadowsocks-libev/config.json");
            assert_eq!(server, "1.2.3.4");
            assert_eq!(password, "secret");
        }
        _ => panic!("expected the credential substitution"),
    }
    match &plan[4] {
        Action::EnableService { service } => assert_eq!(service, "ss-local.service"),
        _ => panic!("expected the service enabling"),
    }
}

#[test]
fn virt_manager_plan_installs_and_enables() {
    let config = cfg(&["virt-manager"], &[], "alice");
    let configurator = PackageConfigurator::new(&config);
    let plan = configurator.configure_virt_manager();
    assert_eq!(plan.len(), 2);
    match &plan[0] {
        Action::PacmanInstall { packages } => {
            assert_eq!(
                packages,
                &vec![
                    "dnsmasq".to_string(),
                    "ebtables".to_string(),
                    "qemu-headless".to_string(),
                ]
            );
        }
        _ => panic!("expected the package installs"),
    }
    match &plan[1] {
        Action::EnableService { service } => assert_eq!(service, "libvirtd.service"),
        _ => panic!("expected the daemon enabling"),
    }
}

#[test]
fn gvfs_google_plan_installs_keyring() {
    let config = cfg(&["gvfs-google"], &[], "alice");
    let configurator = PackageConfigurator::new(&config);
    let plan = configurator.configure_gvfs_google();
    assert_eq!(plan.len(), 1);
    match &plan[0] {
        Action::PacmanInstall { packages } => {
            assert_eq!(packages, &vec!["gnome-keyring".to_string()]);
        }
        _ => panic!("expected the keyring install"),
    }
}

#[test]
fn dispatch_keeps_declared_order_across_routines() {
    let config = cfg(&["gdm", "sudo"], &[], "alice");
    let configurator = PackageConfigurator::new(&config);
    let plan = configurator.run();
    assert_eq!(plan.len(), 2);
    assert!(matches!(&plan[0], Action::AppendFile { .. }));
    assert!(matches!(&plan[1], Action::EnableService { .. }));
}

#[test]
fn unknown_packages_are_silently_ignored() {
    let config = cfg(&["dhcpcd", "not-a-known-package"], &[], "alice");
    let configurator = PackageConfigurator::new(&config);
    let plan = configurator.run();
    assert_eq!(plan.len(), 1);
    assert!(matches!(&plan[0], Action::EnableService { .. }));
}
