use package_configurator::action::{command_for, Action};
use package_configurator::config::Config;
use package_configurator::configurator::PackageConfigurator;
use package_configurator::executor::{Executor, Step};
use package_configurator::model::FsModel;
use package_configurator::text::{replace_all, substitute_secrets};

fn proxy_cfg(server: &str, password: &str) -> Config {
    Config {
        pacman_packages: vec!["shadowsocks-libev".to_string()],
        vscode_packages: Vec::new(),
        username: "alice".to_string(),
        shadowsocks_server: server.to_string(),
        shadowsocks_password: password.to_string(),
    }
}

#[test]
fn substitute_fills_server_and_password() {
    let template = "{\n    \"server\": \"\",\n    \"server_port\": 8388,\n    \"password\": \"\",\n    \"method\": \"chacha20-ietf-poly1305\"\n}\n";
    let expected = "{\n    \"server\": \"1.2.3.4\",\n    \"server_port\": 8388,\n    \"password\": \"secret\",\n    \"method\": \"chacha20-ietf-poly1305\"\n}\n";
    let result = substitute_secrets(template, "1.2.3.4", "secret");
    assert_eq!(result, expected);
}

#[test]
fn substitute_without_placeholders_leaves_template_alone() {
    let template = "{ \"server\": \"9.9.9.9\" }";
    let result = substitute_secrets(template, "1.2.3.4", "secret");
    assert_eq!(result, template);
}

#[test]
fn replace_all_replaces_every_occurrence() {
    assert_eq!(replace_all("one, one, one", "one", "two"), "two, two, two");
}

#[test]
fn replace_all_without_occurrence_returns_text_unchanged() {
    assert_eq!(replace_all("plain text", "missing", "x"), "plain text");
}

#[test]
fn replace_all_does_not_rescan_what_it_inserted() {
    assert_eq!(replace_all("abab", "ab", "xaby"), "xabyxaby");
    assert_eq!(replace_all("aaaa", "aa", "a"), "aa");
}

#[test]
fn replace_all_handles_empty_text() {
    assert_eq!(replace_all("", "pat", "repl"), "");
}

#[test]
fn command_for_renders_fixed_tools() {
    let enable = Action::EnableService { service: "gdm.service".to_string() };
    let c = command_for(&enable).expect("service enabling runs the service manager");
    assert_eq!(c.program, "systemctl");
    assert_eq!(c.args, vec!["enable".to_string(), "gdm.service".to_string()]);

    let shell = Action::ChangeShell { user: "alice".to_string() };
    let c = command_for(&shell).expect("shell changes run the shell changer");
    assert_eq!(c.program, "chsh");
    assert_eq!(c.args, vec!["--shell=/bin/zsh".to_string(), "alice".to_string()]);

    let clone = Action::GitClone {
        url: "https://github.com/ohmyzsh/ohmyzsh.git".to_string(),
        dest: "/home/alice/.oh-my-zsh".to_string(),
    };
    let c = command_for(&clone).expect("clones run the version-control client");
    assert_eq!(c.program, "git");
    assert_eq!(
        c.args,
        vec![
            "clone".to_string(),
            "https://github.com/ohmyzsh/ohmyzsh.git".to_string(),
            "/home/alice/.oh-my-zsh".to_string(),
        ]
    );

    let chown = Action::ChownRecursive {
        user: "alice".to_string(),
        path: "/home/alice/.config".to_string(),
    };
    let c = command_for(&chown).expect("ownership changes run the owner changer");
    assert_eq!(c.program, "chown");
    assert_eq!(
        c.args,
        vec!["-R".to_string(), "alice:".to_string(), "/home/alice/.config".to_string()]
    );

    let append = Action::AppendFile { path: "/etc/sudoers".to_string(), data: "x".to_string() };
    assert!(command_for(&append).is_none());
}

#[test]
fn executor_walks_plan_in_order() {
    let config = proxy_cfg("1.2.3.4", "secret");
    let configurator = PackageConfigurator::new(&config);
    let plan = configurator.run();
    let n = plan.len();
    let mut executor = Executor::new(plan);
    for i in 0..n {
        assert_eq!(executor.next_step(true), Step::Perform(i));
    }
    assert_eq!(executor.next_step(true), Step::Done);
}

#[test]
fn executor_aborts_after_failure_and_stays_aborted() {
    let config = proxy_cfg("1.2.3.4", "secret");
    let configurator = PackageConfigurator::new(&config);
    let plan = configurator.run();
    assert!(plan.len() >= 2);
    let mut executor = Executor::new(plan);
    assert_eq!(executor.next_step(true), Step::Perform(0));
    // The first action failed: everything after it is cut off.
    assert_eq!(executor.next_step(false), Step::Fatal);
    // Whatever is reported later, the pass stays aborted.
    assert_eq!(executor.next_step(true), Step::Fatal);
    assert_eq!(executor.next_step(true), Step::Fatal);
}

#[test]
fn zsh_rerun_fails_on_existing_clone_destination() {
    let config = Config {
        pacman_packages: vec!["zsh".to_string()],
        vscode_packages: Vec::new(),
        username: "alice".to_string(),
        shadowsocks_server: String::new(),
        shadowsocks_password: String::new(),
    };
    let configurator = PackageConfigurator::new(&config);
    let plan = configurator.configure_zsh();

    let mut fs = FsModel::new();
    fs.stage("/root/installer/zshrc");
    // The first pass goes through cleanly.
    assert_eq!(fs.apply_all(&plan), None);
    assert!(fs.path_exists("/home/alice/.oh-my-zsh"));

    // Re-stage the rc file and run the same routine again: the clone
    // destinations already exist, so the first clone attempt fails.
    // Running the routine twice is not idempotent, by design.
    fs.stage("/root/installer/zshrc");
    let second = fs.apply_all(&plan);
    assert_eq!(second, Some(4));
    match &plan[4] {
        Action::GitClone { dest, .. } => assert_eq!(dest, "/home/alice/.oh-my-zsh"),
        _ => panic!("expected the failure at the framework clone"),
    }
}

#[test]
fn move_consumes_its_source() {
    let mut fs = FsModel::new();
    fs.stage("/root/installer/zshrc");
    let mv = Action::MoveFile {
        from: "/root/installer/zshrc".to_string(),
        to: "/home/alice/.zshrc".to_string(),
    };
    assert!(fs.apply(&mv));
    assert!(!fs.path_exists("/root/installer/zshrc"));
    assert!(fs.path_exists("/home/alice/.zshrc"));
    // The source is gone: moving it again fails.
    assert!(!fs.apply(&mv));
}

#[test]
fn append_requires_an_existing_file() {
    let mut fs = FsModel::new();
    let append = Action::AppendFile {
        path: "/etc/sudoers".to_string(),
        data: "alice ALL=(ALL) ALL\n".to_string(),
    };
    assert!(!fs.apply(&append));
    fs.stage("/etc/sudoers");
    assert!(fs.apply(&append));
}
