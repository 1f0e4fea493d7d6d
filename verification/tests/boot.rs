//! The boot-persistence protocol against the artifact model: creation,
//! accumulation, unit idempotence, and scope disjointness.

use vib_plugins::boot_shell;
use vib_plugins::bootfs::PluginFs;
use vib_plugins::ostree_pkg;
use vib_plugins::pkg::{Action, As, Manager, On};

fn shell_module(scope: As, commands: Vec<String>) -> boot_shell::PkgModule {
    boot_shell::PkgModule {
        name: "test-boot-shell".to_string(),
        module_type: "boot-shell".to_string(),
        packages: vec![],
        remotes: vec![],
        scope,
        commands,
    }
}

fn pkg_module(
    packages: Vec<String>,
    remotes: Vec<String>,
    manager: Manager,
    action: Action,
    scope: As,
) -> ostree_pkg::PkgModule {
    ostree_pkg::PkgModule {
        name: "test".to_string(),
        module_type: "ostree-pkg".to_string(),
        packages,
        remotes,
        manager,
        action,
        on: On::boot,
        scope,
        args: vec![],
    }
}

#[test]
fn test_build_system_module() {
    let mut fs = PluginFs::empty();
    let module = shell_module(As::system, vec!["echo 'Hello, system!'".to_string()]);

    let result = boot_shell::build(&module, &mut fs);
    assert_eq!(result, "systemctl enable --system boot-shell-system");

    assert_eq!(boot_shell::script_rel_path(As::system), "usr/bin/boot-shell-system");
    let script_content = fs.system.script.clone().unwrap();
    assert!(script_content.contains("echo 'Hello, system!'"));

    assert_eq!(boot_shell::unit_rel_path(As::system), "etc/systemd/system/boot-shell-system");
    let service_content = fs.system.unit.clone().unwrap();
    assert_eq!(service_content, format!("{}\n", boot_shell::system_service()));
}

#[test]
fn test_build_user_module() {
    let mut fs = PluginFs::empty();
    let module = shell_module(As::user, vec!["echo 'Hello, user!'".to_string()]);

    let result = boot_shell::build(&module, &mut fs);
    assert_eq!(result, "systemctl enable --user boot-shell-user");

    assert_eq!(boot_shell::script_rel_path(As::user), "usr/bin/boot-shell-user");
    let script_content = fs.user.script.clone().unwrap();
    assert!(script_content.contains("echo 'Hello, user!'"));

    assert_eq!(boot_shell::unit_rel_path(As::user), "etc/systemd/user/boot-shell-user");
    let service_content = fs.user.unit.clone().unwrap();
    assert_eq!(service_content, format!("{}\n", boot_shell::user_service()));
}

#[test]
fn test_existing_files() {
    let mut fs = PluginFs::empty();
    let module = shell_module(As::system, vec!["echo 'First command'".to_string()]);

    boot_shell::build(&module, &mut fs); // First build creates files

    let module2 = shell_module(As::system, vec!["echo 'Second command'".to_string()]);
    boot_shell::build(&module2, &mut fs); // Second build appends to existing files

    let script_content = fs.system.script.clone().unwrap();
    assert!(script_content.contains("echo 'First command'"));
    assert!(script_content.contains("echo 'Second command'")); // appended
    // call order is kept
    assert!(script_content.find("echo 'First command'") < script_content.find("echo 'Second command'"));

    let service_content = fs.system.unit.clone().unwrap();
    assert_eq!(service_content, format!("{}\n", boot_shell::system_service()));
}

#[test]
fn test_build_module_uninstall_dnf_boot_system() {
    let mut fs = PluginFs::empty();
    let module = pkg_module(
        vec!["package1".to_string()],
        vec![],
        Manager::dnf,
        Action::uninstall,
        As::system,
    );
    let result = ostree_pkg::build(&module, &mut fs);
    assert_eq!(result, "systemctl enable --system ostree-pkg-system");

    assert_eq!(ostree_pkg::script_rel_path(As::system), "usr/bin/ostree-pkg-system");
    let script_content = fs.system.script.clone().unwrap();
    assert_eq!(script_content, "dnf uninstall -y  package1\n");

    assert_eq!(ostree_pkg::unit_rel_path(As::system), "etc/systemd/system/ostree-pkg-system");
    let service_content = fs.system.unit.clone().unwrap();
    assert_eq!(service_content, format!("{}\n", ostree_pkg::system_service()));
}

#[test]
fn test_build_module_add_remote_dnf5_boot_user() {
    let mut fs = PluginFs::empty();
    let module = pkg_module(
        vec![],
        vec!["myrepo".to_string()],
        Manager::dnf5,
        Action::add_remote,
        As::user,
    );
    let result = ostree_pkg::build(&module, &mut fs);
    assert_eq!(result, "systemctl enable --user ostree-pkg-user");

    assert_eq!(ostree_pkg::script_rel_path(As::user), "usr/bin/ostree-pkg-user");
    let script_content = fs.user.script.clone().unwrap();
    assert_eq!(script_content, "dnf5 -y copr enable  myrepo\n");

    assert_eq!(ostree_pkg::unit_rel_path(As::user), "etc/systemd/user/ostree-pkg-user");
    let service_content = fs.user.unit.clone().unwrap();
    assert_eq!(service_content, format!("{}\n", ostree_pkg::user_service()));
}

#[test]
fn test_build_module_add_remote_flatpak_boot() {
    let mut fs = PluginFs::empty();
    let module = pkg_module(
        vec![],
        vec!["flathub".to_string()],
        Manager::flatpak,
        Action::add_remote,
        As::user,
    );
    let result = ostree_pkg::build(&module, &mut fs);
    assert_eq!(result, "systemctl enable --user ostree-pkg-user");

    let script_content = fs.user.script.clone().unwrap();
    assert_eq!(script_content, "flatpak remote-add --if-not-exists  flathub\n");

    let service_content = fs.user.unit.clone().unwrap();
    assert_eq!(service_content, format!("{}\n", ostree_pkg::user_service()));
}

#[test]
fn boot_unit_idempotent_and_activation_stable() {
    let mut fs = PluginFs::empty();
    let first = pkg_module(vec!["a".to_string()], vec![], Manager::dnf, Action::install, As::system);
    let r1 = ostree_pkg::build(&first, &mut fs);
    let unit_after_one = fs.system.unit.clone().unwrap();

    let second = pkg_module(vec!["b".to_string()], vec![], Manager::dnf5, Action::uninstall, As::system);
    let r2 = ostree_pkg::build(&second, &mut fs);
    let third = pkg_module(vec!["c".to_string()], vec![], Manager::flatpak, Action::install, As::system);
    let r3 = ostree_pkg::build(&third, &mut fs);

    // the unit file never changes after its first materialization
    assert_eq!(fs.system.unit.clone().unwrap(), unit_after_one);
    // the activation command is identical on every call
    assert_eq!(r1, "systemctl enable --system ostree-pkg-system");
    assert_eq!(r2, r1);
    assert_eq!(r3, r1);
}

#[test]
fn boot_script_holds_lines_in_call_order() {
    let mut fs = PluginFs::empty();
    let commands = ["dnf install -y  one", "dnf5 uninstall -y  two", "flatpak install --noninteractive  three"];
    let modules = [
        pkg_module(vec!["one".to_string()], vec![], Manager::dnf, Action::install, As::system),
        pkg_module(vec!["two".to_string()], vec![], Manager::dnf5, Action::uninstall, As::system),
        pkg_module(vec!["three".to_string()], vec![], Manager::flatpak, Action::install, As::system),
    ];
    for m in modules.iter() {
        ostree_pkg::build(m, &mut fs);
    }
    let expected = format!("{}\n{}\n{}\n", commands[0], commands[1], commands[2]);
    assert_eq!(fs.system.script.clone().unwrap(), expected);
}

#[test]
fn boot_scopes_do_not_interfere() {
    let mut fs = PluginFs::empty();
    let sys = pkg_module(vec!["s".to_string()], vec![], Manager::dnf, Action::install, As::system);
    let usr = pkg_module(vec!["u".to_string()], vec![], Manager::dnf, Action::install, As::user);

    ostree_pkg::build(&sys, &mut fs);
    let system_script = fs.system.script.clone();
    let system_unit = fs.system.unit.clone();

    ostree_pkg::build(&usr, &mut fs);
    // the user-scope call left the system scope exactly as it was
    assert_eq!(fs.system.script, system_script);
    assert_eq!(fs.system.unit, system_unit);
    // and filled only its own files
    assert_eq!(fs.user.script.clone().unwrap(), "dnf install -y  u\n");
    assert_eq!(fs.user.unit.clone().unwrap(), format!("{}\n", ostree_pkg::user_service()));

    // disjoint paths and disjoint templates
    assert_ne!(ostree_pkg::script_rel_path(As::system), ostree_pkg::script_rel_path(As::user));
    assert_ne!(ostree_pkg::unit_rel_path(As::system), ostree_pkg::unit_rel_path(As::user));
    assert_ne!(ostree_pkg::system_service(), ostree_pkg::user_service());
}

#[test]
fn boot_shell_block_has_header_and_all_commands() {
    let mut fs = PluginFs::empty();
    let module = shell_module(
        As::system,
        vec!["first".to_string(), "second".to_string()],
    );
    boot_shell::build(&module, &mut fs);
    let script = fs.system.script.clone().unwrap();
    let expected = "\n    \n    #!/bin/bash\n    -oeu pipefail\n\n    first\nsecond\n\n";
    assert_eq!(script, expected);
}
