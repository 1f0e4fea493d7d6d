//! Build-time command synthesis: the manager-action table, the exact
//! spacing, and the unsupported-pair sentinels.

use vib_plugins::bootfs::PluginFs;
use vib_plugins::ostree_pkg::{build, PkgModule};
use vib_plugins::pkg::{Action, As, Manager, On};

fn module(
    packages: Vec<String>,
    remotes: Vec<String>,
    manager: Manager,
    action: Action,
    on: On,
    args: Vec<String>,
) -> PkgModule {
    PkgModule {
        name: "test".to_string(),
        module_type: "ostree-pkg".to_string(),
        packages,
        remotes,
        manager,
        action,
        on,
        scope: As::system,
        args,
    }
}

#[test]
fn test_build_module_install_dnf_build() {
    let module = module(
        vec!["package1".to_string(), "package2".to_string()],
        vec![],
        Manager::dnf,
        Action::install,
        On::build,
        vec![],
    );
    let mut fs = PluginFs::empty();
    let result = build(&module, &mut fs);
    assert_eq!(result, "dnf install -y  package1 package2");
}

#[test]
fn test_build_module_install_flatpak_build_with_args() {
    let module = module(
        vec!["app1".to_string()],
        vec![],
        Manager::flatpak,
        Action::install,
        On::build,
        vec!["--user".to_string()],
    );
    let mut fs = PluginFs::empty();
    let result = build(&module, &mut fs);
    assert_eq!(result, "flatpak install --noninteractive --user app1");
}

#[test]
fn test_build_module_dnf_add_remote_error() {
    let module = module(
        vec![],
        vec!["myrepo".to_string()],
        Manager::dnf,
        Action::add_remote,
        On::build,
        vec![],
    );
    let mut fs = PluginFs::empty();
    let result = build(&module, &mut fs);
    assert_eq!(result, "Error: add_remote is not supported on dnf");
}

#[test]
fn test_build_module_empty_packages_remotes() {
    let module = module(vec![], vec![], Manager::dnf, Action::install, On::build, vec![]);
    let mut fs = PluginFs::empty();
    let result = build(&module, &mut fs);
    assert_eq!(result, "dnf install -y  "); // Two spaces at the end are intentional
}

#[test]
fn synthesis_dnf_remove_remote_sentinel() {
    let module = module(
        vec!["ignored".to_string()],
        vec!["ignored-too".to_string()],
        Manager::dnf,
        Action::remove_remote,
        On::build,
        vec!["--flag".to_string()],
    );
    let mut fs = PluginFs::empty();
    let result = build(&module, &mut fs);
    assert_eq!(result, "Error: remove_remote is not supported on dnf");
}

#[test]
fn synthesis_dnf5_copr_remotes() {
    let module = module(
        vec!["not-used".to_string()],
        vec!["repo1".to_string(), "repo2".to_string()],
        Manager::dnf5,
        Action::add_remote,
        On::build,
        vec![],
    );
    let mut fs = PluginFs::empty();
    let result = build(&module, &mut fs);
    // remote actions consume the remote list, never the packages
    assert_eq!(result, "dnf5 -y copr enable  repo1 repo2");
}

#[test]
fn synthesis_flatpak_remote_delete() {
    let module = module(
        vec![],
        vec!["flathub".to_string()],
        Manager::flatpak,
        Action::remove_remote,
        On::build,
        vec![],
    );
    let mut fs = PluginFs::empty();
    let result = build(&module, &mut fs);
    assert_eq!(result, "flatpak remote-delete  flathub");
}

#[test]
fn synthesis_build_time_leaves_fs_alone() {
    let module = module(
        vec!["pkg".to_string()],
        vec![],
        Manager::dnf5,
        Action::uninstall,
        On::build,
        vec![],
    );
    let mut fs = PluginFs::empty();
    let result = build(&module, &mut fs);
    assert_eq!(result, "dnf5 uninstall -y  pkg");
    assert!(fs.system.script.is_none());
    assert!(fs.system.unit.is_none());
    assert!(fs.user.script.is_none());
    assert!(fs.user.unit.is_none());
}
