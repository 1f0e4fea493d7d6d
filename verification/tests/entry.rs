//! The JSON boundary: decoding module and context documents, the
//! error-prefix channel, and the metadata documents.

use vib_plugins::boot_shell;
use vib_plugins::bootfs::{PluginFs, ScopeFiles};
use vib_plugins::info::plugin_info_json;
use vib_plugins::ostree_pkg;
use vib_plugins::recipe::{decode_recipe, PluginInfo, PluginType};
use vib_plugins::silverblue_package;

const RECIPE_JSON: &str = "{\"Name\":\"test\",\"Id\":\"r1\",\"IncludesPath\":\"/tmp/includes\",\"Stages\":[]}";

#[test]
fn entry_build_time_command_from_json() {
    let module_json = "{\"name\":\"test\",\"type\":\"ostree-pkg\",\"packages\":[\"package1\",\"package2\"],\"manager\":\"dnf\",\"action\":\"install\",\"on\":\"build\"}";
    let mut fs = PluginFs::empty();
    let result = ostree_pkg::build_module(module_json, RECIPE_JSON, &mut fs);
    assert_eq!(result, "dnf install -y  package1 package2");
    assert!(fs.system.script.is_none());
    assert!(fs.user.script.is_none());
}

#[test]
fn entry_boot_call_from_json() {
    let module_json = "{\"name\":\"test\",\"type\":\"ostree-pkg\",\"packages\":[\"package1\"],\"manager\":\"dnf\",\"action\":\"uninstall\",\"on\":\"boot\",\"as\":\"system\"}";
    let mut fs = PluginFs::empty();
    let result = ostree_pkg::build_module(module_json, RECIPE_JSON, &mut fs);
    assert_eq!(result, "systemctl enable --system ostree-pkg-system");
    assert_eq!(fs.system.script.clone().unwrap(), "dnf uninstall -y  package1\n");
    assert_eq!(fs.system.unit.clone().unwrap(), format!("{}\n", ostree_pkg::system_service()));
}

#[test]
fn entry_user_boot_activates_the_user_unit() {
    let module_json = "{\"name\":\"test\",\"type\":\"ostree-pkg\",\"packages\":[\"package1\"],\"manager\":\"dnf\",\"action\":\"install\",\"on\":\"boot\",\"as\":\"user\"}";
    let mut fs = PluginFs::empty();
    let result = ostree_pkg::build_module(module_json, RECIPE_JSON, &mut fs);
    // the user scope enables the unit this very call created
    assert_eq!(result, "systemctl enable --user ostree-pkg-user");
    assert_eq!(fs.user.script.clone().unwrap(), "dnf install -y  package1\n");
    assert!(fs.system.script.is_none());
}

#[test]
fn entry_defaults_fill_missing_fields() {
    // only the required fields: manager dnf, action install, on build, all
    // lists empty
    let module_json = "{\"name\":\"test\",\"type\":\"ostree-pkg\"}";
    let mut fs = PluginFs::empty();
    let result = ostree_pkg::build_module(module_json, RECIPE_JSON, &mut fs);
    assert_eq!(result, "dnf install -y  ");
}

#[test]
fn entry_truncated_module_json_is_error() {
    let module_json = "{\"name\":\"test\",\"type\":";
    let mut fs = PluginFs::empty();
    let result = ostree_pkg::build_module(module_json, RECIPE_JSON, &mut fs);
    assert!(result.starts_with("ERROR: "), "got: {result}");
    assert!(fs.system.script.is_none());
}

#[test]
fn entry_malformed_recipe_json_is_error() {
    let module_json = "{\"name\":\"test\",\"type\":\"ostree-pkg\",\"on\":\"boot\"}";
    let recipe_json = "not json at all";
    let mut fs = PluginFs::empty();
    let result = ostree_pkg::build_module(module_json, recipe_json, &mut fs);
    assert!(result.starts_with("ERROR: "), "got: {result}");
    // a failed call never reaches the filesystem
    assert!(fs.system.script.is_none());
    assert!(fs.system.unit.is_none());
}

#[test]
fn entry_missing_name_is_error() {
    let module_json = "{\"type\":\"ostree-pkg\"}";
    let mut fs = PluginFs::empty();
    let result = ostree_pkg::build_module(module_json, RECIPE_JSON, &mut fs);
    assert!(result.starts_with("ERROR: "), "got: {result}");
}

#[test]
fn entry_unknown_manager_is_error() {
    let module_json = "{\"name\":\"test\",\"type\":\"ostree-pkg\",\"manager\":\"apt\"}";
    let mut fs = PluginFs::empty();
    let result = ostree_pkg::build_module(module_json, RECIPE_JSON, &mut fs);
    assert!(result.starts_with("ERROR: "), "got: {result}");
}

#[test]
fn entry_non_array_packages_is_error() {
    let module_json = "{\"name\":\"test\",\"type\":\"ostree-pkg\",\"packages\":\"pkg\"}";
    let mut fs = PluginFs::empty();
    let result = ostree_pkg::build_module(module_json, RECIPE_JSON, &mut fs);
    assert!(result.starts_with("ERROR: "), "got: {result}");
}

#[test]
fn entry_non_string_package_element_is_error() {
    let module_json = "{\"name\":\"test\",\"type\":\"ostree-pkg\",\"packages\":[1,2]}";
    let mut fs = PluginFs::empty();
    let result = ostree_pkg::build_module(module_json, RECIPE_JSON, &mut fs);
    assert!(result.starts_with("ERROR: "), "got: {result}");
}

#[test]
fn entry_sentinel_passes_through_the_success_channel() {
    let module_json = "{\"name\":\"test\",\"type\":\"ostree-pkg\",\"remotes\":[\"myrepo\"],\"manager\":\"dnf\",\"action\":\"add_remote\"}";
    let mut fs = PluginFs::empty();
    let result = ostree_pkg::build_module(module_json, RECIPE_JSON, &mut fs);
    assert_eq!(result, "Error: add_remote is not supported on dnf");
    assert!(!result.starts_with("ERROR: "));
}

#[test]
fn recipe_decode_reads_paths() {
    let recipe = decode_recipe(RECIPE_JSON).unwrap();
    assert_eq!(recipe.name, "test");
    assert_eq!(recipe.id, "r1");
    assert_eq!(recipe.includes_path, "/tmp/includes");
    assert_eq!(recipe.path, "");
}

#[test]
fn recipe_decode_rejects_wrong_shapes() {
    assert!(decode_recipe("{\"IncludesPath\":7}").is_err());
    assert!(decode_recipe("{\"Stages\":\"oops\"}").is_err());
    assert!(decode_recipe("{\"Name\"").is_err());
}

#[test]
fn shell_entry_boot_call_from_json() {
    let module_json = "{\"name\":\"test-boot-shell\",\"type\":\"boot-shell\",\"as\":\"user\",\"commands\":[\"echo hi\"]}";
    let mut fs = PluginFs::empty();
    let result = boot_shell::build_module(module_json, RECIPE_JSON, &mut fs);
    assert_eq!(result, "systemctl enable --user boot-shell-user");
    let script = fs.user.script.clone().unwrap();
    assert!(script.contains("echo hi"));
    assert!(fs.system.script.is_none());
}

#[test]
fn shell_entry_malformed_module_is_error() {
    let mut fs = PluginFs::empty();
    let result = boot_shell::build_module("[1,", RECIPE_JSON, &mut fs);
    assert!(result.starts_with("ERROR: "), "got: {result}");
}

#[test]
fn silverblue_entry_build_and_boot() {
    let module_json = "{\"name\":\"test\",\"type\":\"silverblue-package\",\"packages\":[\"vim\"],\"manager\":\"dnf5\",\"action\":\"install\",\"on\":\"build\"}";
    let mut files = ScopeFiles { script: None, unit: None };
    let result = silverblue_package::build_module(module_json, RECIPE_JSON, &mut files);
    assert_eq!(result, "dnf5 install -y  vim");
    assert!(files.script.is_none());

    let boot_json = "{\"name\":\"test\",\"type\":\"silverblue-package\",\"packages\":[\"vim\"],\"manager\":\"dnf5\",\"action\":\"install\",\"on\":\"boot\"}";
    let result = silverblue_package::build_module(boot_json, RECIPE_JSON, &mut files);
    assert_eq!(result, "systemctl enable --system silverblue-packages-setup.service");
    assert_eq!(files.script.clone().unwrap(), "dnf5 install -y  vim\n");
    assert_eq!(files.unit.clone().unwrap(), format!("{}\n", silverblue_package::system_service()));
}

#[test]
fn silverblue_entry_malformed_module_is_error() {
    let mut files = ScopeFiles { script: None, unit: None };
    let result = silverblue_package::build_module("{", RECIPE_JSON, &mut files);
    assert!(result.starts_with("ERROR: "), "got: {result}");
    assert!(files.script.is_none());
}

fn assert_info_document(doc: &str, name: &str, type_code: &str, use_container_cmds: i64) {
    let v: serde_json::Value = serde_json::from_str(doc).unwrap();
    let obj = v.as_object().unwrap();
    assert_eq!(obj.len(), 3);
    assert_eq!(obj.get("Name").unwrap().as_str().unwrap(), name);
    assert_eq!(obj.get("Type").unwrap().as_str().unwrap(), type_code);
    assert_eq!(obj.get("Usecontainercmds").unwrap().as_i64().unwrap(), use_container_cmds);
}

#[test]
fn plugin_info_documents_parse_as_json() {
    assert_info_document(&ostree_pkg::plugin_info(), "ostree-pkg", "0", 0);
    assert_info_document(&boot_shell::plugin_info(), "boot-shell", "0", 0);
    assert_info_document(&silverblue_package::plugin_info(), "silverblue-package", "0", 0);
    assert_eq!(
        silverblue_package::plugin_info(),
        "{\"Name\":\"silverblue-package\",\"Type\":\"0\",\"Usecontainercmds\":0}"
    );
}

#[test]
fn plugin_info_encodes_the_whole_triple() {
    let info = PluginInfo {
        name: "finalizer".to_string(),
        kind: PluginType::FinalizePlugin,
        use_container_cmds: true,
    };
    assert_eq!(
        plugin_info_json(&info),
        "{\"Name\":\"finalizer\",\"Type\":\"1\",\"Usecontainercmds\":1}"
    );
}
