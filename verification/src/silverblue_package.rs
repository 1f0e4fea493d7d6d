//! The silverblue package plugin: the same manager-action table as the
//! package plugin, but with a single system scope. A build-time module
//! returns its command directly; a deferred module runs the
//! boot-persistence protocol on the plugin's one script and one unit.

use vstd::prelude::*;
use crate::bootfs::{apply_boot, boot_step, boot_steps, concat_all, script_text,
    lemma_script_accumulates, lemma_unit_idempotent, ScopeFiles, ScopeFilesV};
use crate::info::{info_text, plugin_info_json};
use crate::json::{error_reply, json_ok, json_has_field, json_str_field, opt_seq, str_list_field_wf,
    str_list_field_of, check_json, required_string_field, string_list_field};
use crate::pkg::{Manager, Action, On, command_text, unsupported, unsupported_text,
    synthesize_command, manager_field_wf, manager_field_of, action_field_wf, action_field_of,
    on_field_wf, on_field_of, read_manager_field, read_action_field, read_on_field};
use crate::recipe::{PluginInfo, PluginType, decode_recipe, recipe_wf};
use crate::strings::starts_with;

verus! {

/// One declared use of this plugin inside a recipe.
pub struct PkgModule {
    pub name: String,
    pub module_type: String,
    pub packages: Vec<String>,
    pub remotes: Vec<String>,
    pub manager: Manager,
    pub action: Action,
    pub on: On,
    pub args: Vec<String>,
}

/// The mathematical shadow of a module declaration.
pub ghost struct PkgModuleV {
    pub name: Seq<char>,
    pub module_type: Seq<char>,
    pub packages: Seq<Seq<char>>,
    pub remotes: Seq<Seq<char>>,
    pub manager: Manager,
    pub action: Action,
    pub on: On,
    pub args: Seq<Seq<char>>,
}

impl View for PkgModule {
    type V = PkgModuleV;

    open spec fn view(&self) -> PkgModuleV {
        PkgModuleV {
            name: self.name@,
            module_type: self.module_type@,
            packages: self.packages.deep_view(),
            remotes: self.remotes.deep_view(),
            manager: self.manager,
            action: self.action,
            on: self.on,
            args: self.args.deep_view(),
        }
    }
}

/// The plugin's service unit template.
pub open spec fn system_service_text() -> Seq<char> {
    "
[Unit]
Description=Install Packages after boot
Wants=network-online.target
After=network-online.target

[Service]
Type=oneshot
ExecStart=/etc/silverblue-pakages
Restart=on-failure
RestartSec=30

[Install]
WantedBy=default.target"@
}

/// The plugin's service unit template. The spelling of its ExecStart line
/// is a preserved compatibility quirk.
pub fn system_service() -> (r: &'static str)
    ensures
        r@ == system_service_text(),
{
    "
[Unit]
Description=Install Packages after boot
Wants=network-online.target
After=network-online.target

[Service]
Type=oneshot
ExecStart=/etc/silverblue-pakages
Restart=on-failure
RestartSec=30

[Install]
WantedBy=default.target"
}

/// Where the boot script lives, relative to the recipe's includes
/// directory. The spelling, and the placement beside — not inside — the
/// `etc` directory, are preserved compatibility quirks.
pub fn script_rel_path() -> (r: &'static str)
    ensures
        r@ == "includes.container/siverblue-packages"@,
{
    "includes.container/siverblue-packages"
}

/// Where the service unit lives, relative to the recipe's includes
/// directory, which roots every persisted boot artifact.
pub fn unit_rel_path() -> (r: &'static str)
    ensures
        r@ == "includes.container/etc/systemd/silverblue-packages-setup.service"@,
{
    "includes.container/etc/systemd/silverblue-packages-setup.service"
}

/// The activation command returned by every successful deferred call.
pub open spec fn activation_text() -> Seq<char> {
    "systemctl enable --system silverblue-packages-setup.service"@
}

/// The activation command returned by every successful deferred call.
pub fn activation_command() -> (r: &'static str)
    ensures
        r@ == activation_text(),
{
    "systemctl enable --system silverblue-packages-setup.service"
}

/// The package command a module synthesizes.
pub open spec fn command_of(m: PkgModuleV) -> Seq<char> {
    command_text(m.manager, m.action, m.packages, m.remotes, m.args)
}

/// The one line a deferred call appends to the boot script.
pub open spec fn boot_line(m: PkgModuleV) -> Seq<char> {
    command_of(m) + "\n"@
}

/// The content a freshly created unit file receives.
pub open spec fn unit_content_text() -> Seq<char> {
    system_service_text() + "\n"@
}

/// The files after one call: unchanged for build-time or unsupported
/// modules, one boot step otherwise.
pub open spec fn build_fs_spec(m: PkgModuleV, files: ScopeFilesV) -> ScopeFilesV {
    if unsupported(m.manager, m.action) || m.on is build {
        files
    } else {
        boot_step(files, boot_line(m), unit_content_text())
    }
}

/// The string one call returns: the fixed sentinel on an unsupported
/// pair, the package command at build time, the activation command for a
/// deferred call. It depends on the declaration alone.
pub open spec fn build_out_spec(m: PkgModuleV) -> Seq<char> {
    if unsupported(m.manager, m.action) {
        unsupported_text(m.action)
    } else if m.on is build {
        command_of(m)
    } else {
        activation_text()
    }
}

/// One call of the plugin on one module declaration, against the model of
/// its two boot artifacts.
pub fn build(module: &PkgModule, files: &mut ScopeFiles) -> (r: String)
    ensures
        r@ == build_out_spec(module@),
        final(files)@ == build_fs_spec(module@, old(files)@),
{
    let cmd = synthesize_command(
        module.manager,
        module.action,
        &module.packages,
        &module.remotes,
        &module.args,
    );
    let is_unsupported = match (module.manager, module.action) {
        (Manager::dnf, Action::add_remote) => true,
        (Manager::dnf, Action::remove_remote) => true,
        _ => false,
    };
    if is_unsupported {
        return cmd;
    }
    match module.on {
        On::build => cmd,
        On::boot => {
            let mut line = cmd;
            line.append("\n");
            let mut unit = String::from_str(system_service());
            unit.append("\n");
            apply_boot(files, line.as_str(), unit.as_str());
            String::from_str(activation_command())
        },
    }
}

/// A well-formed module document: well-formed JSON whose `name` and
/// `type` are strings, whose lists, where present, are arrays of strings,
/// and whose enum fields, where present, name a variant.
pub open spec fn module_wf(s: Seq<char>) -> bool {
    &&& json_has_field(s, "name"@) && json_str_field(s, "name"@) is Some
    &&& json_has_field(s, "type"@) && json_str_field(s, "type"@) is Some
    &&& str_list_field_wf(s, "packages"@)
    &&& str_list_field_wf(s, "remotes"@)
    &&& str_list_field_wf(s, "args"@)
    &&& manager_field_wf(s)
    &&& action_field_wf(s)
    &&& on_field_wf(s)
}

/// The module declaration a well-formed document describes: lists default
/// to empty, enums to their first-listed variant.
pub open spec fn module_of(s: Seq<char>) -> PkgModuleV {
    PkgModuleV {
        name: opt_seq(json_str_field(s, "name"@)),
        module_type: opt_seq(json_str_field(s, "type"@)),
        packages: str_list_field_of(s, "packages"@),
        remotes: str_list_field_of(s, "remotes"@),
        manager: manager_field_of(s),
        action: action_field_of(s),
        on: on_field_of(s),
        args: str_list_field_of(s, "args"@),
    }
}

/// Reads one module declaration out of its JSON document: accepted
/// exactly when the document is well-formed for this schema, and then
/// decoded to exactly the declaration it describes.
pub fn decode_module(s: &str) -> (r: Result<PkgModule, String>)
    ensures
        r is Ok <==> json_ok(s@) && module_wf(s@),
        r matches Ok(m) ==> m@ == module_of(s@),
{
    match check_json(s) {
        Ok(_) => {},
        Err(e) => {
            return Err(e);
        },
    }
    let name = match required_string_field(s, "name") {
        Ok(x) => x,
        Err(e) => {
            return Err(e);
        },
    };
    let module_type = match required_string_field(s, "type") {
        Ok(x) => x,
        Err(e) => {
            return Err(e);
        },
    };
    let packages = match string_list_field(s, "packages") {
        Ok(x) => x,
        Err(e) => {
            return Err(e);
        },
    };
    let remotes = match string_list_field(s, "remotes") {
        Ok(x) => x,
        Err(e) => {
            return Err(e);
        },
    };
    let args = match string_list_field(s, "args") {
        Ok(x) => x,
        Err(e) => {
            return Err(e);
        },
    };
    let manager = match read_manager_field(s) {
        Ok(m) => m,
        Err(e) => {
            return Err(e);
        },
    };
    let action = match read_action_field(s) {
        Ok(a) => a,
        Err(e) => {
            return Err(e);
        },
    };
    let on = match read_on_field(s) {
        Ok(o) => o,
        Err(e) => {
            return Err(e);
        },
    };
    Ok(PkgModule { name, module_type, packages, remotes, manager, action, on, args })
}

/// No reply of a successful call begins with the failure prefix.
pub proof fn lemma_output_not_error_prefixed(m: PkgModuleV)
    ensures
        !starts_with(build_out_spec(m), "ERROR: "@),
{
    reveal_strlit("ERROR: ");
    let p = "ERROR: "@;
    let s = build_out_spec(m);
    if unsupported(m.manager, m.action) {
        reveal_strlit("Error: add_remote is not supported on dnf");
        reveal_strlit("Error: remove_remote is not supported on dnf");
        if starts_with(s, p) {
            assert(s.subrange(0, 7)[1] == s[1]);
            assert(false);
        }
    } else if m.on is build {
        reveal_strlit("dnf");
        reveal_strlit("dnf5");
        reveal_strlit("flatpak");
        if starts_with(s, p) {
            assert(s.subrange(0, 7)[0] == s[0]);
            assert(s[0] == crate::pkg::manager_text(m.manager)[0]);
            assert(false);
        }
    } else {
        reveal_strlit("systemctl enable --system silverblue-packages-setup.service");
        if starts_with(s, p) {
            assert(s.subrange(0, 7)[0] == s[0]);
            assert(false);
        }
    }
}

/// The plugin's build entry: decodes the module and context documents,
/// then runs the call. The reply carries the failure prefix exactly when
/// one of the documents is rejected, and then the files are left
/// untouched; otherwise the reply and the new files are exactly the
/// outcome of one call on the declaration the module document describes.
pub fn build_module(module_json: &str, recipe_json: &str, files: &mut ScopeFiles) -> (r: String)
    ensures
        starts_with(r@, "ERROR: "@) <==> !(json_ok(module_json@) && module_wf(module_json@)
            && json_ok(recipe_json@) && recipe_wf(recipe_json@)),
        starts_with(r@, "ERROR: "@) ==> *final(files) == *old(files),
        !starts_with(r@, "ERROR: "@) ==> r@ == build_out_spec(module_of(module_json@))
            && final(files)@ == build_fs_spec(module_of(module_json@), old(files)@),
{
    let module = match decode_module(module_json) {
        Ok(m) => m,
        Err(e) => {
            let r = error_reply(e.as_str());
            proof {
                crate::strings::lemma_concat_starts_with("ERROR: "@, e@);
            }
            return r;
        },
    };
    match decode_recipe(recipe_json) {
        Ok(_) => {},
        Err(e) => {
            let r = error_reply(e.as_str());
            proof {
                crate::strings::lemma_concat_starts_with("ERROR: "@, e@);
            }
            return r;
        },
    }
    let out = build(&module, files);
    proof {
        lemma_output_not_error_prefixed(module@);
    }
    out
}

/// The plugin's identity document.
pub fn plugin_info() -> (r: String)
    ensures
        r@ == info_text("silverblue-package"@, PluginType::BuildPlugin, false),
{
    plugin_info_json(
        &PluginInfo {
            name: String::from_str("silverblue-package"),
            kind: PluginType::BuildPlugin,
            use_container_cmds: false,
        },
    )
}

/// A module whose call defers a supported command to boot.
pub open spec fn boots(m: PkgModuleV) -> bool {
    m.on is boot && !unsupported(m.manager, m.action)
}

/// A run of calls, one module declaration after the other.
pub open spec fn run_builds(ms: Seq<PkgModuleV>, files: ScopeFilesV) -> ScopeFilesV
    decreases ms.len(),
{
    if ms.len() == 0 {
        files
    } else {
        run_builds(ms.drop_first(), build_fs_spec(ms[0], files))
    }
}

/// A run of deferred calls walks the files through the boot-persistence
/// protocol, one step per call.
pub proof fn lemma_run_builds(ms: Seq<PkgModuleV>, files: ScopeFilesV)
    requires
        forall|i: int| 0 <= i < ms.len() ==> boots(#[trigger] ms[i]),
    ensures
        run_builds(ms, files) == boot_steps(
            files,
            ms.map_values(|m: PkgModuleV| boot_line(m)),
            unit_content_text(),
        ),
    decreases ms.len(),
{
    if ms.len() > 0 {
        lemma_run_builds(ms.drop_first(), build_fs_spec(ms[0], files));
        assert(ms.drop_first().map_values(|m: PkgModuleV| boot_line(m)) =~= ms.map_values(
            |m: PkgModuleV| boot_line(m),
        ).drop_first());
    }
}

/// Deferred calls accumulate the boot script: after any run the script
/// holds what it held before, followed by exactly their command lines, in
/// call order.
pub proof fn lemma_boot_script_lines(ms: Seq<PkgModuleV>, files: ScopeFilesV)
    requires
        forall|i: int| 0 <= i < ms.len() ==> boots(#[trigger] ms[i]),
    ensures
        script_text(run_builds(ms, files)) == script_text(files) + concat_all(
            ms.map_values(|m: PkgModuleV| boot_line(m)),
        ),
{
    lemma_run_builds(ms, files);
    lemma_script_accumulates(
        files,
        ms.map_values(|m: PkgModuleV| boot_line(m)),
        unit_content_text(),
    );
}

/// Repetition is idempotent for the unit file, and every deferred call
/// returns the same activation command.
pub proof fn lemma_boot_idempotent(ms: Seq<PkgModuleV>, files: ScopeFilesV)
    requires
        ms.len() >= 1,
        forall|i: int| 0 <= i < ms.len() ==> boots(#[trigger] ms[i]),
    ensures
        run_builds(ms, files).unit == build_fs_spec(ms[0], files).unit,
        forall|i: int| 0 <= i < ms.len() ==> build_out_spec(#[trigger] ms[i])
            == activation_text(),
{
    lemma_run_builds(ms, files);
    lemma_unit_idempotent(
        files,
        ms.map_values(|m: PkgModuleV| boot_line(m)),
        unit_content_text(),
    );
    assert(ms.map_values(|m: PkgModuleV| boot_line(m))[0] == boot_line(ms[0]));
}

} // verus!
