//! The package plugin: one declared module asks a package manager to
//! install or remove packages or remotes, either during the build or,
//! deferred through the boot-persistence protocol, at first boot.

use vstd::prelude::*;
use crate::bootfs::{apply_boot, boot_step, boot_steps, concat_all, script_text,
    lemma_script_accumulates, lemma_unit_idempotent, PluginFs, PluginFsV, ScopeFilesV};
use crate::info::{info_text, plugin_info_json};
use crate::json::{error_reply, json_ok, json_has_field, json_str_field, opt_seq,
    str_list_field_wf, str_list_field_of, check_json, required_string_field, string_list_field};
use crate::pkg::{Manager, Action, On, As, command_text, unsupported, unsupported_text,
    synthesize_command, manager_field_wf, manager_field_of, action_field_wf, action_field_of,
    on_field_wf, on_field_of, scope_field_wf, scope_field_of, read_manager_field,
    read_action_field, read_on_field, read_scope_field};
use crate::recipe::{PluginInfo, PluginType, decode_recipe, recipe_wf};
use crate::strings::starts_with;

verus! {

/// One declared use of this plugin inside a recipe.
pub struct PkgModule {
    pub name: String,
    pub module_type: String,
    pub packages: Vec<String>,
    pub remotes: Vec<String>,
    pub manager: Manager,
    pub action: Action,
    pub on: On,
    pub scope: As,
    pub args: Vec<String>,
}

/// The mathematical shadow of a module declaration.
pub ghost struct PkgModuleV {
    pub name: Seq<char>,
    pub module_type: Seq<char>,
    pub packages: Seq<Seq<char>>,
    pub remotes: Seq<Seq<char>>,
    pub manager: Manager,
    pub action: Action,
    pub on: On,
    pub scope: As,
    pub args: Seq<Seq<char>>,
}

impl View for PkgModule {
    type V = PkgModuleV;

    open spec fn view(&self) -> PkgModuleV {
        PkgModuleV {
            name: self.name@,
            module_type: self.module_type@,
            packages: self.packages.deep_view(),
            remotes: self.remotes.deep_view(),
            manager: self.manager,
            action: self.action,
            on: self.on,
            scope: self.scope,
            args: self.args.deep_view(),
        }
    }
}

/// The system-scope service unit template.
pub open spec fn system_service_text() -> Seq<char> {
    "
[Unit]
Description=Install Packages after boot
Wants=network-online.target
After=network-online.target

[Service]
Type=oneshot
ExecStart=/usr/bin/ostree-pkg-system
Restart=on-failure
RestartSec=30

[Install]
WantedBy=default.target"@
}

/// The user-scope service unit template.
pub open spec fn user_service_text() -> Seq<char> {
    "
[Unit]
Description=Install Packages after boot
Wants=network-online.target
After=ostree-pkg-system.service

[Service]
Type=oneshot
ExecStart=/usr/bin/ostree-pkg-user
Restart=on-failure
RestartSec=30

[Install]
WantedBy=default.target
"@
}

/// The system-scope service unit template.
pub fn system_service() -> (r: &'static str)
    ensures
        r@ == system_service_text(),
{
    "
[Unit]
Description=Install Packages after boot
Wants=network-online.target
After=network-online.target

[Service]
Type=oneshot
ExecStart=/usr/bin/ostree-pkg-system
Restart=on-failure
RestartSec=30

[Install]
WantedBy=default.target"
}

/// The user-scope service unit template.
pub fn user_service() -> (r: &'static str)
    ensures
        r@ == user_service_text(),
{
    "
[Unit]
Description=Install Packages after boot
Wants=network-online.target
After=ostree-pkg-system.service

[Service]
Type=oneshot
ExecStart=/usr/bin/ostree-pkg-user
Restart=on-failure
RestartSec=30

[Install]
WantedBy=default.target
"
}

/// Where the boot script of a scope lives, relative to the recipe's
/// includes directory.
pub open spec fn script_rel_path_text(scope: As) -> Seq<char> {
    if scope is system {
        "usr/bin/ostree-pkg-system"@
    } else {
        "usr/bin/ostree-pkg-user"@
    }
}

/// Where the service unit of a scope lives, relative to the recipe's
/// includes directory.
pub open spec fn unit_rel_path_text(scope: As) -> Seq<char> {
    if scope is system {
        "etc/systemd/system/ostree-pkg-system"@
    } else {
        "etc/systemd/user/ostree-pkg-user"@
    }
}

/// Where the boot script of a scope lives, relative to the recipe's
/// includes directory.
pub fn script_rel_path(scope: As) -> (r: &'static str)
    ensures
        r@ == script_rel_path_text(scope),
{
    match scope {
        As::system => "usr/bin/ostree-pkg-system",
        As::user => "usr/bin/ostree-pkg-user",
    }
}

/// Where the service unit of a scope lives, relative to the recipe's
/// includes directory.
pub fn unit_rel_path(scope: As) -> (r: &'static str)
    ensures
        r@ == unit_rel_path_text(scope),
{
    match scope {
        As::system => "etc/systemd/system/ostree-pkg-system",
        As::user => "etc/systemd/user/ostree-pkg-user",
    }
}

/// The activation command returned by every successful deferred call:
/// the scope's flag and the scope's own unit name.
pub open spec fn activation_text(scope: As) -> Seq<char> {
    if scope is system {
        "systemctl enable --system ostree-pkg-system"@
    } else {
        "systemctl enable --user ostree-pkg-user"@
    }
}

/// The activation command returned by every successful deferred call.
pub fn activation_command(scope: As) -> (r: &'static str)
    ensures
        r@ == activation_text(scope),
{
    match scope {
        As::system => "systemctl enable --system ostree-pkg-system",
        As::user => "systemctl enable --user ostree-pkg-user",
    }
}

/// The package command a module synthesizes.
pub open spec fn command_of(m: PkgModuleV) -> Seq<char> {
    command_text(m.manager, m.action, m.packages, m.remotes, m.args)
}

/// The one line a deferred call appends to its scope's boot script.
pub open spec fn boot_line(m: PkgModuleV) -> Seq<char> {
    command_of(m) + "\n"@
}

/// The content a freshly created unit file of a scope receives.
pub open spec fn unit_content_text(scope: As) -> Seq<char> {
    if scope is system {
        system_service_text() + "\n"@
    } else {
        user_service_text() + "\n"@
    }
}

/// The filesystem after one call: unchanged for build-time or unsupported
/// modules, one boot step on the declared scope otherwise.
pub open spec fn build_fs_spec(m: PkgModuleV, fs: PluginFsV) -> PluginFsV {
    if unsupported(m.manager, m.action) || m.on is build {
        fs
    } else if m.scope is system {
        PluginFsV {
            system: boot_step(fs.system, boot_line(m), unit_content_text(As::system)),
            user: fs.user,
        }
    } else {
        PluginFsV {
            system: fs.system,
            user: boot_step(fs.user, boot_line(m), unit_content_text(As::user)),
        }
    }
}

/// The string one call returns: the fixed sentinel on an unsupported
/// pair, the package command at build time, the activation command for a
/// deferred call. It depends on the declaration alone, never on what the
/// filesystem already holds.
pub open spec fn build_out_spec(m: PkgModuleV) -> Seq<char> {
    if unsupported(m.manager, m.action) {
        unsupported_text(m.action)
    } else if m.on is build {
        command_of(m)
    } else {
        activation_text(m.scope)
    }
}

/// One call of the plugin on one module declaration, against the model of
/// the two boot artifacts of each scope.
pub fn build(module: &PkgModule, fs: &mut PluginFs) -> (r: String)
    ensures
        r@ == build_out_spec(module@),
        final(fs)@ == build_fs_spec(module@, old(fs)@),
{
    let cmd = synthesize_command(
        module.manager,
        module.action,
        &module.packages,
        &module.remotes,
        &module.args,
    );
    let is_unsupported = match (module.manager, module.action) {
        (Manager::dnf, Action::add_remote) => true,
        (Manager::dnf, Action::remove_remote) => true,
        _ => false,
    };
    if is_unsupported {
        return cmd;
    }
    match module.on {
        On::build => cmd,
        On::boot => {
            let mut line = cmd;
            line.append("\n");
            match module.scope {
                As::system => {
                    let mut unit = String::from_str(system_service());
                    unit.append("\n");
                    apply_boot(&mut fs.system, line.as_str(), unit.as_str());
                },
                As::user => {
                    let mut unit = String::from_str(user_service());
                    unit.append("\n");
                    apply_boot(&mut fs.user, line.as_str(), unit.as_str());
                },
            }
            String::from_str(activation_command(module.scope))
        },
    }
}

/// A well-formed module document: well-formed JSON whose `name` and
/// `type` are strings, whose lists, where present, are arrays of strings,
/// and whose enum fields, where present, name a variant.
pub open spec fn module_wf(s: Seq<char>) -> bool {
    &&& json_has_field(s, "name"@) && json_str_field(s, "name"@) is Some
    &&& json_has_field(s, "type"@) && json_str_field(s, "type"@) is Some
    &&& str_list_field_wf(s, "packages"@)
    &&& str_list_field_wf(s, "remotes"@)
    &&& str_list_field_wf(s, "args"@)
    &&& manager_field_wf(s)
    &&& action_field_wf(s)
    &&& on_field_wf(s)
    &&& scope_field_wf(s)
}

/// The module declaration a well-formed document describes: lists default
/// to empty, enums to their first-listed variant.
pub open spec fn module_of(s: Seq<char>) -> PkgModuleV {
    PkgModuleV {
        name: opt_seq(json_str_field(s, "name"@)),
        module_type: opt_seq(json_str_field(s, "type"@)),
        packages: str_list_field_of(s, "packages"@),
        remotes: str_list_field_of(s, "remotes"@),
        manager: manager_field_of(s),
        action: action_field_of(s),
        on: on_field_of(s),
        scope: scope_field_of(s),
        args: str_list_field_of(s, "args"@),
    }
}

/// Reads one module declaration out of its JSON document: accepted
/// exactly when the document is well-formed for this schema, and then
/// decoded to exactly the declaration it describes.
pub fn decode_module(s: &str) -> (r: Result<PkgModule, String>)
    ensures
        r is Ok <==> json_ok(s@) && module_wf(s@),
        r matches Ok(m) ==> m@ == module_of(s@),
{
    match check_json(s) {
        Ok(_) => {},
        Err(e) => {
            return Err(e);
        },
    }
    let name = match required_string_field(s, "name") {
        Ok(x) => x,
        Err(e) => {
            return Err(e);
        },
    };
    let module_type = match required_string_field(s, "type") {
        Ok(x) => x,
        Err(e) => {
            return Err(e);
        },
    };
    let packages = match string_list_field(s, "packages") {
        Ok(x) => x,
        Err(e) => {
            return Err(e);
        },
    };
    let remotes = match string_list_field(s, "remotes") {
        Ok(x) => x,
        Err(e) => {
            return Err(e);
        },
    };
    let args = match string_list_field(s, "args") {
        Ok(x) => x,
        Err(e) => {
            return Err(e);
        },
    };
    let manager = match read_manager_field(s) {
        Ok(m) => m,
        Err(e) => {
            return Err(e);
        },
    };
    let action = match read_action_field(s) {
        Ok(a) => a,
        Err(e) => {
            return Err(e);
        },
    };
    let on = match read_on_field(s) {
        Ok(o) => o,
        Err(e) => {
            return Err(e);
        },
    };
    let scope = match read_scope_field(s) {
        Ok(a) => a,
        Err(e) => {
            return Err(e);
        },
    };
    Ok(PkgModule { name, module_type, packages, remotes, manager, action, on, scope, args })
}

/// No reply of a successful call begins with the failure prefix: the
/// sentinel differs from it in case, and commands open with a manager's
/// name or with `systemctl`.
pub proof fn lemma_output_not_error_prefixed(m: PkgModuleV)
    ensures
        !starts_with(build_out_spec(m), "ERROR: "@),
{
    reveal_strlit("ERROR: ");
    let p = "ERROR: "@;
    let s = build_out_spec(m);
    if unsupported(m.manager, m.action) {
        reveal_strlit("Error: add_remote is not supported on dnf");
        reveal_strlit("Error: remove_remote is not supported on dnf");
        if starts_with(s, p) {
            assert(s.subrange(0, 7)[1] == s[1]);
            assert(false);
        }
    } else if m.on is build {
        reveal_strlit("dnf");
        reveal_strlit("dnf5");
        reveal_strlit("flatpak");
        if starts_with(s, p) {
            assert(s.subrange(0, 7)[0] == s[0]);
            assert(s[0] == crate::pkg::manager_text(m.manager)[0]);
            assert(false);
        }
    } else {
        reveal_strlit("systemctl enable --system ostree-pkg-system");
        reveal_strlit("systemctl enable --user ostree-pkg-user");
        if starts_with(s, p) {
            assert(s.subrange(0, 7)[0] == s[0]);
            assert(false);
        }
    }
}

/// The plugin's build entry: decodes the module and context documents,
/// then runs the call. The reply carries the failure prefix exactly when
/// one of the documents is rejected, and then the filesystem is left
/// untouched; otherwise the reply and the new filesystem are exactly the
/// outcome of one call on the declaration the module document describes.
pub fn build_module(module_json: &str, recipe_json: &str, fs: &mut PluginFs) -> (r: String)
    ensures
        starts_with(r@, "ERROR: "@) <==> !(json_ok(module_json@) && module_wf(module_json@)
            && json_ok(recipe_json@) && recipe_wf(recipe_json@)),
        starts_with(r@, "ERROR: "@) ==> *final(fs) == *old(fs),
        !starts_with(r@, "ERROR: "@) ==> r@ == build_out_spec(module_of(module_json@))
            && final(fs)@ == build_fs_spec(module_of(module_json@), old(fs)@),
{
    let module = match decode_module(module_json) {
        Ok(m) => m,
        Err(e) => {
            let r = error_reply(e.as_str());
            proof {
                crate::strings::lemma_concat_starts_with("ERROR: "@, e@);
            }
            return r;
        },
    };
    match decode_recipe(recipe_json) {
        Ok(_) => {},
        Err(e) => {
            let r = error_reply(e.as_str());
            proof {
                crate::strings::lemma_concat_starts_with("ERROR: "@, e@);
            }
            return r;
        },
    }
    let out = build(&module, fs);
    proof {
        lemma_output_not_error_prefixed(module@);
    }
    out
}

/// The plugin's identity document.
pub fn plugin_info() -> (r: String)
    ensures
        r@ == info_text("ostree-pkg"@, PluginType::BuildPlugin, false),
{
    plugin_info_json(
        &PluginInfo {
            name: String::from_str("ostree-pkg"),
            kind: PluginType::BuildPlugin,
            use_container_cmds: false,
        },
    )
}

/// The files of one scope.
pub open spec fn scope_files(fs: PluginFsV, scope: As) -> ScopeFilesV {
    if scope is system {
        fs.system
    } else {
        fs.user
    }
}

/// The scope a scope is disjoint from.
pub open spec fn other_scope(scope: As) -> As {
    if scope is system {
        As::user
    } else {
        As::system
    }
}

/// One call touches at most its own scope: the other scope's files come
/// out exactly as they went in, whatever the module declares.
pub proof fn lemma_call_isolated(m: PkgModuleV, fs: PluginFsV)
    ensures
        scope_files(build_fs_spec(m, fs), other_scope(m.scope)) == scope_files(
            fs,
            other_scope(m.scope),
        ),
{
}

/// A run of calls, one module declaration after the other.
pub open spec fn run_builds(ms: Seq<PkgModuleV>, fs: PluginFsV) -> PluginFsV
    decreases ms.len(),
{
    if ms.len() == 0 {
        fs
    } else {
        run_builds(ms.drop_first(), build_fs_spec(ms[0], fs))
    }
}

/// A module whose call defers a supported command to boot in `scope`.
pub open spec fn boots_in_scope(m: PkgModuleV, scope: As) -> bool {
    m.on is boot && !unsupported(m.manager, m.action) && m.scope == scope
}

/// A run of deferred calls in one scope walks that scope's files through
/// the boot-persistence protocol, one step per call, and leaves the other
/// scope's files exactly as they were.
pub proof fn lemma_run_builds_on_scope(ms: Seq<PkgModuleV>, fs: PluginFsV, scope: As)
    requires
        forall|i: int| 0 <= i < ms.len() ==> boots_in_scope(#[trigger] ms[i], scope),
    ensures
        scope_files(run_builds(ms, fs), scope) == boot_steps(
            scope_files(fs, scope),
            ms.map_values(|m: PkgModuleV| boot_line(m)),
            unit_content_text(scope),
        ),
        scope_files(run_builds(ms, fs), other_scope(scope)) == scope_files(
            fs,
            other_scope(scope),
        ),
    decreases ms.len(),
{
    if ms.len() > 0 {
        let stepped = build_fs_spec(ms[0], fs);
        lemma_run_builds_on_scope(ms.drop_first(), stepped, scope);
        assert(ms.drop_first().map_values(|m: PkgModuleV| boot_line(m)) =~= ms.map_values(
            |m: PkgModuleV| boot_line(m),
        ).drop_first());
    }
}

/// Deferred calls accumulate the boot script: after any run of calls in
/// one scope the script holds what it held before, followed by exactly
/// their command lines, in call order.
pub proof fn lemma_boot_script_lines(ms: Seq<PkgModuleV>, fs: PluginFsV, scope: As)
    requires
        forall|i: int| 0 <= i < ms.len() ==> boots_in_scope(#[trigger] ms[i], scope),
    ensures
        script_text(scope_files(run_builds(ms, fs), scope)) == script_text(scope_files(fs, scope))
            + concat_all(ms.map_values(|m: PkgModuleV| boot_line(m))),
{
    lemma_run_builds_on_scope(ms, fs, scope);
    lemma_script_accumulates(
        scope_files(fs, scope),
        ms.map_values(|m: PkgModuleV| boot_line(m)),
        unit_content_text(scope),
    );
}

/// Repetition is idempotent for the unit file: after any number of
/// deferred calls in one scope its content equals the content after the
/// first call alone, and every one of the calls returns the same
/// activation command.
pub proof fn lemma_boot_idempotent(ms: Seq<PkgModuleV>, fs: PluginFsV, scope: As)
    requires
        ms.len() >= 1,
        forall|i: int| 0 <= i < ms.len() ==> boots_in_scope(#[trigger] ms[i], scope),
    ensures
        scope_files(run_builds(ms, fs), scope).unit == scope_files(
            build_fs_spec(ms[0], fs),
            scope,
        ).unit,
        forall|i: int| 0 <= i < ms.len() ==> build_out_spec(#[trigger] ms[i]) == activation_text(
            scope,
        ),
{
    lemma_run_builds_on_scope(ms, fs, scope);
    lemma_unit_idempotent(
        scope_files(fs, scope),
        ms.map_values(|m: PkgModuleV| boot_line(m)),
        unit_content_text(scope),
    );
    assert(ms.map_values(|m: PkgModuleV| boot_line(m))[0] == boot_line(ms[0]));
}

/// One more call at the end of a run is one more step.
pub proof fn lemma_run_builds_push(ms: Seq<PkgModuleV>, m: PkgModuleV, fs: PluginFsV)
    ensures
        run_builds(ms.push(m), fs) == build_fs_spec(m, run_builds(ms, fs)),
    decreases ms.len(),
{
    if ms.len() == 0 {
        assert(ms.push(m).drop_first() =~= ms);
        assert(ms.push(m)[0] == m);
        let stepped = build_fs_spec(m, fs);
        assert(run_builds(ms.push(m), fs) == run_builds(ms, stepped));
        assert(run_builds(ms, stepped) == stepped);
        assert(run_builds(ms, fs) == fs);
    } else {
        assert(ms.push(m).drop_first() =~= ms.drop_first().push(m));
        assert(ms.push(m)[0] == ms[0]);
        let stepped = build_fs_spec(ms[0], fs);
        lemma_run_builds_push(ms.drop_first(), m, stepped);
        assert(run_builds(ms.push(m), fs) == run_builds(ms.drop_first().push(m), stepped));
        assert(run_builds(ms, fs) == run_builds(ms.drop_first(), stepped));
    }
}

/// The calls of a run that defer a supported command to boot in `scope`,
/// in call order.
pub open spec fn calls_in_scope(ms: Seq<PkgModuleV>, scope: As) -> Seq<PkgModuleV> {
    ms.filter(|m: PkgModuleV| boots_in_scope(m, scope))
}

/// Whatever a run mixes — build-time calls, unsupported pairs, deferred
/// calls of either scope — each scope's files see exactly the protocol
/// steps of their own deferred calls, in call order: calls in different
/// scopes never interfere.
pub proof fn lemma_scopes_independent(ms: Seq<PkgModuleV>, fs: PluginFsV, scope: As)
    ensures
        scope_files(run_builds(ms, fs), scope) == boot_steps(
            scope_files(fs, scope),
            calls_in_scope(ms, scope).map_values(|m: PkgModuleV| boot_line(m)),
            unit_content_text(scope),
        ),
    decreases ms.len(),
{
    reveal(Seq::filter);
    if ms.len() > 0 {
        let prefix = ms.drop_last();
        let last = ms.last();
        lemma_scopes_independent(prefix, fs, scope);
        assert(prefix.push(last) =~= ms);
        lemma_run_builds_push(prefix, last, fs);
        if boots_in_scope(last, scope) {
            assert(calls_in_scope(ms, scope) == calls_in_scope(prefix, scope).push(last));
            assert(calls_in_scope(ms, scope).map_values(|m: PkgModuleV| boot_line(m))
                =~= calls_in_scope(prefix, scope).map_values(|m: PkgModuleV| boot_line(m)).push(
                boot_line(last),
            ));
            crate::bootfs::lemma_boot_steps_push(
                scope_files(fs, scope),
                calls_in_scope(prefix, scope).map_values(|m: PkgModuleV| boot_line(m)),
                boot_line(last),
                unit_content_text(scope),
            );
        } else {
            assert(calls_in_scope(ms, scope) == calls_in_scope(prefix, scope));
        }
    }
}

/// The two scopes are disjoint: their script paths, their unit paths and
/// their unit templates all differ. Together with the isolation clause of
/// `lemma_run_builds_on_scope` and with `lemma_scopes_independent`, calls
/// in different scopes never interfere.
pub proof fn lemma_scopes_disjoint()
    ensures
        script_rel_path_text(As::system) != script_rel_path_text(As::user),
        unit_rel_path_text(As::system) != unit_rel_path_text(As::user),
        unit_content_text(As::system) != unit_content_text(As::user),
        activation_text(As::system) != activation_text(As::user),
{
    reveal_strlit("usr/bin/ostree-pkg-system");
    reveal_strlit("usr/bin/ostree-pkg-user");
    reveal_strlit("etc/systemd/system/ostree-pkg-system");
    reveal_strlit("etc/systemd/user/ostree-pkg-user");
    reveal_strlit("systemctl enable --system ostree-pkg-system");
    reveal_strlit("systemctl enable --user ostree-pkg-user");
    reveal_strlit(
        "
[Unit]
Description=Install Packages after boot
Wants=network-online.target
After=network-online.target

[Service]
Type=oneshot
ExecStart=/usr/bin/ostree-pkg-system
Restart=on-failure
RestartSec=30

[Install]
WantedBy=default.target",
    );
    reveal_strlit(
        "
[Unit]
Description=Install Packages after boot
Wants=network-online.target
After=ostree-pkg-system.service

[Service]
Type=oneshot
ExecStart=/usr/bin/ostree-pkg-user
Restart=on-failure
RestartSec=30

[Install]
WantedBy=default.target
",
    );
    assert(script_rel_path_text(As::system).len() != script_rel_path_text(As::user).len());
    assert(unit_rel_path_text(As::system).len() != unit_rel_path_text(As::user).len());
    assert(system_service_text().len() != user_service_text().len());
    assert(unit_content_text(As::system).len() != unit_content_text(As::user).len());
    assert(activation_text(As::system).len() != activation_text(As::user).len());
}

/// A build-time call never touches the filesystem, and its reply is the
/// synthesized command — a pure function of the manager, the action and
/// the declared lists, independent of what is on disk.
pub proof fn lemma_build_time_pure(m: PkgModuleV, fs: PluginFsV)
    requires
        m.on is build,
    ensures
        build_fs_spec(m, fs) == fs,
        !unsupported(m.manager, m.action) ==> build_out_spec(m) == command_text(
            m.manager,
            m.action,
            m.packages,
            m.remotes,
            m.args,
        ),
{
}

} // verus!
