//! The boot-shell plugin: every declared module defers its list of shell
//! commands to first boot. Each call appends one script block — a fixed
//! two-line shell header followed by the declared commands, one per line
//! — to the scope's boot script, and materializes the scope's service
//! unit once.

use vstd::prelude::*;
use crate::bootfs::{apply_boot, boot_step, boot_steps, concat_all, script_text,
    lemma_concat_all_push, lemma_script_accumulates, lemma_unit_idempotent, PluginFs, PluginFsV,
    ScopeFilesV};
use crate::info::{info_text, plugin_info_json};
use crate::json::{error_reply, json_ok, json_has_field, json_str_field, opt_seq, str_list_field_wf,
    str_list_field_of, check_json, required_string_field, string_list_field};
use crate::pkg::{As, scope_field_wf, scope_field_of, read_scope_field};
use crate::recipe::{PluginInfo, PluginType, decode_recipe, recipe_wf};
use crate::strings::starts_with;

verus! {

/// One declared use of this plugin inside a recipe.
pub struct PkgModule {
    pub name: String,
    pub module_type: String,
    pub packages: Vec<String>,
    pub remotes: Vec<String>,
    pub scope: As,
    pub commands: Vec<String>,
}

/// The mathematical shadow of a module declaration.
pub ghost struct PkgModuleV {
    pub name: Seq<char>,
    pub module_type: Seq<char>,
    pub packages: Seq<Seq<char>>,
    pub remotes: Seq<Seq<char>>,
    pub scope: As,
    pub commands: Seq<Seq<char>>,
}

impl View for PkgModule {
    type V = PkgModuleV;

    open spec fn view(&self) -> PkgModuleV {
        PkgModuleV {
            name: self.name@,
            module_type: self.module_type@,
            packages: self.packages.deep_view(),
            remotes: self.remotes.deep_view(),
            scope: self.scope,
            commands: self.commands.deep_view(),
        }
    }
}

/// The system-scope service unit template.
pub open spec fn system_service_text() -> Seq<char> {
    "
[Unit]
Description=Runs scripts after boot
Wants=network-online.target
After=network-online.target

[Service]
Type=oneshot
ExecStart=/usr/bin/boot-shell-system
Restart=on-failure
RestartSec=30

[Install]
WantedBy=default.target"@
}

/// The user-scope service unit template.
pub open spec fn user_service_text() -> Seq<char> {
    "
[Unit]
Description=Runs scripts after boot
Wants=network-online.target
After=boot-shell-system.service

[Service]
Type=oneshot
ExecStart=/usr/bin/boot-shell-user
Restart=on-failure
RestartSec=30

[Install]
WantedBy=default.target
"@
}

/// The system-scope service unit template.
pub fn system_service() -> (r: &'static str)
    ensures
        r@ == system_service_text(),
{
    "
[Unit]
Description=Runs scripts after boot
Wants=network-online.target
After=network-online.target

[Service]
Type=oneshot
ExecStart=/usr/bin/boot-shell-system
Restart=on-failure
RestartSec=30

[Install]
WantedBy=default.target"
}

/// The user-scope service unit template.
pub fn user_service() -> (r: &'static str)
    ensures
        r@ == user_service_text(),
{
    "
[Unit]
Description=Runs scripts after boot
Wants=network-online.target
After=boot-shell-system.service

[Service]
Type=oneshot
ExecStart=/usr/bin/boot-shell-user
Restart=on-failure
RestartSec=30

[Install]
WantedBy=default.target
"
}

/// Where the boot script of a scope lives, relative to the recipe's
/// includes directory.
pub open spec fn script_rel_path_text(scope: As) -> Seq<char> {
    if scope is system {
        "usr/bin/boot-shell-system"@
    } else {
        "usr/bin/boot-shell-user"@
    }
}

/// Where the service unit of a scope lives, relative to the recipe's
/// includes directory.
pub open spec fn unit_rel_path_text(scope: As) -> Seq<char> {
    if scope is system {
        "etc/systemd/system/boot-shell-system"@
    } else {
        "etc/systemd/user/boot-shell-user"@
    }
}

/// Where the boot script of a scope lives, relative to the recipe's
/// includes directory.
pub fn script_rel_path(scope: As) -> (r: &'static str)
    ensures
        r@ == script_rel_path_text(scope),
{
    match scope {
        As::system => "usr/bin/boot-shell-system",
        As::user => "usr/bin/boot-shell-user",
    }
}

/// Where the service unit of a scope lives, relative to the recipe's
/// includes directory.
pub fn unit_rel_path(scope: As) -> (r: &'static str)
    ensures
        r@ == unit_rel_path_text(scope),
{
    match scope {
        As::system => "etc/systemd/system/boot-shell-system",
        As::user => "etc/systemd/user/boot-shell-user",
    }
}

/// The activation command returned by every successful call.
pub open spec fn activation_text(scope: As) -> Seq<char> {
    if scope is system {
        "systemctl enable --system boot-shell-system"@
    } else {
        "systemctl enable --user boot-shell-user"@
    }
}

/// The activation command returned by every successful call.
pub fn activation_command(scope: As) -> (r: &'static str)
    ensures
        r@ == activation_text(scope),
{
    match scope {
        As::system => "systemctl enable --system boot-shell-system",
        As::user => "systemctl enable --user boot-shell-user",
    }
}

/// The fixed shell header opening every appended block: a shebang and a
/// separate flags line, oddly indented — a preserved quirk of the script
/// format, not a correctness requirement.
pub open spec fn script_header() -> Seq<char> {
    "\n    \n    #!/bin/bash\n    -oeu pipefail\n\n    "@
}

/// The declared commands, one line each, in declaration order.
pub open spec fn lines_of(cmds: Seq<Seq<char>>) -> Seq<char> {
    concat_all(cmds.map_values(|c: Seq<char>| c + "\n"@))
}

/// One more command line extends the block at its end.
pub proof fn lemma_lines_push(cmds: Seq<Seq<char>>, x: Seq<char>)
    ensures
        lines_of(cmds.push(x)) == lines_of(cmds) + (x + "\n"@),
{
    assert(cmds.push(x).map_values(|c: Seq<char>| c + "\n"@) =~= cmds.map_values(
        |c: Seq<char>| c + "\n"@,
    ).push(x + "\n"@));
    lemma_concat_all_push(cmds.map_values(|c: Seq<char>| c + "\n"@), x + "\n"@);
}

/// The block one call appends to its scope's boot script: the header,
/// the declared command lines, and the closing newline of the write.
pub open spec fn script_block(m: PkgModuleV) -> Seq<char> {
    script_header() + lines_of(m.commands) + "\n"@
}

/// The content a freshly created unit file of a scope receives.
pub open spec fn unit_content_text(scope: As) -> Seq<char> {
    if scope is system {
        system_service_text() + "\n"@
    } else {
        user_service_text() + "\n"@
    }
}

/// The filesystem after one call: one boot step on the declared scope.
pub open spec fn build_fs_spec(m: PkgModuleV, fs: PluginFsV) -> PluginFsV {
    if m.scope is system {
        PluginFsV {
            system: boot_step(fs.system, script_block(m), unit_content_text(As::system)),
            user: fs.user,
        }
    } else {
        PluginFsV {
            system: fs.system,
            user: boot_step(fs.user, script_block(m), unit_content_text(As::user)),
        }
    }
}

/// The string one call returns: always the scope's activation command,
/// independent of what the filesystem already holds.
pub open spec fn build_out_spec(m: PkgModuleV) -> Seq<char> {
    activation_text(m.scope)
}

/// One call of the plugin on one module declaration, against the model of
/// the two boot artifacts of each scope.
pub fn build(module: &PkgModule, fs: &mut PluginFs) -> (r: String)
    ensures
        r@ == build_out_spec(module@),
        final(fs)@ == build_fs_spec(module@, old(fs)@),
{
    let mut block = String::from_str("\n    \n    #!/bin/bash\n    -oeu pipefail\n\n    ");
    let mut i: usize = 0;
    while i < module.commands.len()
        invariant
            i <= module.commands.len(),
            block@ == script_header() + lines_of(module.commands.deep_view().take(i as int)),
        decreases module.commands.len() - i,
    {
        block.append(module.commands[i].as_str());
        block.append("\n");
        proof {
            let cv = module.commands.deep_view();
            assert(cv.take(i + 1 as int) =~= cv.take(i as int).push(cv[i as int]));
            lemma_lines_push(cv.take(i as int), cv[i as int]);
            assert(script_header() + lines_of(cv.take(i as int)) + cv[i as int] + "\n"@
                =~= script_header() + lines_of(cv.take(i + 1 as int)));
        }
        i = i + 1;
    }
    block.append("\n");
    proof {
        let cv = module.commands.deep_view();
        assert(cv.take(cv.len() as int) =~= cv);
        assert(script_header() + lines_of(cv) + "\n"@ =~= script_block(module@));
    }
    match module.scope {
        As::system => {
            let mut unit = String::from_str(system_service());
            unit.append("\n");
            apply_boot(&mut fs.system, block.as_str(), unit.as_str());
        },
        As::user => {
            let mut unit = String::from_str(user_service());
            unit.append("\n");
            apply_boot(&mut fs.user, block.as_str(), unit.as_str());
        },
    }
    String::from_str(activation_command(module.scope))
}

/// A well-formed module document: well-formed JSON whose `name` and
/// `type` are strings, whose lists, where present, are arrays of strings,
/// and whose scope, where present, names one.
pub open spec fn module_wf(s: Seq<char>) -> bool {
    &&& json_has_field(s, "name"@) && json_str_field(s, "name"@) is Some
    &&& json_has_field(s, "type"@) && json_str_field(s, "type"@) is Some
    &&& str_list_field_wf(s, "packages"@)
    &&& str_list_field_wf(s, "remotes"@)
    &&& str_list_field_wf(s, "commands"@)
    &&& scope_field_wf(s)
}

/// The module declaration a well-formed document describes: lists default
/// to empty, the scope to system.
pub open spec fn module_of(s: Seq<char>) -> PkgModuleV {
    PkgModuleV {
        name: opt_seq(json_str_field(s, "name"@)),
        module_type: opt_seq(json_str_field(s, "type"@)),
        packages: str_list_field_of(s, "packages"@),
        remotes: str_list_field_of(s, "remotes"@),
        scope: scope_field_of(s),
        commands: str_list_field_of(s, "commands"@),
    }
}

/// Reads one module declaration out of its JSON document: accepted
/// exactly when the document is well-formed for this schema, and then
/// decoded to exactly the declaration it describes.
pub fn decode_module(s: &str) -> (r: Result<PkgModule, String>)
    ensures
        r is Ok <==> json_ok(s@) && module_wf(s@),
        r matches Ok(m) ==> m@ == module_of(s@),
{
    match check_json(s) {
        Ok(_) => {},
        Err(e) => {
            return Err(e);
        },
    }
    let name = match required_string_field(s, "name") {
        Ok(x) => x,
        Err(e) => {
            return Err(e);
        },
    };
    let module_type = match required_string_field(s, "type") {
        Ok(x) => x,
        Err(e) => {
            return Err(e);
        },
    };
    let packages = match string_list_field(s, "packages") {
        Ok(x) => x,
        Err(e) => {
            return Err(e);
        },
    };
    let remotes = match string_list_field(s, "remotes") {
        Ok(x) => x,
        Err(e) => {
            return Err(e);
        },
    };
    let commands = match string_list_field(s, "commands") {
        Ok(x) => x,
        Err(e) => {
            return Err(e);
        },
    };
    let scope = match read_scope_field(s) {
        Ok(a) => a,
        Err(e) => {
            return Err(e);
        },
    };
    Ok(PkgModule { name, module_type, packages, remotes, scope, commands })
}

/// No reply of a successful call begins with the failure prefix: every
/// successful reply is an activation command opening with `systemctl`.
pub proof fn lemma_output_not_error_prefixed(m: PkgModuleV)
    ensures
        !starts_with(build_out_spec(m), "ERROR: "@),
{
    reveal_strlit("ERROR: ");
    reveal_strlit("systemctl enable --system boot-shell-system");
    reveal_strlit("systemctl enable --user boot-shell-user");
    let p = "ERROR: "@;
    let s = build_out_spec(m);
    if starts_with(s, p) {
        assert(s.subrange(0, 7)[0] == s[0]);
        assert(false);
    }
}

/// The plugin's build entry: decodes the module and context documents,
/// then runs the call. The reply carries the failure prefix exactly when
/// one of the documents is rejected, and then the filesystem is left
/// untouched; otherwise the reply and the new filesystem are exactly the
/// outcome of one call on the declaration the module document describes.
pub fn build_module(module_json: &str, recipe_json: &str, fs: &mut PluginFs) -> (r: String)
    ensures
        starts_with(r@, "ERROR: "@) <==> !(json_ok(module_json@) && module_wf(module_json@)
            && json_ok(recipe_json@) && recipe_wf(recipe_json@)),
        starts_with(r@, "ERROR: "@) ==> *final(fs) == *old(fs),
        !starts_with(r@, "ERROR: "@) ==> r@ == build_out_spec(module_of(module_json@))
            && final(fs)@ == build_fs_spec(module_of(module_json@), old(fs)@),
{
    let module = match decode_module(module_json) {
        Ok(m) => m,
        Err(e) => {
            let r = error_reply(e.as_str());
            proof {
                crate::strings::lemma_concat_starts_with("ERROR: "@, e@);
            }
            return r;
        },
    };
    match decode_recipe(recipe_json) {
        Ok(_) => {},
        Err(e) => {
            let r = error_reply(e.as_str());
            proof {
                crate::strings::lemma_concat_starts_with("ERROR: "@, e@);
            }
            return r;
        },
    }
    let out = build(&module, fs);
    proof {
        lemma_output_not_error_prefixed(module@);
    }
    out
}

/// The plugin's identity document.
pub fn plugin_info() -> (r: String)
    ensures
        r@ == info_text("boot-shell"@, PluginType::BuildPlugin, false),
{
    plugin_info_json(
        &PluginInfo {
            name: String::from_str("boot-shell"),
            kind: PluginType::BuildPlugin,
            use_container_cmds: false,
        },
    )
}

/// The files of one scope.
pub open spec fn scope_files(fs: PluginFsV, scope: As) -> ScopeFilesV {
    if scope is system {
        fs.system
    } else {
        fs.user
    }
}

/// The scope a scope is disjoint from.
pub open spec fn other_scope(scope: As) -> As {
    if scope is system {
        As::user
    } else {
        As::system
    }
}

/// One call touches only its own scope: the other scope's files come out
/// exactly as they went in.
pub proof fn lemma_call_isolated(m: PkgModuleV, fs: PluginFsV)
    ensures
        scope_files(build_fs_spec(m, fs), other_scope(m.scope)) == scope_files(
            fs,
            other_scope(m.scope),
        ),
{
}

/// A run of calls, one module declaration after the other.
pub open spec fn run_builds(ms: Seq<PkgModuleV>, fs: PluginFsV) -> PluginFsV
    decreases ms.len(),
{
    if ms.len() == 0 {
        fs
    } else {
        run_builds(ms.drop_first(), build_fs_spec(ms[0], fs))
    }
}

/// A run of calls in one scope walks that scope's files through the
/// boot-persistence protocol, one step per call, and leaves the other
/// scope's files exactly as they were.
pub proof fn lemma_run_builds_on_scope(ms: Seq<PkgModuleV>, fs: PluginFsV, scope: As)
    requires
        forall|i: int| 0 <= i < ms.len() ==> (#[trigger] ms[i]).scope == scope,
    ensures
        scope_files(run_builds(ms, fs), scope) == boot_steps(
            scope_files(fs, scope),
            ms.map_values(|m: PkgModuleV| script_block(m)),
            unit_content_text(scope),
        ),
        scope_files(run_builds(ms, fs), other_scope(scope)) == scope_files(
            fs,
            other_scope(scope),
        ),
    decreases ms.len(),
{
    if ms.len() > 0 {
        let stepped = build_fs_spec(ms[0], fs);
        lemma_run_builds_on_scope(ms.drop_first(), stepped, scope);
        assert(ms.drop_first().map_values(|m: PkgModuleV| script_block(m)) =~= ms.map_values(
            |m: PkgModuleV| script_block(m),
        ).drop_first());
    }
}

/// Calls accumulate the boot script: after any run of calls in one scope
/// the script holds what it held before, followed by exactly their script
/// blocks — every declared command line, in call order.
pub proof fn lemma_boot_script_blocks(ms: Seq<PkgModuleV>, fs: PluginFsV, scope: As)
    requires
        forall|i: int| 0 <= i < ms.len() ==> (#[trigger] ms[i]).scope == scope,
    ensures
        script_text(scope_files(run_builds(ms, fs), scope)) == script_text(scope_files(fs, scope))
            + concat_all(ms.map_values(|m: PkgModuleV| script_block(m))),
{
    lemma_run_builds_on_scope(ms, fs, scope);
    lemma_script_accumulates(
        scope_files(fs, scope),
        ms.map_values(|m: PkgModuleV| script_block(m)),
        unit_content_text(scope),
    );
}

/// Repetition is idempotent for the unit file: after any number of calls
/// in one scope its content equals the content after the first call
/// alone, and every one of the calls returns the same activation command.
pub proof fn lemma_boot_idempotent(ms: Seq<PkgModuleV>, fs: PluginFsV, scope: As)
    requires
        ms.len() >= 1,
        forall|i: int| 0 <= i < ms.len() ==> (#[trigger] ms[i]).scope == scope,
    ensures
        scope_files(run_builds(ms, fs), scope).unit == scope_files(
            build_fs_spec(ms[0], fs),
            scope,
        ).unit,
        forall|i: int| 0 <= i < ms.len() ==> build_out_spec(#[trigger] ms[i]) == activation_text(
            scope,
        ),
{
    lemma_run_builds_on_scope(ms, fs, scope);
    lemma_unit_idempotent(
        scope_files(fs, scope),
        ms.map_values(|m: PkgModuleV| script_block(m)),
        unit_content_text(scope),
    );
    assert(ms.map_values(|m: PkgModuleV| script_block(m))[0] == script_block(ms[0]));
}

/// One more call at the end of a run is one more step.
pub proof fn lemma_run_builds_push(ms: Seq<PkgModuleV>, m: PkgModuleV, fs: PluginFsV)
    ensures
        run_builds(ms.push(m), fs) == build_fs_spec(m, run_builds(ms, fs)),
    decreases ms.len(),
{
    if ms.len() == 0 {
        assert(ms.push(m).drop_first() =~= ms);
        assert(ms.push(m)[0] == m);
        let stepped = build_fs_spec(m, fs);
        assert(run_builds(ms.push(m), fs) == run_builds(ms, stepped));
        assert(run_builds(ms, stepped) == stepped);
        assert(run_builds(ms, fs) == fs);
    } else {
        assert(ms.push(m).drop_first() =~= ms.drop_first().push(m));
        assert(ms.push(m)[0] == ms[0]);
        let stepped = build_fs_spec(ms[0], fs);
        lemma_run_builds_push(ms.drop_first(), m, stepped);
        assert(run_builds(ms.push(m), fs) == run_builds(ms.drop_first().push(m), stepped));
        assert(run_builds(ms, fs) == run_builds(ms.drop_first(), stepped));
    }
}

/// The calls of a run declared for `scope`, in call order.
pub open spec fn calls_in_scope(ms: Seq<PkgModuleV>, scope: As) -> Seq<PkgModuleV> {
    ms.filter(|m: PkgModuleV| m.scope == scope)
}

/// However a run mixes the two scopes, each scope's files see exactly the
/// protocol steps of their own calls, in call order: calls in different
/// scopes never interfere.
pub proof fn lemma_scopes_independent(ms: Seq<PkgModuleV>, fs: PluginFsV, scope: As)
    ensures
        scope_files(run_builds(ms, fs), scope) == boot_steps(
            scope_files(fs, scope),
            calls_in_scope(ms, scope).map_values(|m: PkgModuleV| script_block(m)),
            unit_content_text(scope),
        ),
    decreases ms.len(),
{
    reveal(Seq::filter);
    if ms.len() > 0 {
        let prefix = ms.drop_last();
        let last = ms.last();
        lemma_scopes_independent(prefix, fs, scope);
        assert(prefix.push(last) =~= ms);
        lemma_run_builds_push(prefix, last, fs);
        if last.scope == scope {
            assert(calls_in_scope(ms, scope) == calls_in_scope(prefix, scope).push(last));
            assert(calls_in_scope(ms, scope).map_values(|m: PkgModuleV| script_block(m))
                =~= calls_in_scope(prefix, scope).map_values(|m: PkgModuleV| script_block(m)).push(
                script_block(last),
            ));
            crate::bootfs::lemma_boot_steps_push(
                scope_files(fs, scope),
                calls_in_scope(prefix, scope).map_values(|m: PkgModuleV| script_block(m)),
                script_block(last),
                unit_content_text(scope),
            );
        } else {
            assert(calls_in_scope(ms, scope) == calls_in_scope(prefix, scope));
        }
    }
}

/// The two scopes are disjoint: their script paths, their unit paths and
/// their unit templates all differ. Together with `lemma_call_isolated`
/// and `lemma_scopes_independent`, calls in different scopes never
/// interfere.
pub proof fn lemma_scopes_disjoint()
    ensures
        script_rel_path_text(As::system) != script_rel_path_text(As::user),
        unit_rel_path_text(As::system) != unit_rel_path_text(As::user),
        unit_content_text(As::system) != unit_content_text(As::user),
        activation_text(As::system) != activation_text(As::user),
{
    reveal_strlit("usr/bin/boot-shell-system");
    reveal_strlit("usr/bin/boot-shell-user");
    reveal_strlit("etc/systemd/system/boot-shell-system");
    reveal_strlit("etc/systemd/user/boot-shell-user");
    reveal_strlit("systemctl enable --system boot-shell-system");
    reveal_strlit("systemctl enable --user boot-shell-user");
    reveal_strlit(
        "
[Unit]
Description=Runs scripts after boot
Wants=network-online.target
After=network-online.target

[Service]
Type=oneshot
ExecStart=/usr/bin/boot-shell-system
Restart=on-failure
RestartSec=30

[Install]
WantedBy=default.target",
    );
    reveal_strlit(
        "
[Unit]
Description=Runs scripts after boot
Wants=network-online.target
After=boot-shell-system.service

[Service]
Type=oneshot
ExecStart=/usr/bin/boot-shell-user
Restart=on-failure
RestartSec=30

[Install]
WantedBy=default.target
",
    );
    assert(script_rel_path_text(As::system).len() != script_rel_path_text(As::user).len());
    assert(unit_rel_path_text(As::system).len() != unit_rel_path_text(As::user).len());
    assert(system_service_text().len() != user_service_text().len());
    assert(unit_content_text(As::system).len() != unit_content_text(As::user).len());
    assert(activation_text(As::system).len() != activation_text(As::user).len());
}

} // verus!
