//! The package-command vocabulary shared by the package plugins: the
//! declared manager, action, timing and scope of one module, and the
//! synthesis of the literal command line from them.

use vstd::prelude::*;
use crate::json::{json_has_field, json_str_field, opt_seq, optional_string_field, field_error};
use crate::strings::{join_with, join_strings};

verus! {

/// The package manager a module declares.
#[derive(Clone, Copy, PartialEq, Eq, Structural, Debug)]
#[allow(non_camel_case_types)]
pub enum Manager {
    dnf,
    dnf5,
    flatpak,
}

/// What the module asks the manager to do.
#[derive(Clone, Copy, PartialEq, Eq, Structural, Debug)]
#[allow(non_camel_case_types)]
pub enum Action {
    install,
    uninstall,
    add_remote,
    remove_remote,
}

/// When the command runs: during the build, or deferred to first boot.
#[derive(Clone, Copy, PartialEq, Eq, Structural, Debug)]
#[allow(non_camel_case_types)]
pub enum On {
    build,
    boot,
}

/// The service scope of a deferred command.
#[derive(Clone, Copy, PartialEq, Eq, Structural, Debug)]
#[allow(non_camel_case_types)]
pub enum As {
    system,
    user,
}

impl Default for Manager {
    fn default() -> (r: Self)
        ensures
            r == Manager::dnf,
    {
        Manager::dnf
    }
}

impl Default for Action {
    fn default() -> (r: Self)
        ensures
            r == Action::install,
    {
        Action::install
    }
}

impl Default for On {
    fn default() -> (r: Self)
        ensures
            r == On::build,
    {
        On::build
    }
}

impl Default for As {
    fn default() -> (r: Self)
        ensures
            r == As::system,
    {
        As::system
    }
}

/// The manager's name as it opens the command line.
pub open spec fn manager_text(m: Manager) -> Seq<char> {
    match m {
        Manager::dnf => "dnf"@,
        Manager::dnf5 => "dnf5"@,
        Manager::flatpak => "flatpak"@,
    }
}

/// The two cells of the manager-action table that resolve to an error
/// sentinel instead of a command.
pub open spec fn unsupported(m: Manager, a: Action) -> bool {
    m is dnf && (a is add_remote || a is remove_remote)
}

/// The fixed sentinel returned for an unsupported manager-action pair.
pub open spec fn unsupported_text(a: Action) -> Seq<char> {
    if a is add_remote {
        "Error: add_remote is not supported on dnf"@
    } else {
        "Error: remove_remote is not supported on dnf"@
    }
}

/// The flag text a supported manager-action cell maps to.
pub open spec fn action_text(m: Manager, a: Action) -> Seq<char> {
    match m {
        Manager::dnf => match a {
            Action::install => "install -y"@,
            Action::uninstall => "uninstall -y"@,
            Action::add_remote => "install -y"@,  // unreachable: unsupported cell
            Action::remove_remote => "uninstall -y"@,  // unreachable: unsupported cell
        },
        Manager::dnf5 => match a {
            Action::install => "install -y"@,
            Action::uninstall => "uninstall -y"@,
            Action::add_remote => "-y copr enable"@,
            Action::remove_remote => "-y copr remove"@,
        },
        Manager::flatpak => match a {
            Action::install => "install --noninteractive"@,
            Action::uninstall => "uninstall --noninteractive"@,
            Action::add_remote => "remote-add --if-not-exists"@,
            Action::remove_remote => "remote-delete"@,
        },
    }
}

/// The exclusive target list of an action: install and uninstall consume
/// the packages, the remote actions consume the remotes, never merged.
pub open spec fn target_list(a: Action, packages: Seq<Seq<char>>, remotes: Seq<Seq<char>>) -> Seq<
    Seq<char>,
> {
    if a is install || a is uninstall {
        packages
    } else {
        remotes
    }
}

/// The synthesized command line: manager, flags, extra arguments and
/// targets, single-space-joined. An empty list contributes a blank
/// segment; the spacing around it is preserved exactly.
pub open spec fn command_text(
    m: Manager,
    a: Action,
    packages: Seq<Seq<char>>,
    remotes: Seq<Seq<char>>,
    args: Seq<Seq<char>>,
) -> Seq<char> {
    manager_text(m) + " "@ + action_text(m, a) + " "@ + join_with(args, " "@) + " "@ + join_with(
        target_list(a, packages, remotes),
        " "@,
    )
}

/// The manager a declared text names, if any.
pub open spec fn manager_of_text(t: Seq<char>) -> Option<Manager> {
    if t == "dnf"@ {
        Some(Manager::dnf)
    } else if t == "dnf5"@ {
        Some(Manager::dnf5)
    } else if t == "flatpak"@ {
        Some(Manager::flatpak)
    } else {
        None
    }
}

/// The action a declared text names, if any.
pub open spec fn action_of_text(t: Seq<char>) -> Option<Action> {
    if t == "install"@ {
        Some(Action::install)
    } else if t == "uninstall"@ {
        Some(Action::uninstall)
    } else if t == "add_remote"@ {
        Some(Action::add_remote)
    } else if t == "remove_remote"@ {
        Some(Action::remove_remote)
    } else {
        None
    }
}

/// The timing a declared text names, if any.
pub open spec fn on_of_text(t: Seq<char>) -> Option<On> {
    if t == "build"@ {
        Some(On::build)
    } else if t == "boot"@ {
        Some(On::boot)
    } else {
        None
    }
}

/// The scope a declared text names, if any.
pub open spec fn scope_of_text(t: Seq<char>) -> Option<As> {
    if t == "system"@ {
        Some(As::system)
    } else if t == "user"@ {
        Some(As::user)
    } else {
        None
    }
}

/// Reads a declared manager name.
pub fn parse_manager(s: &str) -> (r: Option<Manager>)
    ensures
        r == manager_of_text(s@),
{
    if crate::strings::str_eq(s, "dnf") {
        Some(Manager::dnf)
    } else if crate::strings::str_eq(s, "dnf5") {
        Some(Manager::dnf5)
    } else if crate::strings::str_eq(s, "flatpak") {
        Some(Manager::flatpak)
    } else {
        None
    }
}

/// Reads a declared action name.
pub fn parse_action(s: &str) -> (r: Option<Action>)
    ensures
        r == action_of_text(s@),
{
    if crate::strings::str_eq(s, "install") {
        Some(Action::install)
    } else if crate::strings::str_eq(s, "uninstall") {
        Some(Action::uninstall)
    } else if crate::strings::str_eq(s, "add_remote") {
        Some(Action::add_remote)
    } else if crate::strings::str_eq(s, "remove_remote") {
        Some(Action::remove_remote)
    } else {
        None
    }
}

/// Reads a declared timing name.
pub fn parse_on(s: &str) -> (r: Option<On>)
    ensures
        r == on_of_text(s@),
{
    if crate::strings::str_eq(s, "build") {
        Some(On::build)
    } else if crate::strings::str_eq(s, "boot") {
        Some(On::boot)
    } else {
        None
    }
}

/// Reads a declared scope name.
pub fn parse_scope(s: &str) -> (r: Option<As>)
    ensures
        r == scope_of_text(s@),
{
    if crate::strings::str_eq(s, "system") {
        Some(As::system)
    } else if crate::strings::str_eq(s, "user") {
        Some(As::user)
    } else {
        None
    }
}

/// A document's `manager` field is well-formed: absent, or a string
/// naming a manager.
pub open spec fn manager_field_wf(s: Seq<char>) -> bool {
    json_has_field(s, "manager"@) ==> (json_str_field(s, "manager"@) matches Some(t)
        && manager_of_text(t) is Some)
}

/// The manager a document declares, defaulting to dnf.
pub open spec fn manager_field_of(s: Seq<char>) -> Manager {
    if json_has_field(s, "manager"@) {
        match manager_of_text(opt_seq(json_str_field(s, "manager"@))) {
            Some(m) => m,
            None => Manager::dnf,
        }
    } else {
        Manager::dnf
    }
}

/// A document's `action` field is well-formed: absent, or a string naming
/// an action.
pub open spec fn action_field_wf(s: Seq<char>) -> bool {
    json_has_field(s, "action"@) ==> (json_str_field(s, "action"@) matches Some(t)
        && action_of_text(t) is Some)
}

/// The action a document declares, defaulting to install.
pub open spec fn action_field_of(s: Seq<char>) -> Action {
    if json_has_field(s, "action"@) {
        match action_of_text(opt_seq(json_str_field(s, "action"@))) {
            Some(a) => a,
            None => Action::install,
        }
    } else {
        Action::install
    }
}

/// A document's `on` field is well-formed: absent, or a string naming a
/// timing.
pub open spec fn on_field_wf(s: Seq<char>) -> bool {
    json_has_field(s, "on"@) ==> (json_str_field(s, "on"@) matches Some(t) && on_of_text(t)
        is Some)
}

/// The timing a document declares, defaulting to build.
pub open spec fn on_field_of(s: Seq<char>) -> On {
    if json_has_field(s, "on"@) {
        match on_of_text(opt_seq(json_str_field(s, "on"@))) {
            Some(o) => o,
            None => On::build,
        }
    } else {
        On::build
    }
}

/// A document's `as` field is well-formed: absent, or a string naming a
/// scope.
pub open spec fn scope_field_wf(s: Seq<char>) -> bool {
    json_has_field(s, "as"@) ==> (json_str_field(s, "as"@) matches Some(t) && scope_of_text(t)
        is Some)
}

/// The scope a document declares, defaulting to system.
pub open spec fn scope_field_of(s: Seq<char>) -> As {
    if json_has_field(s, "as"@) {
        match scope_of_text(opt_seq(json_str_field(s, "as"@))) {
            Some(a) => a,
            None => As::system,
        }
    } else {
        As::system
    }
}

/// Reads a document's `manager` field.
pub fn read_manager_field(s: &str) -> (r: Result<Manager, String>)
    ensures
        r is Ok <==> manager_field_wf(s@),
        r matches Ok(m) ==> m == manager_field_of(s@),
{
    match optional_string_field(s, "manager") {
        Ok(None) => Ok(Manager::default()),
        Ok(Some(t)) => match parse_manager(t.as_str()) {
            Some(m) => Ok(m),
            None => Err(field_error("unknown variant in", "manager")),
        },
        Err(e) => Err(e),
    }
}

/// Reads a document's `action` field.
pub fn read_action_field(s: &str) -> (r: Result<Action, String>)
    ensures
        r is Ok <==> action_field_wf(s@),
        r matches Ok(a) ==> a == action_field_of(s@),
{
    match optional_string_field(s, "action") {
        Ok(None) => Ok(Action::default()),
        Ok(Some(t)) => match parse_action(t.as_str()) {
            Some(a) => Ok(a),
            None => Err(field_error("unknown variant in", "action")),
        },
        Err(e) => Err(e),
    }
}

/// Reads a document's `on` field.
pub fn read_on_field(s: &str) -> (r: Result<On, String>)
    ensures
        r is Ok <==> on_field_wf(s@),
        r matches Ok(o) ==> o == on_field_of(s@),
{
    match optional_string_field(s, "on") {
        Ok(None) => Ok(On::default()),
        Ok(Some(t)) => match parse_on(t.as_str()) {
            Some(o) => Ok(o),
            None => Err(field_error("unknown variant in", "on")),
        },
        Err(e) => Err(e),
    }
}

/// Reads a document's `as` field.
pub fn read_scope_field(s: &str) -> (r: Result<As, String>)
    ensures
        r is Ok <==> scope_field_wf(s@),
        r matches Ok(a) ==> a == scope_field_of(s@),
{
    match optional_string_field(s, "as") {
        Ok(None) => Ok(As::default()),
        Ok(Some(t)) => match parse_scope(t.as_str()) {
            Some(a) => Ok(a),
            None => Err(field_error("unknown variant in", "as")),
        },
        Err(e) => Err(e),
    }
}

/// Maps a manager-action pair and the declared lists to the literal
/// command line, or to the fixed sentinel on the two unsupported cells.
pub fn synthesize_command(
    manager: Manager,
    action: Action,
    packages: &Vec<String>,
    remotes: &Vec<String>,
    args: &Vec<String>,
) -> (r: String)
    ensures
        unsupported(manager, action) ==> r@ == unsupported_text(action),
        !unsupported(manager, action) ==> r@ == command_text(
            manager,
            action,
            packages.deep_view(),
            remotes.deep_view(),
            args.deep_view(),
        ),
{
    match (manager, action) {
        (Manager::dnf, Action::add_remote) => {
            return String::from_str("Error: add_remote is not supported on dnf");
        },
        (Manager::dnf, Action::remove_remote) => {
            return String::from_str("Error: remove_remote is not supported on dnf");
        },
        _ => {},
    }
    let mgr: &str = match manager {
        Manager::dnf => "dnf",
        Manager::dnf5 => "dnf5",
        Manager::flatpak => "flatpak",
    };
    let act: &str = match (manager, action) {
        (Manager::dnf, _) => match action {
            Action::install => "install -y",
            _ => "uninstall -y",
        },
        (Manager::dnf5, _) => match action {
            Action::install => "install -y",
            Action::uninstall => "uninstall -y",
            Action::add_remote => "-y copr enable",
            Action::remove_remote => "-y copr remove",
        },
        (Manager::flatpak, _) => match action {
            Action::install => "install --noninteractive",
            Action::uninstall => "uninstall --noninteractive",
            Action::add_remote => "remote-add --if-not-exists",
            Action::remove_remote => "remote-delete",
        },
    };
    let targets: &Vec<String> = match action {
        Action::install | Action::uninstall => packages,
        Action::add_remote | Action::remove_remote => remotes,
    };
    let mut r = String::from_str(mgr);
    r.append(" ");
    r.append(act);
    r.append(" ");
    let joined_args = join_strings(args, " ");
    r.append(joined_args.as_str());
    r.append(" ");
    let joined_targets = join_strings(targets, " ");
    r.append(joined_targets.as_str());
    r
}

} // verus!

