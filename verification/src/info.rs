//! The metadata document. Every plugin answers its metadata call with one
//! fixed JSON object of exactly three fields: its name, its type encoded
//! as "0" (build) or "1" (finalize), and whether it wants container
//! commands, encoded as a bare 0 or 1.

use vstd::prelude::*;
use crate::recipe::{PluginInfo, PluginType};

verus! {

/// "0" for a build plugin, "1" for a finalize plugin.
pub open spec fn plugin_type_code(t: PluginType) -> Seq<char> {
    if t is BuildPlugin {
        "0"@
    } else {
        "1"@
    }
}

/// A flag rendered as a bare JSON 0 or 1.
pub open spec fn flag_code(b: bool) -> Seq<char> {
    if b {
        "1"@
    } else {
        "0"@
    }
}

/// The exact metadata document for a given identity triple.
pub open spec fn info_text(name: Seq<char>, kind: PluginType, use_container_cmds: bool) -> Seq<
    char,
> {
    "{\"Name\":\""@ + name + "\",\"Type\":\""@ + plugin_type_code(kind)
        + "\",\"Usecontainercmds\":"@ + flag_code(use_container_cmds) + "}"@
}

/// Encodes a plugin's identity as its metadata document. Pure and cheap:
/// callers may invoke it on every metadata call without caching.
pub fn plugin_info_json(info: &PluginInfo) -> (r: String)
    ensures
        r@ == info_text(info.name@, info.kind, info.use_container_cmds),
{
    let mut r = String::from_str("{\"Name\":\"");
    r.append(info.name.as_str());
    r.append("\",\"Type\":\"");
    r.append(
        match info.kind {
            PluginType::BuildPlugin => "0",
            PluginType::FinalizePlugin => "1",
        },
    );
    r.append("\",\"Usecontainercmds\":");
    r.append(if info.use_container_cmds { "1" } else { "0" });
    r.append("}");
    r
}

} // verus!
