//! The shared build context. A recipe describes one container build: its
//! identity and the paths the host lays out for it. Every plugin call
//! receives one context document, read-only and fresh; of its fields only
//! `includes_path` matters here — it roots all persisted boot artifacts.
//! The document's stages are opaque passthrough for the host: a plugin
//! validates their shape and never carries or reads them, so the decoded
//! context holds the path and identity fields alone.

use vstd::prelude::*;
use std::collections::HashMap;
use crate::json::{json_ok, json_has_field, json_array_field, str_field_wf, str_field_of,
    check_json, read_has_field, read_array_field, defaulted_string_field, field_error};

verus! {

/// The build context handed to every call.
#[derive(Clone, Debug)]
pub struct Recipe {
    pub name: String,
    pub id: String,
    pub vib_version: String,
    pub path: String,
    pub parent_path: String,
    pub downloads_path: String,
    pub sources_path: String,
    pub includes_path: String,
    pub plugin_path: String,
    pub container_file: String,
}

/// The mathematical shadow of a context.
pub ghost struct RecipeV {
    pub name: Seq<char>,
    pub id: Seq<char>,
    pub vib_version: Seq<char>,
    pub path: Seq<char>,
    pub parent_path: Seq<char>,
    pub downloads_path: Seq<char>,
    pub sources_path: Seq<char>,
    pub includes_path: Seq<char>,
    pub plugin_path: Seq<char>,
    pub container_file: Seq<char>,
}

impl View for Recipe {
    type V = RecipeV;

    open spec fn view(&self) -> RecipeV {
        RecipeV {
            name: self.name@,
            id: self.id@,
            vib_version: self.vib_version@,
            path: self.path@,
            parent_path: self.parent_path@,
            downloads_path: self.downloads_path@,
            sources_path: self.sources_path@,
            includes_path: self.includes_path@,
            plugin_path: self.plugin_path@,
            container_file: self.container_file@,
        }
    }
}

/// One stage of the context document, as the host declares it. Plugins
/// never interpret stages; the type models their schema.
#[derive(Clone, Debug)]
pub struct Stage {
    pub id: String,
    pub base: String,
    pub copy: Vec<Copy>,
    pub add_includes: bool,
    pub labels: HashMap<String, String>,
    pub env: HashMap<String, String>,
    pub adds: Vec<Add>,
    pub args: HashMap<String, String>,
    pub runs: Run,
    pub expose: HashMap<String, String>,
    pub cmd: Cmd,
    pub entrypoint: Entrypoint,
}

/// What a plugin is for: producing build commands, or finalizing.
#[derive(Clone, Copy, PartialEq, Eq, Structural, Debug)]
pub enum PluginType {
    BuildPlugin,
    FinalizePlugin,
}

impl Default for PluginType {
    fn default() -> (r: Self)
        ensures
            r == PluginType::BuildPlugin,
    {
        PluginType::BuildPlugin
    }
}

/// A plugin's identity document: the metadata triple returned, encoded as
/// JSON, by every metadata call.
#[derive(Clone, Debug)]
pub struct PluginInfo {
    pub name: String,
    pub kind: PluginType,
    pub use_container_cmds: bool,
}

/// Configuration for copying files or directories in a stage.
#[derive(Clone, Debug)]
pub struct Copy {
    pub from: String,
    pub src_dst: HashMap<String, String>,
    pub work_dir: String,
}

/// Configuration for adding files or directories in a stage.
#[derive(Clone, Debug)]
pub struct Add {
    pub src_dst: HashMap<String, String>,
    pub work_dir: String,
}

/// Configuration for the entrypoint of a container.
#[derive(Clone, Debug)]
pub struct Entrypoint {
    pub exec_list: Vec<String>,
    pub work_dir: String,
}

/// Configuration for a command to run in the container.
#[derive(Clone, Debug)]
pub struct Cmd {
    pub exec_list: Vec<String>,
    pub work_dir: String,
}

/// Configuration for commands to run in the container.
#[derive(Clone, Debug)]
pub struct Run {
    pub commands: Vec<String>,
    pub work_dir: String,
}

/// One declared source of a recipe.
#[derive(Clone, Debug)]
pub struct Source {
    pub url: String,
    pub checksum: String,
    pub kind: String,
    pub commit: String,
    pub tag: String,
    pub branch: String,
    pub package: Vec<String>,
    pub path: String,
}

/// A well-formed context document: well-formed JSON whose declared fields,
/// where present, are strings — and whose stages, where present, are an
/// array.
pub open spec fn recipe_wf(s: Seq<char>) -> bool {
    &&& (json_has_field(s, "Stages"@) ==> json_array_field(s, "Stages"@))
    &&& str_field_wf(s, "Name"@)
    &&& str_field_wf(s, "Id"@)
    &&& str_field_wf(s, "Vibversion"@)
    &&& str_field_wf(s, "Path"@)
    &&& str_field_wf(s, "ParentPath"@)
    &&& str_field_wf(s, "DownloadsPath"@)
    &&& str_field_wf(s, "SourcesPath"@)
    &&& str_field_wf(s, "IncludesPath"@)
    &&& str_field_wf(s, "PluginPath"@)
    &&& str_field_wf(s, "Containerfile"@)
}

/// The context a well-formed document describes.
pub open spec fn recipe_of(s: Seq<char>) -> RecipeV {
    RecipeV {
        name: str_field_of(s, "Name"@),
        id: str_field_of(s, "Id"@),
        vib_version: str_field_of(s, "Vibversion"@),
        path: str_field_of(s, "Path"@),
        parent_path: str_field_of(s, "ParentPath"@),
        downloads_path: str_field_of(s, "DownloadsPath"@),
        sources_path: str_field_of(s, "SourcesPath"@),
        includes_path: str_field_of(s, "IncludesPath"@),
        plugin_path: str_field_of(s, "PluginPath"@),
        container_file: str_field_of(s, "Containerfile"@),
    }
}

/// Reads the context document: accepted exactly when it is well-formed
/// JSON of the context shape, and then decoded to exactly the context it
/// describes — every field optional, defaulting to empty.
pub fn decode_recipe(s: &str) -> (r: Result<Recipe, String>)
    ensures
        r is Ok <==> json_ok(s@) && recipe_wf(s@),
        r matches Ok(c) ==> c@ == recipe_of(s@),
{
    match check_json(s) {
        Ok(_) => {},
        Err(e) => {
            return Err(e);
        },
    }
    if read_has_field(s, "Stages") && !read_array_field(s, "Stages") {
        return Err(field_error("invalid type: expected an array in", "Stages"));
    }
    let name = match defaulted_string_field(s, "Name") {
        Ok(t) => t,
        Err(e) => {
            return Err(e);
        },
    };
    let id = match defaulted_string_field(s, "Id") {
        Ok(t) => t,
        Err(e) => {
            return Err(e);
        },
    };
    let vib_version = match defaulted_string_field(s, "Vibversion") {
        Ok(t) => t,
        Err(e) => {
            return Err(e);
        },
    };
    let path = match defaulted_string_field(s, "Path") {
        Ok(t) => t,
        Err(e) => {
            return Err(e);
        },
    };
    let parent_path = match defaulted_string_field(s, "ParentPath") {
        Ok(t) => t,
        Err(e) => {
            return Err(e);
        },
    };
    let downloads_path = match defaulted_string_field(s, "DownloadsPath") {
        Ok(t) => t,
        Err(e) => {
            return Err(e);
        },
    };
    let sources_path = match defaulted_string_field(s, "SourcesPath") {
        Ok(t) => t,
        Err(e) => {
            return Err(e);
        },
    };
    let includes_path = match defaulted_string_field(s, "IncludesPath") {
        Ok(t) => t,
        Err(e) => {
            return Err(e);
        },
    };
    let plugin_path = match defaulted_string_field(s, "PluginPath") {
        Ok(t) => t,
        Err(e) => {
            return Err(e);
        },
    };
    let container_file = match defaulted_string_field(s, "Containerfile") {
        Ok(t) => t,
        Err(e) => {
            return Err(e);
        },
    };
    Ok(
        Recipe {
            name,
            id,
            vib_version,
            path,
            parent_path,
            downloads_path,
            sources_path,
            includes_path,
            plugin_path,
            container_file,
        },
    )
}

} // verus!
