//! The idempotent boot-persistence protocol, stated over a model of its
//! two on-disk artifacts. For one plugin and one scope the protocol owns a
//! script file, appended to on every call (creating it on the first), and
//! a service-unit file, written once and never touched again. The model
//! holds each file's content, or `None` while the file does not exist;
//! an embedder maps the model to real files under the recipe's includes
//! directory.

use vstd::prelude::*;

verus! {

/// The two artifacts of one (plugin, scope) pair: the boot script and the
/// service unit. `None` means the file does not exist yet.
#[derive(Clone)]
pub struct ScopeFiles {
    pub script: Option<String>,
    pub unit: Option<String>,
}

/// The mathematical shadow of `ScopeFiles`: each file as a `Seq<char>`.
pub ghost struct ScopeFilesV {
    pub script: Option<Seq<char>>,
    pub unit: Option<Seq<char>>,
}

impl View for ScopeFiles {
    type V = ScopeFilesV;

    open spec fn view(&self) -> ScopeFilesV {
        ScopeFilesV { script: self.script.deep_view(), unit: self.unit.deep_view() }
    }
}

/// Both scopes of one plugin. A plugin's system and user artifacts live at
/// disjoint paths, so one call touches exactly one of the two halves.
#[derive(Clone)]
pub struct PluginFs {
    pub system: ScopeFiles,
    pub user: ScopeFiles,
}

/// The mathematical shadow of `PluginFs`.
pub ghost struct PluginFsV {
    pub system: ScopeFilesV,
    pub user: ScopeFilesV,
}

impl View for PluginFs {
    type V = PluginFsV;

    open spec fn view(&self) -> PluginFsV {
        PluginFsV { system: self.system@, user: self.user@ }
    }
}

impl PluginFs {
    /// Both files of both scopes absent: the state before the first call
    /// of a build.
    pub fn empty() -> (r: PluginFs)
        ensures
            r@ == empty_plugin_fs(),
    {
        PluginFs {
            system: ScopeFiles { script: None, unit: None },
            user: ScopeFiles { script: None, unit: None },
        }
    }
}

/// The model of a filesystem with no artifacts yet.
pub open spec fn empty_plugin_fs() -> PluginFsV {
    PluginFsV {
        system: ScopeFilesV { script: None, unit: None },
        user: ScopeFilesV { script: None, unit: None },
    }
}

/// The script's content, with a missing file reading as empty.
pub open spec fn script_text(files: ScopeFilesV) -> Seq<char> {
    match files.script {
        Some(s) => s,
        None => Seq::empty(),
    }
}

/// One call of the protocol on one scope: the script grows by `addition`
/// (coming to exist if it did not), and the unit is created with
/// `unit_content` only if absent — an existing unit is never regenerated,
/// even if its template changed since.
pub open spec fn boot_step(
    files: ScopeFilesV,
    addition: Seq<char>,
    unit_content: Seq<char>,
) -> ScopeFilesV {
    ScopeFilesV {
        script: Some(script_text(files) + addition),
        unit: match files.unit {
            Some(u) => Some(u),
            None => Some(unit_content),
        },
    }
}

/// Runs one call of the protocol against the model.
pub fn apply_boot(files: &mut ScopeFiles, addition: &str, unit_content: &str)
    ensures
        final(files)@ == boot_step(old(files)@, addition@, unit_content@),
{
    let new_script: String = match files.script.take() {
        Some(mut s) => {
            s.append(addition);
            s
        },
        None => String::from_str(addition),
    };
    files.script = Some(new_script);
    if files.unit.is_none() {
        files.unit = Some(String::from_str(unit_content));
    }
}

/// The protocol repeated over one scope, one script addition per call,
/// with the same unit template throughout.
pub open spec fn boot_steps(
    files: ScopeFilesV,
    additions: Seq<Seq<char>>,
    unit_content: Seq<char>,
) -> ScopeFilesV
    decreases additions.len(),
{
    if additions.len() == 0 {
        files
    } else {
        boot_steps(boot_step(files, additions[0], unit_content), additions.drop_first(), unit_content)
    }
}

/// One more call at the end of a repetition is one more protocol step.
pub proof fn lemma_boot_steps_push(
    files: ScopeFilesV,
    additions: Seq<Seq<char>>,
    a: Seq<char>,
    unit_content: Seq<char>,
)
    ensures
        boot_steps(files, additions.push(a), unit_content) == boot_step(
            boot_steps(files, additions, unit_content),
            a,
            unit_content,
        ),
    decreases additions.len(),
{
    if additions.len() == 0 {
        assert(additions.push(a).drop_first() =~= additions);
        assert(additions.push(a)[0] == a);
        let stepped = boot_step(files, a, unit_content);
        assert(boot_steps(files, additions.push(a), unit_content) == boot_steps(
            stepped,
            additions,
            unit_content,
        ));
        assert(boot_steps(stepped, additions, unit_content) == stepped);
        assert(boot_steps(files, additions, unit_content) == files);
    } else {
        assert(additions.push(a).drop_first() =~= additions.drop_first().push(a));
        assert(additions.push(a)[0] == additions[0]);
        let stepped = boot_step(files, additions[0], unit_content);
        lemma_boot_steps_push(stepped, additions.drop_first(), a, unit_content);
        assert(boot_steps(files, additions.push(a), unit_content) == boot_steps(
            stepped,
            additions.drop_first().push(a),
            unit_content,
        ));
        assert(boot_steps(files, additions, unit_content) == boot_steps(
            stepped,
            additions.drop_first(),
            unit_content,
        ));
    }
}

/// All parts concatenated in order.
pub open spec fn concat_all(parts: Seq<Seq<char>>) -> Seq<char>
    decreases parts.len(),
{
    if parts.len() == 0 {
        Seq::empty()
    } else {
        parts[0] + concat_all(parts.drop_first())
    }
}

/// Appending one part extends the concatenation at its end.
pub proof fn lemma_concat_all_push(parts: Seq<Seq<char>>, x: Seq<char>)
    ensures
        concat_all(parts.push(x)) == concat_all(parts) + x,
    decreases parts.len(),
{
    if parts.len() == 0 {
        assert(parts.push(x).drop_first() =~= parts);
        assert(parts.push(x)[0] == x);
        assert(x + concat_all(parts) =~= concat_all(parts) + x);
    } else {
        assert(parts.push(x).drop_first() =~= parts.drop_first().push(x));
        assert(parts.push(x)[0] == parts[0]);
        lemma_concat_all_push(parts.drop_first(), x);
        assert(parts[0] + (concat_all(parts.drop_first()) + x) =~= (parts[0] + concat_all(
            parts.drop_first(),
        )) + x);
    }
}

/// Repeated calls accumulate the script: after any number of calls the
/// script holds what it held before, followed by every addition in call
/// order — nothing else, nothing reordered.
pub proof fn lemma_script_accumulates(
    files: ScopeFilesV,
    additions: Seq<Seq<char>>,
    unit_content: Seq<char>,
)
    ensures
        script_text(boot_steps(files, additions, unit_content)) == script_text(files)
            + concat_all(additions),
    decreases additions.len(),
{
    if additions.len() == 0 {
        assert(script_text(files) + concat_all(additions) =~= script_text(files));
    } else {
        let stepped = boot_step(files, additions[0], unit_content);
        lemma_script_accumulates(stepped, additions.drop_first(), unit_content);
        assert(script_text(files) + additions[0] + concat_all(additions.drop_first())
            =~= script_text(files) + concat_all(additions));
    }
}

/// An existing unit survives any number of further calls unchanged.
pub proof fn lemma_unit_preserved(
    files: ScopeFilesV,
    additions: Seq<Seq<char>>,
    unit_content: Seq<char>,
)
    requires
        files.unit is Some,
    ensures
        boot_steps(files, additions, unit_content).unit == files.unit,
    decreases additions.len(),
{
    if additions.len() > 0 {
        lemma_unit_preserved(
            boot_step(files, additions[0], unit_content),
            additions.drop_first(),
            unit_content,
        );
    }
}

/// Idempotence of the unit file: however often the protocol repeats, the
/// unit's content equals its content after the first call.
pub proof fn lemma_unit_idempotent(
    files: ScopeFilesV,
    additions: Seq<Seq<char>>,
    unit_content: Seq<char>,
)
    requires
        additions.len() >= 1,
    ensures
        boot_steps(files, additions, unit_content).unit == boot_step(
            files,
            additions[0],
            unit_content,
        ).unit,
        boot_steps(files, additions, unit_content).unit is Some,
{
    lemma_unit_preserved(
        boot_step(files, additions[0], unit_content),
        additions.drop_first(),
        unit_content,
    );
}

} // verus!
