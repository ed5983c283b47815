//! Which paths the analyzer accepts as a Soroban project, and which directory
//! entries a walk over a project descends into or analyzes.
use vstd::prelude::*;

use crate::text::{occurs_in, text_contains, text_equals};

verus! {

/// What a path names on disk, as far as project detection cares.
#[derive(Clone, Copy, Debug, PartialEq, Eq, Structural)]
pub enum PathKind {
    File,
    Directory,
    /// Neither a regular file nor a directory (for instance: nothing there).
    Missing,
}

/// Which manifest, if any, has to be read to decide whether a path is a Soroban project.
#[derive(Clone, Copy, Debug, PartialEq, Eq, Structural)]
pub enum ManifestSource {
    /// The decision needs no file content.
    NotNeeded,
    /// The path is itself a `Cargo.toml`: read it.
    ThisFile,
    /// The path is a directory: read the `Cargo.toml` directly inside it.
    CargoTomlInside,
}

/// What a directory walk does with one entry.
#[derive(Clone, Copy, Debug, PartialEq, Eq, Structural)]
pub enum EntryAction {
    /// A directory: walk into it.
    Descend,
    /// A Rust source file: read and analyze it.
    Analyze,
    /// Anything else: leave it.
    Skip,
}

/// The view of an optional string.
pub open spec fn opt_view(o: Option<&str>) -> Option<Seq<char>> {
    match o {
        Some(s) => Some(s@),
        None => None,
    }
}

/// A file name whose extension is `rs`: it ends in `.rs` and has at least one
/// character before that dot (a name such as `.rs` is a hidden file with no extension).
pub open spec fn is_rust_file_name(name: Seq<char>) -> bool {
    &&& name.len() > 3
    &&& name[name.len() - 3] == '.'
    &&& name[name.len() - 2] == 'r'
    &&& name[name.len() - 1] == 's'
}

/// A path whose file name (if it has one) is a Rust source file name.
pub open spec fn names_rust_source(file_name: Option<Seq<char>>) -> bool {
    match file_name {
        Some(n) => is_rust_file_name(n),
        None => false,
    }
}

/// A manifest that was read and that mentions `soroban-sdk`.
pub open spec fn mentions_soroban_sdk(manifest: Option<Seq<char>>) -> bool {
    match manifest {
        Some(content) => occurs_in(content, "soroban-sdk"@),
        None => false,
    }
}

/// Which manifest the decision on a path needs.
pub open spec fn spec_manifest_source(kind: PathKind, file_name: Option<Seq<char>>) -> ManifestSource {
    match kind {
        PathKind::File => if !names_rust_source(file_name) && file_name == Some("Cargo.toml"@) {
            ManifestSource::ThisFile
        } else {
            ManifestSource::NotNeeded
        },
        PathKind::Directory => ManifestSource::CargoTomlInside,
        PathKind::Missing => ManifestSource::NotNeeded,
    }
}

/// A Soroban project: a Rust source file (analysed on its own), a `Cargo.toml`
/// that mentions `soroban-sdk`, or a directory whose `Cargo.toml` does.
/// `manifest` is the content of the manifest that `spec_manifest_source` names,
/// or `None` where there is none or it could not be read.
pub open spec fn spec_is_soroban_project(
    kind: PathKind,
    file_name: Option<Seq<char>>,
    manifest: Option<Seq<char>>,
) -> bool {
    match kind {
        PathKind::File => if names_rust_source(file_name) {
            true
        } else if file_name == Some("Cargo.toml"@) {
            mentions_soroban_sdk(manifest)
        } else {
            false
        },
        PathKind::Directory => mentions_soroban_sdk(manifest),
        PathKind::Missing => false,
    }
}

/// Whether a file name has the extension `rs`.
pub fn is_rust_source(file_name: Option<&str>) -> (r: bool)
    ensures
        r == names_rust_source(opt_view(file_name)),
{
    match file_name {
        None => false,
        Some(name) => {
            let chars = crate::text::chars_of(name);
            let n = chars.len();
            n > 3 && chars[n - 3] == '.' && chars[n - 2] == 'r' && chars[n - 1] == 's'
        },
    }
}

/// Which manifest has to be read before `is_soroban_project` can decide on a path.
pub fn manifest_source(kind: PathKind, file_name: Option<&str>) -> (r: ManifestSource)
    ensures
        r == spec_manifest_source(kind, opt_view(file_name)),
{
    match kind {
        PathKind::File => {
            if is_rust_source(file_name) {
                ManifestSource::NotNeeded
            } else {
                match file_name {
                    Some(name) => if text_equals(name, "Cargo.toml") {
                        ManifestSource::ThisFile
                    } else {
                        ManifestSource::NotNeeded
                    },
                    None => ManifestSource::NotNeeded,
                }
            }
        },
        PathKind::Directory => ManifestSource::CargoTomlInside,
        PathKind::Missing => ManifestSource::NotNeeded,
    }
}

/// Whether a path is a Soroban project the analyzer accepts: a `.rs` file, a
/// `Cargo.toml` naming `soroban-sdk`, or a directory whose `Cargo.toml` does.
/// `manifest` is what was read from the manifest that `manifest_source` names
/// (`None` if nothing was read).
pub fn is_soroban_project(kind: PathKind, file_name: Option<&str>, manifest: Option<&str>) -> (r: bool)
    ensures
        r == spec_is_soroban_project(kind, opt_view(file_name), opt_view(manifest)),
{
    let manifest_mentions_sdk = match manifest {
        Some(content) => text_contains(content, "soroban-sdk"),
        None => false,
    };
    match kind {
        PathKind::File => {
            if is_rust_source(file_name) {
                true
            } else {
                match file_name {
                    Some(name) => text_equals(name, "Cargo.toml") && manifest_mentions_sdk,
                    None => false,
                }
            }
        },
        PathKind::Directory => manifest_mentions_sdk,
        PathKind::Missing => false,
    }
}

/// What an analysis of a path reads.
#[derive(Clone, Copy, Debug, PartialEq, Eq, Structural)]
pub enum AnalysisScope {
    /// Walk the directory and analyze every Rust source file in it, at any depth.
    WalkDirectory,
    /// Walk the directory that holds the path, a contract's `Cargo.toml`.
    WalkManifestDirectory,
    /// Analyze the path itself, a Rust source file.
    SingleFile,
    /// Analyze nothing.
    Nothing,
}

/// What an analysis of a path reads: a directory is walked; a contract's
/// `Cargo.toml` stands for its contract, so the directory that holds it is walked;
/// a path whose name has the extension `rs` is analyzed on its own; anything else
/// yields nothing.
pub open spec fn spec_analysis_scope(kind: PathKind, file_name: Option<Seq<char>>) -> AnalysisScope {
    if kind == PathKind::Directory {
        AnalysisScope::WalkDirectory
    } else if kind == PathKind::File && file_name == Some("Cargo.toml"@) {
        AnalysisScope::WalkManifestDirectory
    } else if names_rust_source(file_name) {
        AnalysisScope::SingleFile
    } else {
        AnalysisScope::Nothing
    }
}

/// What an analysis of a path reads.
pub fn analysis_scope(kind: PathKind, file_name: Option<&str>) -> (r: AnalysisScope)
    ensures
        r == spec_analysis_scope(kind, opt_view(file_name)),
{
    let is_manifest = match file_name {
        Some(name) => text_equals(name, "Cargo.toml"),
        None => false,
    };
    if kind == PathKind::Directory {
        AnalysisScope::WalkDirectory
    } else if kind == PathKind::File && is_manifest {
        AnalysisScope::WalkManifestDirectory
    } else if is_rust_source(file_name) {
        AnalysisScope::SingleFile
    } else {
        AnalysisScope::Nothing
    }
}

/// What a walk does with an entry: descend into directories, analyze Rust
/// source files, skip the rest.
pub open spec fn spec_entry_action(is_dir: bool, file_name: Option<Seq<char>>) -> EntryAction {
    if is_dir {
        EntryAction::Descend
    } else if names_rust_source(file_name) {
        EntryAction::Analyze
    } else {
        EntryAction::Skip
    }
}

/// What a walk over a project does with an entry: descend into directories,
/// analyze Rust source files, skip the rest.
pub fn classify_entry(is_dir: bool, file_name: Option<&str>) -> (r: EntryAction)
    ensures
        r == spec_entry_action(is_dir, opt_view(file_name)),
{
    if is_dir {
        EntryAction::Descend
    } else if is_rust_source(file_name) {
        EntryAction::Analyze
    } else {
        EntryAction::Skip
    }
}

} // verus!
