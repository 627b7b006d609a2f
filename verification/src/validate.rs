//! The structural check that tells a genuine, not yet modified installation
//! from any other directory.

use vstd::prelude::*;
use crate::paths::{join, join_of};

verus! {

/// Name of the subfolder that holds the game's binaries.
pub const RETAIL_DIR: &'static str = "Retail";

/// Name of the subfolder that holds the game's data, found either at the top
/// level of the installation or under the binaries folder.
pub const RUNTIME_DIR: &'static str = "Runtime";

/// File name of the game executable inside the binaries folder.
pub const GAME_EXECUTABLE: &'static str = "HITMAN3.exe";

/// Name of the subfolder that the framework is extracted into.
pub const FRAMEWORK_DIR: &'static str = "Simple Mod Framework";

/// What was observed on disk about one candidate folder.
#[derive(Clone, Copy, Debug, PartialEq, Eq, Structural)]
pub struct FolderMarkers {
    /// `<root>/Retail` is a directory.
    pub retail: bool,
    /// `<root>/Runtime` is a directory.
    pub runtime: bool,
    /// `<root>/Retail/Runtime` is a directory.
    pub retail_runtime: bool,
    /// `<root>/Retail/HITMAN3.exe` is a file.
    pub executable: bool,
    /// `<root>/Simple Mod Framework` is a directory.
    pub framework: bool,
}

/// Outcome of validating one candidate folder.
#[derive(Clone, Copy, Debug, PartialEq, Eq, Structural)]
pub enum ValidationResult {
    /// The folder is a game installation that already holds the framework.
    AlreadyInstalled,
    /// The folder lacks a marker of the game.
    NotAGameFolder,
    /// The folder is a game installation without the framework.
    Valid,
}

/// The folder has every marker of the game: the binaries folder, the data
/// folder in one of its two places, and the executable.
pub open spec fn is_game_folder(m: FolderMarkers) -> bool {
    m.retail && (m.runtime || m.retail_runtime) && m.executable
}

/// The outcome that the markers call for.
pub open spec fn validation_of(m: FolderMarkers) -> ValidationResult {
    if !is_game_folder(m) {
        ValidationResult::NotAGameFolder
    } else if m.framework {
        ValidationResult::AlreadyInstalled
    } else {
        ValidationResult::Valid
    }
}

/// The markers as they are once the framework has been extracted into the
/// folder.
pub open spec fn after_extraction(m: FolderMarkers) -> FolderMarkers {
    FolderMarkers { framework: true, ..m }
}

/// The places under a candidate folder whose existence decides its
/// validation.
#[derive(Debug)]
pub struct MarkerPaths {
    /// Expected to be a directory.
    pub retail: String,
    /// Expected to be a directory.
    pub runtime: String,
    /// Expected to be a directory.
    pub retail_runtime: String,
    /// Expected to be a file.
    pub executable: String,
    /// Expected not to exist.
    pub framework: String,
}

/// The places to look at under the given folder.
pub fn marker_paths(root: &str) -> (places: MarkerPaths)
    ensures
        places.retail@ == join_of(root@, RETAIL_DIR@),
        places.runtime@ == join_of(root@, RUNTIME_DIR@),
        places.retail_runtime@ == join_of(join_of(root@, RETAIL_DIR@), RUNTIME_DIR@),
        places.executable@ == join_of(join_of(root@, RETAIL_DIR@), GAME_EXECUTABLE@),
        places.framework@ == join_of(root@, FRAMEWORK_DIR@),
{
    let retail = join(root, RETAIL_DIR);
    let retail_runtime = join(retail.as_str(), RUNTIME_DIR);
    let executable = join(retail.as_str(), GAME_EXECUTABLE);
    MarkerPaths {
        retail,
        runtime: join(root, RUNTIME_DIR),
        retail_runtime,
        executable,
        framework: join(root, FRAMEWORK_DIR),
    }
}

/// Classifies a folder by its markers.
pub fn validate(markers: FolderMarkers) -> (result: ValidationResult)
    ensures
        result == validation_of(markers),
        result == ValidationResult::Valid <==> is_game_folder(markers) && !markers.framework,
        !markers.retail ==> result == ValidationResult::NotAGameFolder,
{
    if !(markers.retail && (markers.runtime || markers.retail_runtime) && markers.executable) {
        ValidationResult::NotAGameFolder
    } else if markers.framework {
        ValidationResult::AlreadyInstalled
    } else {
        ValidationResult::Valid
    }
}

/// Records that the framework folder now exists under the root.
pub fn mark_extracted(markers: FolderMarkers) -> (result: FolderMarkers)
    ensures
        result == after_extraction(markers),
{
    FolderMarkers { framework: true, ..markers }
}

/// A folder without the binaries subfolder is never a game folder, whatever
/// else it holds.
pub proof fn lemma_missing_retail_is_rejected(m: FolderMarkers)
    requires
        !m.retail,
    ensures
        validation_of(m) == ValidationResult::NotAGameFolder,
{
}

/// A folder with every marker of the game that also holds the framework
/// folder is reported as already installed, never as valid.
pub proof fn lemma_installed_takes_precedence(m: FolderMarkers)
    requires
        m.retail,
        m.runtime || m.retail_runtime,
        m.executable,
        m.framework,
    ensures
        validation_of(m) == ValidationResult::AlreadyInstalled,
        validation_of(m) != ValidationResult::Valid,
{
}

/// Extracting the framework into a valid folder turns it into an installed
/// one: a second validation no longer offers it.
pub proof fn lemma_extraction_installs(m: FolderMarkers)
    requires
        validation_of(m) == ValidationResult::Valid,
    ensures
        validation_of(after_extraction(m)) == ValidationResult::AlreadyInstalled,
{
}

} // verus!
