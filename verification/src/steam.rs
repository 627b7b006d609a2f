//! The probe for installations made with Steam.
//!
//! The Steam client lists its library folders, and the applications in
//! each, in one key-value file, and the accounts that signed in on this
//! machine in another.

use vstd::prelude::*;
use crate::candidate::{views_of, Candidate, CandidateView};
use crate::paths::{join, join_of};
use crate::probe::{ProbeError, RegistryName, RegistryValue, RegistryValueView};
use crate::text::same_text;

verus! {

/// The application identifier of the game on Steam.
pub const STEAM_APP_ID: &'static str = "1659040";

/// The application identifier of the game's free starter pack on Steam.
pub const STEAM_STARTER_APP_ID: &'static str = "1847520";

/// The name of the game's folder under a library's `steamapps\common`.
pub const STEAM_GAME_DIR: &'static str = "HITMAN 3";

/// One library folder of the Steam client.
#[derive(Debug)]
pub struct SteamLibraryFolder {
    /// Where the library lies.
    pub path: String,
    /// The identifiers of the applications installed in it.
    pub apps: Vec<String>,
}

/// A library folder as a mathematical value.
pub struct SteamLibraryFolderView {
    pub path: Seq<char>,
    pub apps: Seq<Seq<char>>,
}

impl View for SteamLibraryFolder {
    type V = SteamLibraryFolderView;

    open spec fn view(&self) -> SteamLibraryFolderView {
        SteamLibraryFolderView { path: self.path@, apps: self.apps@.map_values(|id: String| id@) }
    }
}

/// One account known to the Steam client.
#[derive(Debug)]
pub struct SteamUser {
    /// The name that the account shows to others.
    pub persona_name: String,
    /// Whether the account was the last to sign in.
    pub most_recent: bool,
}

/// An account as a mathematical value.
pub struct SteamUserView {
    pub persona_name: Seq<char>,
    pub most_recent: bool,
}

impl View for SteamUser {
    type V = SteamUserView;

    open spec fn view(&self) -> SteamUserView {
        SteamUserView { persona_name: self.persona_name@, most_recent: self.most_recent }
    }
}

/// The views of a list of library folders, in order.
pub open spec fn folder_views(list: Seq<SteamLibraryFolder>) -> Seq<SteamLibraryFolderView> {
    list.map_values(|f: SteamLibraryFolder| f@)
}

/// The views of a list of accounts, in order.
pub open spec fn user_views(list: Seq<SteamUser>) -> Seq<SteamUserView> {
    list.map_values(|u: SteamUser| u@)
}

/// Whether the identifier is one of the two under which Steam sells the
/// game.
pub open spec fn is_game_id(id: Seq<char>) -> bool {
    id == STEAM_APP_ID@ || id == STEAM_STARTER_APP_ID@
}

/// Whether the library folder holds the game.
pub open spec fn has_game(folder: SteamLibraryFolderView) -> bool {
    exists|i: int| 0 <= i < folder.apps.len() && is_game_id(#[trigger] folder.apps[i])
}

/// The game's folder inside a library.
pub open spec fn game_dir_of(library: Seq<char>) -> Seq<char> {
    join_of(join_of(join_of(library, "steamapps"@), "common"@), STEAM_GAME_DIR@)
}

/// The name of the first account marked as the most recent.
pub open spec fn most_recent_of(users: Seq<SteamUserView>) -> Option<Seq<char>>
    decreases users.len(),
{
    if users.len() == 0 {
        None
    } else if users[0].most_recent {
        Some(users[0].persona_name)
    } else {
        most_recent_of(users.drop_first())
    }
}

/// One candidate for each library folder that holds the game, in order, all
/// under the given account name.
pub open spec fn steam_found(folders: Seq<SteamLibraryFolderView>, name: Seq<char>) -> Seq<CandidateView>
    decreases folders.len(),
{
    if folders.len() == 0 {
        Seq::empty()
    } else {
        let earlier = steam_found(folders.drop_last(), name);
        if has_game(folders.last()) {
            earlier.push(CandidateView { path: game_dir_of(folders.last().path), display_name: Some(name) })
        } else {
            earlier
        }
    }
}

/// The candidates of the probe. `None` stands for a file that is absent or
/// does not parse. Without the library file, without the accounts file, or
/// without a most recent account, the probe finds nothing.
pub open spec fn steam_candidates(
    folders: Option<Seq<SteamLibraryFolderView>>,
    users: Option<Seq<SteamUserView>>,
) -> Seq<CandidateView> {
    match (folders, users) {
        (Some(fs), Some(us)) => match most_recent_of(us) {
            Some(name) => steam_found(fs, name),
            None => Seq::empty(),
        },
        _ => Seq::empty(),
    }
}

/// The outcome of the probe. Without the registry value the source is not
/// in use; a value that is no string is an error.
pub open spec fn steam_outcome(
    path: RegistryValueView,
    folders: Option<Seq<SteamLibraryFolderView>>,
    users: Option<Seq<SteamUserView>>,
) -> Result<Seq<CandidateView>, ProbeError> {
    match path {
        RegistryValueView::Missing => Ok(Seq::empty()),
        RegistryValueView::Other => Err(ProbeError::NotText(RegistryName::SteamPath)),
        RegistryValueView::Text(_) => Ok(steam_candidates(folders, users)),
    }
}

/// The files of the Steam client that the probe reads.
#[derive(Debug)]
pub struct SteamFiles {
    /// The list of library folders, where current clients keep it.
    pub library_folders: String,
    /// The list of library folders, where older clients kept it; read
    /// where the first does not exist.
    pub library_folders_fallback: String,
    /// The list of accounts.
    pub login_users: String,
}

/// The files to read, given the client's folder.
pub fn steam_files(steam_path: &str) -> (files: SteamFiles)
    ensures
        files.library_folders@ == join_of(join_of(steam_path@, "config"@), "libraryfolders.vdf"@),
        files.library_folders_fallback@ == join_of(join_of(steam_path@, "steamapps"@), "libraryfolders.vdf"@),
        files.login_users@ == join_of(join_of(steam_path@, "config"@), "loginusers.vdf"@),
{
    let config = join(steam_path, "config");
    let steamapps = join(steam_path, "steamapps");
    SteamFiles {
        library_folders: join(config.as_str(), "libraryfolders.vdf"),
        library_folders_fallback: join(steamapps.as_str(), "libraryfolders.vdf"),
        login_users: join(config.as_str(), "loginusers.vdf"),
    }
}

/// Whether the library folder lists the game among its applications.
pub fn holds_game(folder: &SteamLibraryFolder) -> (held: bool)
    ensures
        held == has_game(folder@),
{
    let mut i: usize = 0;
    while i < folder.apps.len()
        invariant
            i <= folder.apps@.len(),
            forall|k: int| 0 <= k < i ==> !is_game_id(#[trigger] folder@.apps[k]),
        decreases folder.apps@.len() - i,
    {
        let id = folder.apps[i].as_str();
        assert(folder@.apps[i as int] == id@);
        if same_text(id, STEAM_APP_ID) || same_text(id, STEAM_STARTER_APP_ID) {
            return true;
        }
        i += 1;
    }
    false
}

/// The game's folder inside the library at `library`.
pub fn game_dir(library: &str) -> (dir: String)
    ensures
        dir@ == game_dir_of(library@),
{
    let a = join(library, "steamapps");
    let b = join(a.as_str(), "common");
    join(b.as_str(), STEAM_GAME_DIR)
}

/// The name of the account that signed in last: the first in the list that
/// is marked so.
pub fn most_recent_user(users: &Vec<SteamUser>) -> (name: Option<&String>)
    ensures
        match name {
            Some(n) => most_recent_of(user_views(users@)) == Some(n@),
            None => most_recent_of(user_views(users@)) is None,
        },
{
    let mut i: usize = 0;
    assert(user_views(users@).skip(0) =~= user_views(users@));
    while i < users.len()
        invariant
            i <= users@.len(),
            most_recent_of(user_views(users@)) == most_recent_of(user_views(users@).skip(i as int)),
        decreases users@.len() - i,
    {
        assert(user_views(users@).skip(i as int).drop_first() =~= user_views(users@).skip(i + 1));
        assert(user_views(users@).skip(i as int)[0] == users@[i as int]@);
        if users[i].most_recent {
            return Some(&users[i].persona_name);
        }
        i += 1;
    }
    None
}

/// Reads the candidates out of the parsed files of the client.
pub fn steam_from_files(folders: Option<&Vec<SteamLibraryFolder>>, users: Option<&Vec<SteamUser>>) -> (found:
    Vec<Candidate>)
    ensures
        views_of(found@) == steam_candidates(
            match folders { Some(fs) => Some(folder_views(fs@)), None => None },
            match users { Some(us) => Some(user_views(us@)), None => None },
        ),
{
    let mut found: Vec<Candidate> = Vec::new();
    assert(views_of(found@) =~= Seq::empty());
    let folders = match folders {
        Some(folders) => folders,
        None => { return found; },
    };
    let users = match users {
        Some(users) => users,
        None => { return found; },
    };
    let name = match most_recent_user(users) {
        Some(name) => name,
        None => { return found; },
    };
    let mut i: usize = 0;
    assert(folder_views(folders@).take(0) =~= Seq::empty());
    while i < folders.len()
        invariant
            i <= folders@.len(),
            views_of(found@) == steam_found(folder_views(folders@).take(i as int), name@),
        decreases folders@.len() - i,
    {
        let ghost upto = folder_views(folders@).take(i + 1);
        assert(upto.drop_last() =~= folder_views(folders@).take(i as int));
        assert(upto.last() == folders@[i as int]@);
        let ghost kept = views_of(found@);
        if holds_game(&folders[i]) {
            let dir = game_dir(folders[i].path.as_str());
            found.push(Candidate::new(dir, Some(name.clone())));
            assert(views_of(found@) =~= kept.push(
                CandidateView { path: game_dir_of(folders@[i as int]@.path), display_name: Some(name@) },
            ));
        }
        i += 1;
    }
    assert(folder_views(folders@).take(i as int) =~= folder_views(folders@));
    found
}

/// Probes for installations made with Steam, given the registry value that
/// names the client's folder and the parsed files; `None` stands for a file
/// that is absent or does not parse.
pub fn probe_steam(
    path: &RegistryValue,
    folders: Option<&Vec<SteamLibraryFolder>>,
    users: Option<&Vec<SteamUser>>,
) -> (outcome: Result<Vec<Candidate>, ProbeError>)
    ensures
        match outcome {
            Ok(found) => steam_outcome(
                path@,
                match folders { Some(fs) => Some(folder_views(fs@)), None => None },
                match users { Some(us) => Some(user_views(us@)), None => None },
            ) == Ok::<Seq<CandidateView>, ProbeError>(views_of(found@)),
            Err(error) => steam_outcome(
                path@,
                match folders { Some(fs) => Some(folder_views(fs@)), None => None },
                match users { Some(us) => Some(user_views(us@)), None => None },
            ) == Err::<Seq<CandidateView>, ProbeError>(error),
        },
{
    match path {
        RegistryValue::Missing => {
            let nothing: Vec<Candidate> = Vec::new();
            assert(views_of(nothing@) =~= Seq::empty());
            Ok(nothing)
        },
        RegistryValue::Other => Err(ProbeError::NotText(RegistryName::SteamPath)),
        RegistryValue::Text(_) => Ok(steam_from_files(folders, users)),
    }
}

} // verus!
