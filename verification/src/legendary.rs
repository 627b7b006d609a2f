//! The probe for installations made with the Legendary launcher.
//!
//! Legendary keeps a JSON file of what it installed, keyed by application
//! identifier, and beside it a JSON file about the signed-in user.

use vstd::prelude::*;
use crate::candidate::{views_of, Candidate, CandidateView};
use crate::json::{json_document, member_of, member_text_of, Json};
use crate::paths::{join, join_of};

verus! {

/// The identifier under which the Epic store lists the game.
pub const EPIC_APP_NAME: &'static str = "Eider";

/// The bytes of a file that may be absent.
pub open spec fn bytes_view(bytes: Option<&[u8]>) -> Option<Seq<u8>> {
    match bytes {
        Some(b) => Some(b@),
        None => None,
    }
}

/// The document in a file that may be absent: `None` where there is no
/// file or its bytes are not JSON.
pub open spec fn document_of(bytes: Option<Seq<u8>>) -> Option<Json> {
    match bytes {
        Some(b) => json_document(b),
        None => None,
    }
}

/// The display name in the user file.
pub open spec fn legendary_user_of(user: Option<Json>) -> Option<Seq<char>> {
    match user {
        Some(doc) => member_text_of(doc, "displayName"@),
        None => None,
    }
}

/// What the two documents yield: one candidate where the installed file
/// lists the game with an install path and the user file names the user,
/// nothing otherwise.
pub open spec fn legendary_candidates(installed: Option<Json>, user: Option<Json>) -> Seq<CandidateView> {
    match installed {
        Some(doc) => match member_of(doc, EPIC_APP_NAME@) {
            Some(entry) => match (member_text_of(entry, "install_path"@), legendary_user_of(user)) {
                (Some(path), Some(name)) => seq![CandidateView { path: path, display_name: Some(name) }],
                _ => Seq::empty(),
            },
            None => Seq::empty(),
        },
        None => Seq::empty(),
    }
}

/// The folder in which Legendary keeps its files, under the user's profile.
pub open spec fn legendary_dir_of(profile: Seq<char>) -> Seq<char> {
    join_of(join_of(profile, ".config"@), "legendary"@)
}

/// The files that the probe reads: the list of installed games and the
/// user file, in that order.
pub fn legendary_files(profile: &str) -> (files: (String, String))
    ensures
        files.0@ == join_of(legendary_dir_of(profile@), "installed.json"@),
        files.1@ == join_of(legendary_dir_of(profile@), "user.json"@),
{
    let config = join(profile, ".config");
    let dir = join(config.as_str(), "legendary");
    (join(dir.as_str(), "installed.json"), join(dir.as_str(), "user.json"))
}

/// Reads the candidate out of the two parsed documents.
pub fn legendary_from_documents(installed: Option<&Json>, user: Option<&Json>) -> (found: Vec<Candidate>)
    ensures
        views_of(found@) == legendary_candidates(
            match installed { Some(d) => Some(*d), None => None },
            match user { Some(d) => Some(*d), None => None },
        ),
{
    let mut found: Vec<Candidate> = Vec::new();
    assert(views_of(found@) =~= Seq::empty());
    let doc = match installed {
        Some(doc) => doc,
        None => { return found; },
    };
    let entry = match doc.member(EPIC_APP_NAME) {
        Some(entry) => entry,
        None => { return found; },
    };
    let path = match entry.member_text("install_path") {
        Some(path) => path,
        None => { return found; },
    };
    let user_doc = match user {
        Some(user_doc) => user_doc,
        None => { return found; },
    };
    let name = match user_doc.member_text("displayName") {
        Some(name) => name,
        None => { return found; },
    };
    found.push(Candidate::new(path.clone(), Some(name.clone())));
    assert(views_of(found@) =~= seq![CandidateView { path: path@, display_name: Some(name@) }]);
    found
}

/// Probes for a Legendary installation, given the bytes of the two files;
/// `None` stands for a file that is absent or cannot be read.
pub fn probe_legendary(installed: Option<&[u8]>, user: Option<&[u8]>) -> (found: Vec<Candidate>)
    ensures
        views_of(found@) == legendary_candidates(
            document_of(bytes_view(installed)),
            document_of(bytes_view(user)),
        ),
        installed is None ==> found@.len() == 0,
{
    let installed_doc = match installed {
        Some(bytes) => Json::parse(bytes),
        None => None,
    };
    let user_doc = match user {
        Some(bytes) => Json::parse(bytes),
        None => None,
    };
    legendary_from_documents(installed_doc.as_ref(), user_doc.as_ref())
}

} // verus!
