//! The probe for installations made from the Microsoft Store.
//!
//! The store keeps no file to read. The installed package is asked for
//! through PowerShell, whose answer is a list of lines, each a field's
//! name, a colon and its value.

use vstd::prelude::*;
use crate::candidate::{views_of, Candidate, CandidateView};
use crate::probe::{RegistryValue, RegistryValueView};
use crate::text::{after_first, after_first_of, chars_of, find_line, find_line_of, string_of, trim_chars, trim_of};

verus! {

/// The program that is asked for the package.
pub const PACKAGE_QUERY_PROGRAM: &'static str = "powershell";

/// The command that asks for the game's package.
pub const PACKAGE_QUERY_COMMAND: &'static str = "Get-AppxPackage -Name IOInteractiveAS.PC-HITMAN3-BaseGame";

/// The name of the field that holds the installation folder.
pub const INSTALL_LOCATION_FIELD: &'static str = "InstallLocation";

/// The folder that a line of the answer names: what follows its first
/// colon, without the white space around it.
pub open spec fn field_value_of(line: Seq<char>) -> Seq<char> {
    trim_of(after_first_of(line, ':'))
}

/// The installation folder in the answer: the value of the first line that
/// begins with the field's name.
pub open spec fn install_location_of(answer: Seq<char>) -> Option<Seq<char>> {
    match find_line_of(answer, INSTALL_LOCATION_FIELD@) {
        Some(line) => Some(field_value_of(line)),
        None => None,
    }
}

/// The account name that the gamertag value gives: its text, where it is a
/// string.
pub open spec fn gamertag_of(value: RegistryValueView) -> Option<Seq<char>> {
    match value {
        RegistryValueView::Text(tag) => Some(tag),
        _ => None,
    }
}

/// The candidates of the probe; `None` stands for a query that could not
/// be run.
pub open spec fn microsoft_candidates(answer: Option<Seq<char>>, gamertag: RegistryValueView) -> Seq<
    CandidateView,
> {
    match answer {
        Some(text) => match install_location_of(text) {
            Some(folder) => seq![CandidateView { path: folder, display_name: gamertag_of(gamertag) }],
            None => Seq::empty(),
        },
        None => Seq::empty(),
    }
}

/// Finds the installation folder in the answer to the package query.
pub fn install_location(answer: &str) -> (folder: Option<String>)
    ensures
        match folder {
            Some(f) => install_location_of(answer@) == Some(f@),
            None => install_location_of(answer@) is None,
        },
{
    let chars = chars_of(answer);
    let field = chars_of(INSTALL_LOCATION_FIELD);
    match find_line(&chars, &field) {
        Some(line) => {
            let value = after_first(&line, ':');
            let trimmed = trim_chars(&value);
            Some(string_of(trimmed.as_slice()))
        },
        None => None,
    }
}

/// Probes for an installation from the Microsoft Store, given the answer
/// to the package query, `None` where it could not be run, and the registry
/// value that holds the gamertag.
pub fn probe_microsoft(answer: Option<&str>, gamertag: &RegistryValue) -> (found: Vec<Candidate>)
    ensures
        views_of(found@) == microsoft_candidates(
            match answer { Some(t) => Some(t@), None => None },
            gamertag@,
        ),
{
    let mut found: Vec<Candidate> = Vec::new();
    assert(views_of(found@) =~= Seq::empty());
    let text = match answer {
        Some(text) => text,
        None => { return found; },
    };
    let folder = match install_location(text) {
        Some(folder) => folder,
        None => { return found; },
    };
    let name = match gamertag {
        RegistryValue::Text(tag) => Some(tag.clone()),
        _ => None,
    };
    let ghost expected = CandidateView { path: folder@, display_name: gamertag_of(gamertag@) };
    found.push(Candidate::new(folder, name));
    assert(views_of(found@) =~= seq![expected]);
    found
}

} // verus!
