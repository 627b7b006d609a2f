//! Candidate installation folders, as the platform probes report them.

use vstd::prelude::*;
use crate::text::same_text;

verus! {

/// A folder that a platform's metadata names as the game's installation,
/// with the name of the account it was found for, if one was recovered.
#[derive(Debug)]
pub struct Candidate {
    /// The installation directory.
    pub path: String,
    /// The account's display name.
    pub display_name: Option<String>,
}

/// A candidate as a mathematical value.
pub struct CandidateView {
    pub path: Seq<char>,
    pub display_name: Option<Seq<char>>,
}

/// The characters of an optional string.
pub open spec fn name_view(name: Option<String>) -> Option<Seq<char>> {
    match name {
        Some(s) => Some(s@),
        None => None,
    }
}

impl View for Candidate {
    type V = CandidateView;

    open spec fn view(&self) -> CandidateView {
        CandidateView { path: self.path@, display_name: name_view(self.display_name) }
    }
}

/// The views of a list of candidates, in order.
pub open spec fn views_of(list: Seq<Candidate>) -> Seq<CandidateView> {
    list.map_values(|c: Candidate| c@)
}

/// Copies an optional string.
pub fn copy_name(name: &Option<String>) -> (copy: Option<String>)
    ensures
        name_view(copy) == name_view(*name),
{
    match name {
        Some(s) => Some(s.clone()),
        None => None,
    }
}

impl Candidate {
    /// A candidate for the given folder and account name.
    pub fn new(path: String, display_name: Option<String>) -> (c: Candidate)
        ensures
            c@ == (CandidateView { path: path@, display_name: name_view(display_name) }),
    {
        Candidate { path, display_name }
    }

    /// A copy of this candidate.
    pub fn duplicate(&self) -> (c: Candidate)
        ensures
            c@ == self@,
    {
        Candidate { path: self.path.clone(), display_name: copy_name(&self.display_name) }
    }

    /// Whether two candidates name the same folder for the same account:
    /// both the path and the display name are equal.
    pub fn same_as(&self, other: &Candidate) -> (same: bool)
        ensures
            same == (self@ == other@),
    {
        if !same_text(self.path.as_str(), other.path.as_str()) {
            return false;
        }
        match (&self.display_name, &other.display_name) {
            (Some(a), Some(b)) => same_text(a.as_str(), b.as_str()),
            (None, None) => true,
            _ => false,
        }
    }
}

/// Whether the list holds a candidate equal to the given one.
pub fn holds(list: &Vec<Candidate>, c: &Candidate) -> (found: bool)
    ensures
        found == views_of(list@).contains(c@),
{
    let mut i: usize = 0;
    while i < list.len()
        invariant
            i <= list@.len(),
            forall|k: int| 0 <= k < i ==> views_of(list@)[k] != c@,
        decreases list@.len() - i,
    {
        if list[i].same_as(c) {
            assert(views_of(list@)[i as int] == c@);
            return true;
        }
        i += 1;
    }
    false
}

} // verus!
