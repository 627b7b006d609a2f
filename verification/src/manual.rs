//! Manual selection of the game folder, for when no probe found one.
//!
//! Users often pick the folder around the installation, or a folder inside
//! it. The pick is corrected from what lies around it, and the corrected
//! folder is validated like any probed candidate.

use vstd::prelude::*;
use crate::candidate::name_view;
use crate::paths::{is_plain_name, is_separator, join, join_of, lemma_parent_of_join, parent, parent_of};
use crate::validate::{validate, validation_of, FolderMarkers, ValidationResult, RETAIL_DIR, RUNTIME_DIR};

verus! {

/// What was observed on disk around a folder that the user picked.
#[derive(Debug)]
pub struct Surroundings {
    /// The name of the first directory listed inside the picked folder.
    pub first_child: Option<String>,
    /// That directory has a `Retail` subfolder.
    pub child_has_retail: bool,
    /// The parent of the picked folder has a `Retail` subfolder.
    pub parent_has_retail: bool,
    /// The parent's parent has a `Retail` subfolder.
    pub grandparent_has_retail: bool,
}

/// The surroundings of a pick as a mathematical value.
pub struct SurroundingsView {
    pub first_child: Option<Seq<char>>,
    pub child_has_retail: bool,
    pub parent_has_retail: bool,
    pub grandparent_has_retail: bool,
}

impl View for Surroundings {
    type V = SurroundingsView;

    open spec fn view(&self) -> SurroundingsView {
        SurroundingsView {
            first_child: name_view(self.first_child),
            child_has_retail: self.child_has_retail,
            parent_has_retail: self.parent_has_retail,
            grandparent_has_retail: self.grandparent_has_retail,
        }
    }
}

/// The parent and the parent's parent of a path, where they exist.
pub open spec fn ancestors_of(path: Seq<char>) -> (Option<Seq<char>>, Option<Seq<char>>) {
    match parent_of(path) {
        Some(up) => (Some(up), parent_of(up)),
        None => (None, None),
    }
}

/// The folders above a pick whose `Retail` subfolder is looked for.
pub fn ancestors(picked: &str) -> (above: (Option<String>, Option<String>))
    ensures
        (name_view(above.0), name_view(above.1)) == ancestors_of(picked@),
{
    match parent(picked) {
        Some(up) => {
            let higher = parent(up.as_str());
            (Some(up), higher)
        },
        None => (None, None),
    }
}

/// The folder that a pick stands for. Where the first directory inside the
/// pick holds `Retail`, the user picked the folder around the game: that
/// directory. Else, where the parent holds `Retail`, the user picked a
/// folder inside the game: the parent; and likewise one level further up.
/// Else the pick itself.
pub open spec fn corrected_of(picked: Seq<char>, around: SurroundingsView) -> Seq<char> {
    if around.first_child is Some && around.child_has_retail {
        join_of(picked, around.first_child.unwrap())
    } else if ancestors_of(picked).0 is Some && around.parent_has_retail {
        ancestors_of(picked).0.unwrap()
    } else if ancestors_of(picked).1 is Some && around.grandparent_has_retail {
        ancestors_of(picked).1.unwrap()
    } else {
        picked
    }
}

/// Corrects a picked folder from what lies around it.
pub fn correct(picked: &str, around: &Surroundings) -> (folder: String)
    ensures
        folder@ == corrected_of(picked@, around@),
{
    if around.child_has_retail {
        if let Some(child) = &around.first_child {
            return join(picked, child.as_str());
        }
    }
    let (up, higher) = ancestors(picked);
    if around.parent_has_retail {
        if let Some(p) = up {
            return p;
        }
    }
    if around.grandparent_has_retail {
        if let Some(g) = higher {
            return g;
        }
    }
    picked.to_owned()
}

/// Where the manual selection stands.
#[derive(Debug)]
pub enum ManualFlow {
    /// Nothing has been picked.
    Unselected,
    /// A folder was picked and corrected; its markers are still to be read.
    Selected(String),
    /// The folder's markers were read and judged.
    Validated(String, ValidationResult),
}

/// The manual selection as a mathematical value.
pub enum ManualFlowView {
    Unselected,
    Selected(Seq<char>),
    Validated(Seq<char>, ValidationResult),
}

impl View for ManualFlow {
    type V = ManualFlowView;

    open spec fn view(&self) -> ManualFlowView {
        match self {
            ManualFlow::Unselected => ManualFlowView::Unselected,
            ManualFlow::Selected(folder) => ManualFlowView::Selected(folder@),
            ManualFlow::Validated(folder, result) => ManualFlowView::Validated(folder@, *result),
        }
    }
}

/// The state after a pick: the corrected folder, waiting for validation,
/// whatever the state was before.
pub open spec fn after_pick(picked: Seq<char>, around: SurroundingsView) -> ManualFlowView {
    ManualFlowView::Selected(corrected_of(picked, around))
}

/// The state after the markers of the selected folder were read. Without a
/// selected folder there is nothing to judge and the state stays.
pub open spec fn after_markers(state: ManualFlowView, markers: FolderMarkers) -> ManualFlowView {
    match state {
        ManualFlowView::Selected(folder) => ManualFlowView::Validated(folder, validation_of(markers)),
        _ => state,
    }
}

/// The folder whose markers are to be read next.
pub open spec fn awaiting_of(state: ManualFlowView) -> Option<Seq<char>> {
    match state {
        ManualFlowView::Selected(folder) => Some(folder),
        _ => None,
    }
}

/// The folder that may be installed to.
pub open spec fn target_of(state: ManualFlowView) -> Option<Seq<char>> {
    match state {
        ManualFlowView::Validated(folder, ValidationResult::Valid) => Some(folder),
        _ => None,
    }
}

impl ManualFlow {
    /// The flow before any pick.
    pub fn new() -> (flow: ManualFlow)
        ensures
            flow@ == ManualFlowView::Unselected,
    {
        ManualFlow::Unselected
    }

    /// Takes a new pick: the flow starts over with the corrected folder.
    pub fn pick(self, picked: &str, around: &Surroundings) -> (next: ManualFlow)
        ensures
            next@ == after_pick(picked@, around@),
    {
        ManualFlow::Selected(correct(picked, around))
    }

    /// Takes the markers read for the selected folder and judges them.
    pub fn judge(self, markers: FolderMarkers) -> (next: ManualFlow)
        ensures
            next@ == after_markers(self@, markers),
    {
        match self {
            ManualFlow::Selected(folder) => ManualFlow::Validated(folder, validate(markers)),
            other => other,
        }
    }

    /// The folder whose markers the caller is to read next, if any.
    pub fn awaiting(&self) -> (folder: Option<&String>)
        ensures
            match folder {
                Some(f) => awaiting_of(self@) == Some(f@),
                None => awaiting_of(self@) is None,
            },
    {
        match self {
            ManualFlow::Selected(folder) => Some(folder),
            _ => None,
        }
    }

    /// The folder to install to: the selected one, once it has validated.
    pub fn target(&self) -> (folder: Option<&String>)
        ensures
            match folder {
                Some(f) => target_of(self@) == Some(f@),
                None => target_of(self@) is None,
            },
    {
        match self {
            ManualFlow::Validated(folder, ValidationResult::Valid) => Some(folder),
            _ => None,
        }
    }
}

/// Picking the folder around the game resolves to the game folder: where
/// the first directory inside the pick holds `Retail`, the correction is
/// that directory.
pub proof fn lemma_container_resolves_to_child(picked: Seq<char>, around: SurroundingsView)
    requires
        around.first_child is Some,
        around.child_has_retail,
    ensures
        corrected_of(picked, around) == join_of(picked, around.first_child.unwrap()),
{
}

/// Picking `<root>/Retail/Runtime` resolves to `<root>`: the pick holds no
/// game folder, `<root>/Retail` has no `Retail` of its own, and `<root>` has
/// one. The root is written without a separator at its end.
pub proof fn lemma_runtime_resolves_to_root(root: Seq<char>, around: SurroundingsView)
    requires
        root.len() > 0,
        !is_separator(root.last()),
        !(around.first_child is Some && around.child_has_retail),
        !around.parent_has_retail,
        around.grandparent_has_retail,
    ensures
        corrected_of(join_of(join_of(root, RETAIL_DIR@), RUNTIME_DIR@), around) == root,
{
    reveal_strlit("Retail");
    reveal_strlit("Runtime");
    let retail = join_of(root, RETAIL_DIR@);
    assert(is_plain_name(RETAIL_DIR@));
    assert(is_plain_name(RUNTIME_DIR@));
    assert(retail.last() == 'l');
    lemma_parent_of_join(retail, RUNTIME_DIR@);
    lemma_parent_of_join(root, RETAIL_DIR@);
}

/// Picking `<root>/Retail` or `<root>/Runtime` resolves to `<root>`, which
/// holds `Retail`.
pub proof fn lemma_subfolder_resolves_to_root(root: Seq<char>, name: Seq<char>, around: SurroundingsView)
    requires
        root.len() > 0,
        !is_separator(root.last()),
        is_plain_name(name),
        !(around.first_child is Some && around.child_has_retail),
        around.parent_has_retail,
    ensures
        corrected_of(join_of(root, name), around) == root,
{
    lemma_parent_of_join(root, name);
}

/// A new pick always leads to a selected folder that awaits validation, and
/// judging it leads to a validated one: no state is skipped and none is
/// kept from an earlier pick.
pub proof fn lemma_pick_then_judge(picked: Seq<char>, around: SurroundingsView, markers: FolderMarkers)
    ensures
        awaiting_of(after_pick(picked, around)) == Some(corrected_of(picked, around)),
        target_of(after_pick(picked, around)) is None,
        after_markers(after_pick(picked, around), markers) == ManualFlowView::Validated(
            corrected_of(picked, around),
            validation_of(markers),
        ),
        target_of(after_markers(after_pick(picked, around), markers)) is Some <==> validation_of(markers)
            == ValidationResult::Valid,
{
}

} // verus!
