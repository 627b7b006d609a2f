//! From probed folders to the one folder that is installed to.
//!
//! The probes report candidates in the order in which they ran. The selector
//! keeps those that validate, drops repeats, and settles on one of them: the
//! only one, or the one the user picks by its position in the list.

use vstd::prelude::*;
use crate::candidate::{holds, views_of, Candidate, CandidateView};
use crate::text::join_text;
use crate::validate::{validate, validation_of, FolderMarkers, ValidationResult};

verus! {

/// A candidate together with what was observed on disk about its folder.
#[derive(Debug)]
pub struct Probed {
    pub candidate: Candidate,
    pub markers: FolderMarkers,
}

/// A probed candidate as a mathematical value.
pub struct ProbedView {
    pub candidate: CandidateView,
    pub markers: FolderMarkers,
}

impl View for Probed {
    type V = ProbedView;

    open spec fn view(&self) -> ProbedView {
        ProbedView { candidate: self.candidate@, markers: self.markers }
    }
}

/// The views of a list of probed candidates, in order.
pub open spec fn probed_views(list: Seq<Probed>) -> Seq<ProbedView> {
    list.map_values(|p: Probed| p@)
}

/// The candidate validates.
pub open spec fn is_valid(p: ProbedView) -> bool {
    validation_of(p.markers) == ValidationResult::Valid
}

/// The selectable list: the valid candidates in probe order, each kept at
/// its first occurrence only.
pub open spec fn selectable(probed: Seq<ProbedView>) -> Seq<CandidateView>
    decreases probed.len(),
{
    if probed.len() == 0 {
        Seq::empty()
    } else {
        let earlier = selectable(probed.drop_last());
        let p = probed.last();
        if is_valid(p) && !earlier.contains(p.candidate) {
            earlier.push(p.candidate)
        } else {
            earlier
        }
    }
}

/// Keeps the candidates that validate, in probe order and without repeats.
pub fn select_valid(probed: &Vec<Probed>) -> (valid: Vec<Candidate>)
    ensures
        views_of(valid@) == selectable(probed_views(probed@)),
        forall|i: int, j: int| 0 <= i < j < valid@.len() ==> valid@[i]@ != valid@[j]@,
{
    let mut valid: Vec<Candidate> = Vec::new();
    let mut i: usize = 0;
    assert(probed_views(probed@).take(0) =~= Seq::empty());
    assert(views_of(valid@) =~= Seq::empty());
    while i < probed.len()
        invariant
            i <= probed@.len(),
            views_of(valid@) == selectable(probed_views(probed@).take(i as int)),
        decreases probed@.len() - i,
    {
        let p = &probed[i];
        let ghost before = probed_views(probed@).take(i as int);
        let ghost upto = probed_views(probed@).take(i + 1);
        assert(upto.drop_last() =~= before);
        assert(upto.last() == p@);
        let ghost kept = views_of(valid@);
        if validate(p.markers) == ValidationResult::Valid && !holds(&valid, &p.candidate) {
            valid.push(p.candidate.duplicate());
            assert(views_of(valid@) =~= kept.push(p.candidate@));
        }
        i += 1;
    }
    assert(probed_views(probed@).take(i as int) =~= probed_views(probed@));
    proof {
        lemma_selectable_has_no_repeats(probed_views(probed@));
        assert forall|i: int, j: int| 0 <= i < j < valid@.len() implies valid@[i]@ != valid@[j]@ by {
            assert(views_of(valid@)[i] == valid@[i]@);
            assert(views_of(valid@)[j] == valid@[j]@);
        }
    }
    valid
}

/// Every selectable candidate was probed and validated.
pub proof fn lemma_selectable_are_valid(probed: Seq<ProbedView>, c: CandidateView)
    requires
        selectable(probed).contains(c),
    ensures
        exists|i: int| 0 <= i < probed.len() && #[trigger] probed[i].candidate == c && is_valid(probed[i]),
    decreases probed.len(),
{
    if probed.len() > 0 {
        let earlier = selectable(probed.drop_last());
        let p = probed.last();
        if earlier.contains(c) {
            lemma_selectable_are_valid(probed.drop_last(), c);
            let i = choose|i: int|
                0 <= i < probed.drop_last().len() && #[trigger] probed.drop_last()[i].candidate == c && is_valid(
                    probed.drop_last()[i],
                );
            assert(probed[i].candidate == c && is_valid(probed[i]));
        } else {
            let k = choose|k: int| 0 <= k < selectable(probed).len() && selectable(probed)[k] == c;
            assert(is_valid(p) && !earlier.contains(p.candidate));
            if k < earlier.len() {
                assert(earlier[k] == c);
                assert(false);
            }
            assert(p.candidate == c);
            assert(probed[probed.len() - 1].candidate == c);
        }
    }
}

/// Every probed candidate that validates is selectable.
pub proof fn lemma_valid_are_selectable(probed: Seq<ProbedView>, i: int)
    requires
        0 <= i < probed.len(),
        is_valid(probed[i]),
    ensures
        selectable(probed).contains(probed[i].candidate),
    decreases probed.len(),
{
    let earlier = selectable(probed.drop_last());
    let p = probed.last();
    if i < probed.len() - 1 {
        lemma_valid_are_selectable(probed.drop_last(), i);
        let k = choose|k: int| 0 <= k < earlier.len() && earlier[k] == probed[i].candidate;
        assert(selectable(probed)[k] == probed[i].candidate);
    } else if earlier.contains(p.candidate) {
    } else {
        assert(selectable(probed) == earlier.push(p.candidate));
        assert(selectable(probed)[earlier.len() as int] == p.candidate);
    }
}

/// No candidate occurs twice in the selectable list: a folder that two
/// platform sources report for the same account is offered once.
pub proof fn lemma_selectable_has_no_repeats(probed: Seq<ProbedView>)
    ensures
        forall|i: int, j: int|
            0 <= i < j < selectable(probed).len() ==> selectable(probed)[i] != selectable(probed)[j],
    decreases probed.len(),
{
    if probed.len() > 0 {
        lemma_selectable_has_no_repeats(probed.drop_last());
        let earlier = selectable(probed.drop_last());
        assert forall|i: int, j: int| 0 <= i < j < selectable(probed).len() implies selectable(probed)[i]
            != selectable(probed)[j] by {
            if j == earlier.len() {
                assert(earlier[i] == selectable(probed)[i]);
            }
        }
    }
}

/// Two probes that report the same folder for the same account, both valid,
/// leave exactly one entry for it in the selectable list.
pub proof fn lemma_same_installation_is_offered_once(probed: Seq<ProbedView>, a: int, b: int)
    requires
        0 <= a < b < probed.len(),
        probed[a].candidate == probed[b].candidate,
        is_valid(probed[a]),
    ensures
        exists|k: int|
            0 <= k < selectable(probed).len() && #[trigger] selectable(probed)[k] == probed[a].candidate
                && forall|m: int|
                0 <= m < selectable(probed).len() && m != k ==> selectable(probed)[m] != probed[a].candidate,
{
    lemma_valid_are_selectable(probed, a);
    lemma_selectable_has_no_repeats(probed);
    let s = selectable(probed);
    let k = choose|k: int| 0 <= k < s.len() && s[k] == probed[a].candidate;
    assert forall|m: int| 0 <= m < s.len() && m != k implies s[m] != probed[a].candidate by {
        if m < k {
            assert(s[m] != s[k]);
        } else {
            assert(s[k] != s[m]);
        }
    }
}

/// How the selectable list is shown to the user.
#[derive(Clone, Copy, Debug, PartialEq, Eq, Structural)]
pub enum Presentation {
    /// Nothing validated: the user is told that no installation was found.
    NoneFound,
    /// Exactly one folder validated: it is taken without asking.
    FoundAutomatically,
    /// Several folders validated: the user picks one from the list.
    Choose,
}

/// The presentation that a selectable list of the given length calls for.
pub open spec fn presentation_of(count: nat) -> Presentation {
    if count == 0 {
        Presentation::NoneFound
    } else if count == 1 {
        Presentation::FoundAutomatically
    } else {
        Presentation::Choose
    }
}

/// Decides how the selectable list is shown. The user is prompted only
/// where the result is `Choose`.
pub fn present(valid: &Vec<Candidate>) -> (shown: Presentation)
    ensures
        shown == presentation_of(valid@.len()),
        shown == Presentation::FoundAutomatically <==> valid@.len() == 1,
        shown == Presentation::Choose <==> valid@.len() > 1,
{
    if valid.len() == 0 {
        Presentation::NoneFound
    } else if valid.len() == 1 {
        Presentation::FoundAutomatically
    } else {
        Presentation::Choose
    }
}

/// The selection before the user has chosen anything: the first selectable
/// folder, if there is one.
pub open spec fn initial_selection_of(count: nat) -> Option<usize> {
    if count == 0 {
        None
    } else {
        Some(0usize)
    }
}

/// The selection that the automatic check leaves behind.
pub fn initial_selection(valid: &Vec<Candidate>) -> (selection: Option<usize>)
    ensures
        selection == initial_selection_of(valid@.len()),
{
    if valid.len() == 0 {
        None
    } else {
        Some(0)
    }
}

/// The selection after the user picked the entry at `index`: that entry
/// where the list has one there, else the selection as it was.
pub fn pick(valid: &Vec<Candidate>, current: Option<usize>, index: usize) -> (selection: Option<usize>)
    ensures
        index < valid@.len() ==> selection == Some(index),
        index >= valid@.len() ==> selection == current,
{
    if index < valid.len() {
        Some(index)
    } else {
        current
    }
}

/// The folder that the selection stands for, if it points into the list.
pub fn selected<'a>(valid: &'a Vec<Candidate>, selection: Option<usize>) -> (chosen: Option<&'a Candidate>)
    ensures
        match selection {
            Some(i) if i < valid@.len() => chosen == Some(&valid@[i as int]),
            _ => chosen is None,
        },
{
    match selection {
        Some(i) => {
            if i < valid.len() {
                Some(&valid[i])
            } else {
                None
            }
        },
        None => None,
    }
}

/// The line that confirms the selected folder to the user.
#[derive(Debug)]
pub enum StatusLine {
    /// The account's name is known: the user is greeted by it.
    Hello(String),
    /// The folder was the only one found.
    FoundAutomatically,
    /// The folder was picked among several.
    Selected,
}

/// A status line as a mathematical value.
pub enum StatusLineView {
    Hello(Seq<char>),
    FoundAutomatically,
    Selected,
}

impl View for StatusLine {
    type V = StatusLineView;

    open spec fn view(&self) -> StatusLineView {
        match self {
            StatusLine::Hello(name) => StatusLineView::Hello(name@),
            StatusLine::FoundAutomatically => StatusLineView::FoundAutomatically,
            StatusLine::Selected => StatusLineView::Selected,
        }
    }
}

/// The status line for the entry at `index` of the selectable list.
pub open spec fn status_of(valid: Seq<CandidateView>, index: int) -> StatusLineView {
    match valid[index].display_name {
        Some(name) => StatusLineView::Hello(name),
        None => if valid.len() == 1 {
            StatusLineView::FoundAutomatically
        } else {
            StatusLineView::Selected
        },
    }
}

/// The status line for the selected folder; `None` where the selection does
/// not point into the list.
pub fn status_line(valid: &Vec<Candidate>, index: usize) -> (line: Option<StatusLine>)
    ensures
        index >= valid@.len() ==> line is None,
        index < valid@.len() ==> line is Some && line.unwrap()@ == status_of(views_of(valid@), index as int),
{
    if index >= valid.len() {
        return None;
    }
    match &valid[index].display_name {
        Some(name) => Some(StatusLine::Hello(name.clone())),
        None => {
            if valid.len() == 1 {
                Some(StatusLine::FoundAutomatically)
            } else {
                Some(StatusLine::Selected)
            }
        },
    }
}

/// The text of a status line.
pub open spec fn status_text_of(line: StatusLineView) -> Seq<char> {
    match line {
        StatusLineView::Hello(name) => "\u{2705} Hello, "@ + name + "!"@,
        StatusLineView::FoundAutomatically => "\u{2705} Game folder found automatically"@,
        StatusLineView::Selected => "\u{2705} Game folder selected"@,
    }
}

/// Renders a status line as the text shown to the user.
pub fn status_text(line: &StatusLine) -> (text: String)
    ensures
        text@ == status_text_of(line@),
{
    match line {
        StatusLine::Hello(name) => {
            let greeting = join_text("\u{2705} Hello, ", name.as_str());
            join_text(greeting.as_str(), "!")
        },
        StatusLine::FoundAutomatically => "\u{2705} Game folder found automatically".to_owned(),
        StatusLine::Selected => "\u{2705} Game folder selected".to_owned(),
    }
}

/// Where every probed candidate that validates names the same folder for the
/// same account, and one does, the selectable list is that one candidate: it
/// is taken automatically, as the first selection, and nothing is asked.
pub proof fn lemma_single_valid_candidate_is_automatic(probed: Seq<ProbedView>, i: int)
    requires
        0 <= i < probed.len(),
        is_valid(probed[i]),
        forall|j: int| 0 <= j < probed.len() && is_valid(#[trigger] probed[j]) ==> probed[j].candidate == probed[i].candidate,
    ensures
        selectable(probed) == seq![probed[i].candidate],
        presentation_of(selectable(probed).len()) == Presentation::FoundAutomatically,
        initial_selection_of(selectable(probed).len()) == Some(0usize),
        probed[i].candidate.display_name is None ==> status_of(selectable(probed), 0)
            == StatusLineView::FoundAutomatically,
{
    let s = selectable(probed);
    let c = probed[i].candidate;
    lemma_valid_are_selectable(probed, i);
    lemma_selectable_has_no_repeats(probed);
    assert forall|k: int| 0 <= k < s.len() implies s[k] == c by {
        assert(s.contains(s[k]));
        lemma_selectable_are_valid(probed, s[k]);
    }
    if s.len() > 1 {
        assert(s[0] != s[1]);
    }
    assert(s =~= seq![c]);
}

} // verus!
