//! The four probes put together.

use vstd::prelude::*;
use crate::candidate::{views_of, Candidate, CandidateView};
use crate::probe::ProbeError;

verus! {

/// What the probes found together: the candidates of each in the order in
/// which the probes run, or the error of the first probe that reported
/// one.
pub open spec fn gathered(
    legendary: Seq<CandidateView>,
    eos: Result<Seq<CandidateView>, ProbeError>,
    steam: Result<Seq<CandidateView>, ProbeError>,
    microsoft: Seq<CandidateView>,
) -> Result<Seq<CandidateView>, ProbeError> {
    match (eos, steam) {
        (Err(error), _) => Err(error),
        (Ok(_), Err(error)) => Err(error),
        (Ok(from_eos), Ok(from_steam)) => Ok(legendary + from_eos + from_steam + microsoft),
    }
}

/// The views of what a probe returned.
pub open spec fn outcome_view(outcome: Result<Vec<Candidate>, ProbeError>) -> Result<Seq<CandidateView>, ProbeError> {
    match outcome {
        Ok(found) => Ok(views_of(found@)),
        Err(error) => Err(error),
    }
}

/// Moves the candidates of `more` behind those of `list`.
fn extend(list: &mut Vec<Candidate>, more: Vec<Candidate>)
    ensures
        views_of(final(list)@) == views_of(old(list)@) + views_of(more@),
{
    let ghost added = more@;
    let mut rest = more;
    list.append(&mut rest);
    assert(views_of(list@) =~= views_of(old(list)@) + views_of(added));
}

/// Puts the outcomes of the four probes together, in probe order.
pub fn gather(
    legendary: Vec<Candidate>,
    eos: Result<Vec<Candidate>, ProbeError>,
    steam: Result<Vec<Candidate>, ProbeError>,
    microsoft: Vec<Candidate>,
) -> (all: Result<Vec<Candidate>, ProbeError>)
    ensures
        outcome_view(all) == gathered(views_of(legendary@), outcome_view(eos), outcome_view(steam), views_of(microsoft@)),
{
    let from_eos = match eos {
        Ok(found) => found,
        Err(error) => { return Err(error); },
    };
    let from_steam = match steam {
        Ok(found) => found,
        Err(error) => { return Err(error); },
    };
    let mut all = legendary;
    extend(&mut all, from_eos);
    extend(&mut all, from_steam);
    extend(&mut all, microsoft);
    Ok(all)
}

} // verus!
