//! What a consumer does with the answer to its request: it picks one of the
//! candidates at random, without weighing them.

use vstd::prelude::*;
use crate::keys::RecordId;

verus! {

/// What follows from a response.
#[derive(Clone, Debug, PartialEq, Eq)]
pub enum Resolution {
    /// Nobody is known to hold the feed. This is an answer, not a failure.
    NoKnownHost { channel_link: String },
    /// The record to read: one of the candidates.
    Fetch { channel_link: String, record: RecordId },
}

/// A resolution as a mathematical value.
pub enum ResolutionView {
    NoKnownHost { channel_link: Seq<char> },
    Fetch { channel_link: Seq<char>, record: RecordId },
}

impl View for Resolution {
    type V = ResolutionView;

    open spec fn view(&self) -> ResolutionView {
        match self {
            Resolution::NoKnownHost { channel_link } => ResolutionView::NoKnownHost {
                channel_link: channel_link@,
            },
            Resolution::Fetch { channel_link, record } => ResolutionView::Fetch {
                channel_link: channel_link@,
                record: *record,
            },
        }
    }
}

/// Whether `resolution` is a way to resolve a response that names
/// `candidates` for `channel_link`: without candidates there is no known
/// host, and with candidates one of them is to be read.
pub open spec fn resolves(
    channel_link: Seq<char>,
    candidates: Seq<RecordId>,
    resolution: ResolutionView,
) -> bool {
    if candidates.len() == 0 {
        resolution == (ResolutionView::NoKnownHost { channel_link })
    } else {
        exists|i: int|
            0 <= i < candidates.len() && resolution == (ResolutionView::Fetch {
                channel_link,
                record: #[trigger] candidates[i],
            })
    }
}

/// `SliceRandom::choose` of the crate rand on the candidates, with the
/// generator of the thread, `rand::thread_rng`: `None` for an empty slice,
/// else one of its elements, whichever the generator picks.
#[verifier::external_body]
fn choose_random(candidates: &Vec<RecordId>) -> (choice: Option<RecordId>)
    ensures
        candidates@.len() == 0 ==> choice is None,
        candidates@.len() > 0 ==> choice is Some && candidates@.contains(choice->Some_0),
{
    rand::seq::SliceRandom::choose(candidates.as_slice(), &mut rand::thread_rng()).copied()
}

/// Picks one of the candidates at random, each with the same chance, or
/// nothing where there is no candidate.
pub fn choose_candidate(candidates: &Vec<RecordId>) -> (choice: Option<RecordId>)
    ensures
        candidates@.len() == 0 ==> choice is None,
        candidates@.len() > 0 ==> choice is Some && candidates@.contains(choice->Some_0),
{
    choose_random(candidates)
}

/// The resolution that a choice among the candidates of `channel_link` leads
/// to: the chosen record is to be read, and without a choice there is no
/// known host.
pub fn resolution(channel_link: String, choice: Option<RecordId>) -> (r: Resolution)
    ensures
        r@ == match choice {
            Some(record) => ResolutionView::Fetch { channel_link: channel_link@, record },
            None => ResolutionView::NoKnownHost { channel_link: channel_link@ },
        },
{
    match choice {
        Some(record) => Resolution::Fetch { channel_link, record },
        None => Resolution::NoKnownHost { channel_link },
    }
}

/// Resolves a response that names `candidates` for `channel_link`: one
/// candidate is picked at random. No other candidate is tried afterwards; to
/// try again, the consumer asks again.
pub fn resolve(channel_link: String, candidates: &Vec<RecordId>) -> (r: Resolution)
    ensures
        resolves(channel_link@, candidates@, r@),
{
    let choice = choose_candidate(candidates);
    resolution(channel_link, choice)
}

} // verus!
