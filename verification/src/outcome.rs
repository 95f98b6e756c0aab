//! Classification of a probe's transport result into an outcome.

use vstd::prelude::*;
use crate::text::contains_seq;
use crate::text::contains_str;

verus! {

/// What the transport layer handed back for one probe: either the decoded
/// response body, or a description of the failure (connection error, timeout,
/// or a body that could not be decoded as text — all classified alike).
pub enum ProbeResponse {
    Body(String),
    Failure(String),
}

/// The mathematical value of a [`ProbeResponse`].
pub enum ProbeResponseView {
    Body(Seq<char>),
    Failure(Seq<char>),
}

impl View for ProbeResponse {
    type V = ProbeResponseView;

    open spec fn view(&self) -> ProbeResponseView {
        match self {
            ProbeResponse::Body(b) => ProbeResponseView::Body(b@),
            ProbeResponse::Failure(e) => ProbeResponseView::Failure(e@),
        }
    }
}

impl DeepView for ProbeResponse {
    type V = ProbeResponseView;

    open spec fn deep_view(&self) -> ProbeResponseView {
        self.view()
    }
}

/// The classified result of one probe, tagged with its target URL.
pub enum Outcome {
    /// The response body contains the marker.
    Matched(String),
    /// The response body was decoded but does not contain the marker.
    NotMatched(String),
    /// The probe failed in transport: connection error, timeout, or a body
    /// that could not be decoded as text. Carries the error description.
    TransportError(String, String),
}

/// The mathematical value of an [`Outcome`].
pub enum OutcomeView {
    Matched(Seq<char>),
    NotMatched(Seq<char>),
    TransportError(Seq<char>, Seq<char>),
}

impl View for Outcome {
    type V = OutcomeView;

    open spec fn view(&self) -> OutcomeView {
        match self {
            Outcome::Matched(u) => OutcomeView::Matched(u@),
            Outcome::NotMatched(u) => OutcomeView::NotMatched(u@),
            Outcome::TransportError(u, e) => OutcomeView::TransportError(u@, e@),
        }
    }
}

impl DeepView for Outcome {
    type V = OutcomeView;

    open spec fn deep_view(&self) -> OutcomeView {
        self.view()
    }
}

impl OutcomeView {
    /// The target URL this outcome is about.
    pub open spec fn url(self) -> Seq<char> {
        match self {
            OutcomeView::Matched(u) => u,
            OutcomeView::NotMatched(u) => u,
            OutcomeView::TransportError(u, e) => u,
        }
    }
}

impl Outcome {
    /// An identical copy of this outcome.
    pub fn duplicate(&self) -> (o: Outcome)
        ensures
            o@ == self@,
    {
        match self {
            Outcome::Matched(u) => Outcome::Matched(u.clone()),
            Outcome::NotMatched(u) => Outcome::NotMatched(u.clone()),
            Outcome::TransportError(u, e) => Outcome::TransportError(u.clone(), e.clone()),
        }
    }
}

/// The literal content marker that confirms a positive detection.
pub open spec fn marker() -> Seq<char> {
    seq!['S', 'w', 'a', 'g', 'g', 'e', 'r', ' ', 'U', 'I']
}

/// Whether a decoded response body confirms a match: a simple substring
/// containment test for the marker, not a structural parse.
pub fn body_has_marker(body: &str) -> (r: bool)
    ensures
        r == contains_seq(body@, marker()),
{
    let pat = "Swagger UI";
    proof {
        reveal_strlit("Swagger UI");
        assert(pat@ =~= marker());
    }
    contains_str(body, pat)
}

/// What classification yields for a probe of `url` whose transport result
/// is `resp`: a matched or not-matched verdict by marker containment for a
/// decoded body, and a transport error otherwise.
pub open spec fn classify_spec(url: Seq<char>, resp: ProbeResponseView) -> OutcomeView {
    match resp {
        ProbeResponseView::Body(b) => if contains_seq(b, marker()) {
            OutcomeView::Matched(url)
        } else {
            OutcomeView::NotMatched(url)
        },
        ProbeResponseView::Failure(e) => OutcomeView::TransportError(url, e),
    }
}

/// Classify one probe's transport result. No failure escapes this layer:
/// every result maps to exactly one outcome.
pub fn classify(url: String, resp: ProbeResponse) -> (o: Outcome)
    ensures
        o@ == classify_spec(url@, resp@),
{
    match resp {
        ProbeResponse::Body(b) => {
            if body_has_marker(b.as_str()) {
                Outcome::Matched(url)
            } else {
                Outcome::NotMatched(url)
            }
        }
        ProbeResponse::Failure(e) => Outcome::TransportError(url, e),
    }
}

} // verus!
