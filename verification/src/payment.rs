//! What a payment attempt ends in, whichever rail it was made on.

use vstd::prelude::*;

use crate::http::{Reply, ReplyView};

verus! {

/// How a payment attempt ended. Finer than what the client is told: refusals read alike
/// to it, and are counted apart.
#[derive(Debug, Clone, Copy, PartialEq, Eq, Structural)]
pub enum Outcome {
    /// The payment settled.
    Settled,
    /// The payment did not verify.
    Refused,
    /// The payment verified and the search failed; nothing was charged.
    UpstreamFailed,
    /// The search succeeded and the payment did not settle.
    SettleFailed,
    /// The payer is on the restricted list, or cannot be told.
    ScreenedOut,
    /// The payer could not be screened.
    ScreenUnavailable,
    /// The payment proof cannot be read.
    Malformed,
    /// The payment proof is of a kind this service does not take.
    Unsupported,
    /// What verifies or settles payments could not be reached.
    NetworkUnavailable,
}

/// The label of an outcome.
pub open spec fn outcome_label(outcome: Outcome) -> Seq<char> {
    match outcome {
        Outcome::Settled => "settled"@,
        Outcome::Refused => "refused"@,
        Outcome::UpstreamFailed => "upstream_failed"@,
        Outcome::SettleFailed => "settle_failed"@,
        Outcome::ScreenedOut => "screened_out"@,
        Outcome::ScreenUnavailable => "screen_unavailable"@,
        Outcome::Malformed => "malformed"@,
        Outcome::Unsupported => "unsupported"@,
        Outcome::NetworkUnavailable => "network_unavailable"@,
    }
}

impl Outcome {
    /// The outcome as a label value.
    pub fn label(&self) -> (label: &'static str)
        ensures
            label@ == outcome_label(*self),
    {
        match self {
            Outcome::Settled => "settled",
            Outcome::Refused => "refused",
            Outcome::UpstreamFailed => "upstream_failed",
            Outcome::SettleFailed => "settle_failed",
            Outcome::ScreenedOut => "screened_out",
            Outcome::ScreenUnavailable => "screen_unavailable",
            Outcome::Malformed => "malformed",
            Outcome::Unsupported => "unsupported",
            Outcome::NetworkUnavailable => "network_unavailable",
        }
    }
}

/// The end of a payment attempt: what the client gets, how the attempt is counted, and
/// what it was charged, in base units.
pub struct Answer {
    pub reply: Reply,
    pub outcome: Outcome,
    pub charged: Option<u64>,
}

/// The mathematical value of an [`Answer`].
#[verifier::ext_equal]
pub struct AnswerView {
    pub reply: ReplyView,
    pub outcome: Outcome,
    pub charged: Option<u64>,
}

impl View for Answer {
    type V = AnswerView;

    open spec fn view(&self) -> AnswerView {
        AnswerView { reply: self.reply@, outcome: self.outcome, charged: self.charged }
    }
}

/// An answer that charges nothing.
pub open spec fn uncharged(reply: ReplyView, outcome: Outcome) -> AnswerView {
    AnswerView { reply, outcome, charged: None }
}

impl Answer {
    /// An answer that charges nothing.
    pub fn uncharged(reply: Reply, outcome: Outcome) -> (answer: Answer)
        ensures
            answer@ == uncharged(reply@, outcome),
    {
        Answer { reply, outcome, charged: None }
    }
}

} // verus!
