//! The refresh notifier: the signal sent to the UI surface, and the rule
//! that turns the outcome of its delivery into the command's result.
//!
//! Delivery itself belongs to the host framework. The caller sends the
//! signal that `refresh_signal` gives, once, and hands what the delivery
//! reported to `refresh_result`.
use vstd::prelude::*;

verus! {

/// A named signal addressed to the UI surface, with an optional payload.
pub struct Signal {
    pub name: String,
    pub payload: Option<Vec<u8>>,
}

impl View for Signal {
    type V = (Seq<char>, Option<Seq<u8>>);

    open spec fn view(&self) -> (Seq<char>, Option<Seq<u8>>) {
        (
            self.name@,
            match self.payload {
                Some(p) => Some(p@),
                None => None,
            },
        )
    }
}

/// The refresh signal: named `refresh`, without payload.
pub open spec fn refresh_signal_view() -> (Seq<char>, Option<Seq<u8>>) {
    ("refresh"@, None)
}

/// What the command reports when delivery failed without saying why.
pub open spec fn undescribed_failure() -> Seq<char> {
    "the refresh signal could not be delivered"@
}

/// The failure text for a delivery error reported as `report`: the report
/// itself, or a fixed description where the report is empty.
pub open spec fn failure_text(report: Seq<char>) -> Seq<char> {
    if report.len() > 0 {
        report
    } else {
        undescribed_failure()
    }
}

/// The command's result for a delivery outcome: success stays success, and
/// a delivery error becomes its failure text.
pub open spec fn refresh_outcome(delivery: Result<(), Seq<char>>) -> Result<(), Seq<char>> {
    match delivery {
        Ok(()) => Ok(()),
        Err(report) => Err(failure_text(report)),
    }
}

/// A text result seen as a result over character sequences.
pub open spec fn text_result(r: Result<(), String>) -> Result<(), Seq<char>> {
    match r {
        Ok(()) => Ok(()),
        Err(s) => Err(s@),
    }
}

/// The signal the refresh command sends.
pub fn refresh_signal() -> (s: Signal)
    ensures
        s@ == refresh_signal_view(),
{
    Signal { name: String::from_str("refresh"), payload: None }
}

/// The refresh command's result, given what the delivery of its signal
/// reported (`Err` holding the delivery error's text).
pub fn refresh_result(delivery: Result<(), String>) -> (r: Result<(), String>)
    ensures
        text_result(r) == refresh_outcome(text_result(delivery)),
{
    match delivery {
        Ok(()) => Ok(()),
        Err(report) => {
            if report.as_str().is_empty() {
                Err(String::from_str("the refresh signal could not be delivered"))
            } else {
                Err(report)
            }
        },
    }
}

/// Against an open surface the delivery succeeds, and then so does the
/// command; the one signal delivered is named `refresh` and has no payload.
pub proof fn refresh_succeeds_when_delivered()
    ensures
        refresh_outcome(Ok(())) == Ok::<(), Seq<char>>(()),
        refresh_signal_view().0 == "refresh"@,
        refresh_signal_view().1 is None,
{
}

/// Whatever a failed delivery reported, the command fails with a
/// non-empty description.
pub proof fn refresh_failure_is_described(report: Seq<char>)
    ensures
        refresh_outcome(Err(report)) is Err,
        refresh_outcome(Err(report))->Err_0.len() > 0,
{
    reveal_strlit("the refresh signal could not be delivered");
}

} // verus!
