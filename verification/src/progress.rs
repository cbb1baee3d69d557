//! The events a running pipeline reports to its progress consumer.
//!
//! Events travel over an ordered channel and are meant to be applied in
//! emission order: length extensions before the positions that fill them,
//! partial results as information only, accumulated results as the
//! authoritative running total, and a final message after which nothing
//! follows.

use vstd::prelude::*;

use crate::batch::GroupPlan;
use crate::paths::concat_str;
use crate::result::FaceProcessingResult;

verus! {

/// One progress event of a training or recognition run.
pub enum ProgressReporter<T> {
    /// Advance the progress position by the given value.
    Increase(u64),
    /// Extend the progress length by the given value.
    IncreaseLength(u64),
    /// Set a transient status label.
    Message(String),
    /// The partial result of a single service call; informational.
    PartialStructedMessage(T),
    /// The accumulated result of the run so far; replaces prior totals.
    AccumulatedStructedMessage(T),
    /// Finish the progress with the given message; nothing follows it.
    FinishWithMessage(String),
}

/// The event announcing the whole run, naming the dataset root.
pub fn start_event(dataset_path: &str) -> (e: ProgressReporter<FaceProcessingResult>)
    ensures
        e matches ProgressReporter::Message(m) && m@ == "Start processing directory: "@
            + dataset_path@,
{
    ProgressReporter::Message(concat_str("Start processing directory: ", dataset_path))
}

/// The events announcing one group: the progress length grows by exactly
/// the number of image files the group sends — the files the per-file
/// progress ticks will later account for — and the status label names the
/// subject.
pub fn group_start_events(plan: &GroupPlan) -> (evs: Vec<
    ProgressReporter<FaceProcessingResult>,
>)
    ensures
        evs@.len() == 2,
        evs@[0] matches ProgressReporter::IncreaseLength(n) && n == plan.file_count as u64,
        evs@[1] matches ProgressReporter::Message(m) && m@ == "processing directory: "@
            + plan.name@,
{
    let mut evs: Vec<ProgressReporter<FaceProcessingResult>> = Vec::new();
    evs.push(ProgressReporter::IncreaseLength(plan.file_count as u64));
    evs.push(ProgressReporter::Message(concat_str("processing directory: ", plan.name.as_str())));
    evs
}

} // verus!
