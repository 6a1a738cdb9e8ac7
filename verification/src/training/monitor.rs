//! Training metrics reported by the Python trainer, one JSON record per line.

use vstd::prelude::*;
use crate::events::BackendEvent;

verus! {

/// One training metric line emitted by `python/train_lora.py`.
#[derive(Debug, Clone, Copy, PartialEq, Eq)]
pub struct TrainingMetricLine {
    /// Optimizer step.
    pub step: u32,
    /// Epoch index (trainer-defined; surfaced as-is to the GUI).
    pub epoch: u32,
    /// Scalar loss, as the bits of an `f64`.
    pub loss_bits: u64,
    /// Current learning rate, as the bits of an `f64`.
    pub lr_bits: u64,
}

/// The event that forwards `metric` of job `job_id` to the GUI.
pub fn metric_event(job_id: &str, metric: TrainingMetricLine) -> (r: BackendEvent)
    ensures
        r matches BackendEvent::TrainingMetrics { job_id: j, epoch, step, loss_bits, lr_bits } && j@
            == job_id@ && epoch == metric.epoch && step == metric.step && loss_bits
            == metric.loss_bits && lr_bits == metric.lr_bits,
{
    BackendEvent::TrainingMetrics {
        job_id: job_id.to_owned(),
        epoch: metric.epoch,
        step: metric.step,
        loss_bits: metric.loss_bits,
        lr_bits: metric.lr_bits,
    }
}

} // verus!
