//! Progress reporting for a plane build.
//!
//! A build may report progress through a caller-supplied callback. The
//! callback receives the total cell count and a per-cell progress
//! point, and fires only on the cells whose progress point the stored
//! granularity divides. The granularity is materialized into its final
//! form here, when the configuration is made, and never re-derived at
//! build time: a requested granularity above 10 collapses to its
//! base-10 digit count plus one.

use vstd::prelude::*;

verus! {

/// The granularity a configuration stores for a requested value:
/// kept as given up to 10, and above 10 replaced by the number of
/// decimal digits of the request plus one (`floor(log10) + 1`).
pub open spec fn clamped_granularity(granularity: u8) -> u8 {
    if granularity > 10 {
        if granularity >= 100 {
            3u8
        } else {
            2u8
        }
    } else {
        granularity
    }
}

/// The progress point a build reports for the cell `(x, y)` is the
/// product `y * x`, and the callback fires exactly on the cells whose
/// progress point the granularity divides.
pub open spec fn report_due(x: usize, y: usize, granularity: u8) -> bool {
    (y * x) % (granularity as int) == 0
}

/// A progress callback together with the granularity that throttles
/// it, as a plane build consumes them.
pub struct ProgressCallbackConfig<Callback> where Callback: Fn(usize, usize) {
    callback: Callback,
    granularity: u8,
}

impl<Callback> ProgressCallbackConfig<Callback> where Callback: Fn(usize, usize) {
    pub closed spec fn granularity_spec(&self) -> u8 {
        self.granularity
    }

    pub closed spec fn callback_spec(&self) -> Callback {
        self.callback
    }

    /// Packs a callback with a requested granularity, materializing
    /// the granularity into its stored form.
    pub fn new(granularity: u8, callback: Callback) -> (r: ProgressCallbackConfig<Callback>)
        ensures
            r.granularity_spec() == clamped_granularity(granularity),
            r.callback_spec() == callback,
    {
        let stored: u8 = if granularity > 10 {
            if granularity >= 100 {
                3
            } else {
                2
            }
        } else {
            granularity
        };
        ProgressCallbackConfig { callback, granularity: stored }
    }

    pub fn granularity(&self) -> (r: u8)
        ensures
            r == self.granularity_spec(),
    {
        self.granularity
    }

    /// Hands the total cell count and a progress point to the callback.
    pub fn invoke(&self, total: usize, progress_pt: usize)
        requires
            call_requires(self.callback_spec(), (total, progress_pt)),
    {
        (self.callback)(total, progress_pt)
    }
}

/// Decides whether a build reports progress at the cell `(x, y)`.
pub fn due_at(x: usize, y: usize, granularity: u8) -> (r: bool)
    requires
        granularity >= 1,
        y * x <= usize::MAX,
    ensures
        r == report_due(x, y, granularity),
{
    (y * x) % (granularity as usize) == 0
}

/// Any requested granularity of at least 1 is materialized into the
/// range `[1, 10]`.
pub proof fn lemma_clamped_granularity_in_range(granularity: u8)
    requires
        granularity >= 1,
    ensures
        1 <= clamped_granularity(granularity) <= 10,
{
}

} // verus!
