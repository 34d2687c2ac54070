//! The measured Pareto table behind the size-aware auto presets.
//!
//! Each preset maps a problem size and an execution mode to a concrete
//! Stieltjes method. The speed column takes the fastest method whose measured
//! relative error stays under the cap: the retuned `ChebCodeFast` preset is
//! the fastest point at every size, in both the sequential and the parallel
//! column. The accuracy column takes the lowest-error method, ties broken by
//! runtime: an exact O(p²) kernel while it is cheap, the precision-tuned
//! treecode beyond.
use vstd::prelude::*;

use crate::config::StieltjesMethod;

verus! {

/// Largest size at which the accuracy column keeps the exact kernel on one
/// thread.
pub const EXACT_LIMIT_SEQUENTIAL: usize = 5000;

/// Largest size at which the accuracy column keeps the exact kernel when
/// several threads may run.
pub const EXACT_LIMIT_PARALLEL: usize = 20000;

/// The table entry for a preset (`speed` or accuracy), an execution mode and
/// a problem size.
pub open spec fn spec_pareto_pick(speed: bool, parallel: bool, p: usize) -> StieltjesMethod {
    if speed {
        StieltjesMethod::ChebCodeFast
    } else if parallel {
        if p <= EXACT_LIMIT_PARALLEL {
            StieltjesMethod::Blocked
        } else {
            StieltjesMethod::ChebCodeXtreme
        }
    } else if p <= EXACT_LIMIT_SEQUENTIAL {
        StieltjesMethod::BlockedTiled
    } else {
        StieltjesMethod::ChebCodeXtreme
    }
}

/// Look a concrete method up in the Pareto table: the speed column when
/// `speed`, else the accuracy column; `parallel` selects the execution mode.
pub fn pareto_pick(speed: bool, parallel: bool, p: usize) -> (r: StieltjesMethod)
    ensures
        r == spec_pareto_pick(speed, parallel, p),
        speed ==> r == StieltjesMethod::ChebCodeFast,
{
    if speed {
        StieltjesMethod::ChebCodeFast
    } else if parallel {
        if p <= EXACT_LIMIT_PARALLEL {
            StieltjesMethod::Blocked
        } else {
            StieltjesMethod::ChebCodeXtreme
        }
    } else if p <= EXACT_LIMIT_SEQUENTIAL {
        StieltjesMethod::BlockedTiled
    } else {
        StieltjesMethod::ChebCodeXtreme
    }
}

/// The speed column is the retuned `ChebCodeFast` preset at every size and
/// in both execution modes.
pub proof fn lemma_speed_column_is_chebcode_fast(parallel: bool, p: usize)
    ensures
        spec_pareto_pick(true, parallel, p) == StieltjesMethod::ChebCodeFast,
{
}

/// Every entry of the table is a concrete method: never an auto preset.
pub proof fn lemma_pareto_pick_concrete(speed: bool, parallel: bool, p: usize)
    ensures
        spec_pareto_pick(speed, parallel, p) != StieltjesMethod::Auto,
        spec_pareto_pick(speed, parallel, p) != StieltjesMethod::SpeedAuto,
        spec_pareto_pick(speed, parallel, p) != StieltjesMethod::AccuracyAuto,
{
}

} // verus!
