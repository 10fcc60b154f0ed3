//! Staleness of a build artifact against the inputs matched by a glob
//! pattern: coarse, file-timestamp-based cache invalidation.

use vstd::prelude::*;
use crate::probe;

verus! {

/// Why a staleness query could not be answered; both are fatal to a build.
#[derive(Debug, Copy, Clone, PartialEq, Eq, Structural)]
pub enum StaleError {
    /// The input pattern was malformed or could not be expanded.
    BadGlob,
    /// The input pattern matched nothing: a build step must always have at
    /// least one compiled input.
    NoInputs,
}

/// Whether `input` forces a rebuild against an output modified at `out`:
/// it does when its own modification time is missing or strictly newer.
pub open spec fn input_newer(out: u64, input: Option<u64>) -> bool {
    match input {
        None => true,
        Some(t) => t > out,
    }
}

/// The staleness decision over the gathered modification times: stale when
/// the output is missing, or when any input is missing its modification
/// time or is newer than the output.
pub open spec fn spec_stale(out: Option<u64>, inputs: Seq<Option<u64>>) -> bool {
    match out {
        None => true,
        Some(o) => exists|i: int| 0 <= i < inputs.len() && input_newer(o, inputs[i]),
    }
}

/// The staleness decision, computed from modification times alone.
pub fn stale_given(out: Option<u64>, inputs: &Vec<Option<u64>>) -> (r: bool)
    ensures
        r == spec_stale(out, inputs@),
{
    let o: u64 = match out {
        None => {
            return true;
        },
        Some(o) => o,
    };
    let n = inputs.len();
    let mut i: usize = 0;
    while i < n
        invariant
            i <= n,
            n == inputs@.len(),
            out == Some(o),
            forall|k: int| 0 <= k < i ==> !input_newer(o, inputs@[k]),
        decreases n - i,
    {
        match inputs[i] {
            None => {
                assert(spec_stale(out, inputs@)) by {
                    assert(input_newer(o, inputs@[i as int]));
                }
                return true;
            },
            Some(t) => {
                if t > o {
                    assert(spec_stale(out, inputs@)) by {
                        assert(input_newer(o, inputs@[i as int]));
                    }
                    return true;
                }
            },
        }
        i += 1;
    }
    false
}

/// With no prior build artifact, the decision is always "stale".
pub proof fn law_missing_output_is_stale(inputs: Seq<Option<u64>>)
    ensures
        spec_stale(None, inputs),
{
}

/// An artifact newer than every matched input is not stale, and touching any
/// one matched input to a strictly later time than the output flips the
/// decision to stale.
pub proof fn law_touch_flips_stale(out: u64, inputs: Seq<Option<u64>>, i: int, t: u64)
    requires
        !spec_stale(Some(out), inputs),
        0 <= i < inputs.len(),
        t > out,
    ensures
        spec_stale(Some(out), inputs.update(i, Some(t))),
{
    assert(input_newer(out, inputs.update(i, Some(t))[i]));
}

/// The whole staleness verdict over the gathered probe outcomes. A
/// missing output is stale outright; otherwise the input pattern must
/// have expanded at all (`None` stands for a failed expansion) and must
/// have matched at least one input — a build step always has compiled
/// inputs, so an empty match is a build-order bug, never a boolean
/// verdict — and the decision is the timestamp comparison.
pub fn stale_verdict(out: Option<u64>, inputs: Option<Vec<Option<u64>>>) -> (r: Result<
    bool,
    StaleError,
>)
    ensures
        out is None ==> r == Ok::<bool, StaleError>(true),
        out is Some && inputs is None ==> r == Err::<bool, _>(StaleError::BadGlob),
        inputs matches Some(v) ==> (out is Some && v@.len() == 0 ==> r == Err::<
            bool,
            StaleError,
        >(StaleError::NoInputs)),
        inputs matches Some(v) ==> (out is Some && v@.len() > 0 ==> r == Ok::<
            bool,
            StaleError,
        >(spec_stale(out, v@))),
{
    match out {
        None => Ok(true),
        Some(o) => match inputs {
            None => Err(StaleError::BadGlob),
            Some(v) => {
                if v.len() == 0 {
                    Err(StaleError::NoInputs)
                } else {
                    Ok(stale_given(Some(o), &v))
                }
            },
        },
    }
}

/// Whether the artifact at `output` must be rebuilt from the inputs matched
/// by `input_glob`. The probed values depend on the disk, so this function
/// only gathers them — the output's time, then (only when the output
/// exists) the expanded inputs and their times — and applies
/// [`stale_verdict`], which carries the exact decision contract.
pub fn is_stale(input_glob: &str, output: &str) -> (r: Result<bool, StaleError>) {
    let out_time = probe::modified(output);
    if out_time.is_none() {
        return stale_verdict(out_time, None);
    }
    let inputs = match probe::glob_list(input_glob) {
        None => {
            return stale_verdict(out_time, None);
        },
        Some(v) => v,
    };
    let mut times: Vec<Option<u64>> = Vec::new();
    let n = inputs.len();
    let mut i: usize = 0;
    while i < n
        invariant
            i <= n,
            n == inputs@.len(),
        decreases n - i,
    {
        times.push(probe::modified(inputs[i].as_str()));
        i += 1;
    }
    stale_verdict(out_time, Some(times))
}

} // verus!
