//! Settling of background transport work after storage mutations.
use vstd::prelude::*;

use crate::error::{Error, StorageError};

verus! {

/// How one background transport task ended.
#[derive(Clone, Debug, PartialEq, Eq)]
pub enum TaskOutcome {
    Done,
    /// The task reported a failure, described.
    Failed(String),
    /// The task crashed.
    Panicked,
}

/// What a wait for the transport tasks comes to. A crashed or failed task,
/// the first in report order, decides; a wait that timed out (`None`) is no
/// error, and `Ok(false)` reports that the tasks may not all have settled.
pub open spec fn settle_outcome(results: Option<Seq<TaskOutcome>>) -> Result<bool, Error>
    decreases (match results {
        Some(s) => s.len(),
        None => 0,
    }),
{
    match results {
        None => Ok(false),
        Some(s) => if s.len() == 0 {
            Ok(true)
        } else {
            match s[0] {
                TaskOutcome::Done => settle_outcome(Some(s.drop_first())),
                TaskOutcome::Failed(m) => Err(Error::Storage(StorageError::Other(m))),
                TaskOutcome::Panicked => Err(Error::TransportPanicked),
            }
        },
    }
}

/// Judges the outcomes of the transport tasks once the wait is over.
pub fn process_transport_results(results: Option<Vec<TaskOutcome>>) -> (r: Result<bool, Error>)
    ensures
        r == settle_outcome(
            match results {
                Some(v) => Some(v@),
                None => None,
            },
        ),
{
    match results {
        None => Ok(false),
        Some(v) => {
            let ghost all = v@;
            let mut rest = v;
            let ghost mut k: int = 0;
            proof {
                assert(all.skip(0) =~= all);
            }
            while rest.len() > 0
                invariant
                    0 <= k <= all.len(),
                    match results {
                        Some(w) => w@ == all,
                        None => false,
                    },
                    rest@ == all.skip(k),
                    settle_outcome(Some(all)) == settle_outcome(Some(all.skip(k))),
                decreases rest@.len(),
            {
                let task = rest.remove(0);
                proof {
                    assert(task == all[k]);
                    assert(all.skip(k)[0] == all[k]);
                    assert(all.skip(k).drop_first() =~= all.skip(k + 1));
                    assert(rest@ =~= all.skip(k + 1));
                }
                match task {
                    TaskOutcome::Done => {},
                    TaskOutcome::Failed(m) => {
                        return Err(Error::Storage(StorageError::Other(m)));
                    },
                    TaskOutcome::Panicked => {
                        return Err(Error::TransportPanicked);
                    },
                }
                proof {
                    k = k + 1;
                }
            }
            proof {
                assert(all.skip(k) =~= Seq::<TaskOutcome>::empty());
            }
            Ok(true)
        },
    }
}

} // verus!
