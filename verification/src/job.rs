//! How the end of a job's process decides the job's result.

use vstd::prelude::*;

verus! {

/// Why a job failed.
#[derive(Debug, PartialEq, Eq)]
pub enum JobError {
    /// The job's process exited, but not successfully; `status` describes how it exited.
    NonZeroExit { name: String, status: String },
    /// Waiting for the job's process to exit failed.
    Wait { message: String },
}

/// The result of the job named `name`: success when its process exited successfully, a
/// non-zero exit with the exit status when it did not, and the wait error when waiting failed.
pub fn job_outcome(name: &str, waited: Result<(bool, String), String>) -> (r: Result<(), JobError>)
    ensures
        match waited {
            Ok((true, _)) => r is Ok,
            Ok((false, status)) => (r matches Err(JobError::NonZeroExit { name: n, status: s })
                && n@ == name@ && s == status),
            Err(message) => r == Err::<(), JobError>(JobError::Wait { message }),
        },
{
    match waited {
        Ok((true, _)) => Ok(()),
        Ok((false, status)) => Err(JobError::NonZeroExit { name: name.to_owned(), status }),
        Err(message) => Err(JobError::Wait { message }),
    }
}

} // verus!
