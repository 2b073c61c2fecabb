//! What the HTTP server shares between its handlers, and how it
//! answers a request for the toolpath of a job.
use crate::error::{gcode_unreadable_error, job_unknown_error, AppError, AppResult, Error};
use crate::job::{JobMap, JobStatus};
use vstd::prelude::*;

verus! {

/// The state that all handlers share.
pub struct SharedState {
    pub jobs: JobMap,
}

/// The status code of a successful response.
pub const OK: u16 = 200;

/// The path of the toolpath file of the job `job_id`, where the
/// registry holds that job and the job is completed. The toolpath of a
/// job that has not completed is not there to be read.
pub fn get_job_gcode(shared_state: &SharedState, job_id: &str) -> (r: AppResult<String>)
    ensures
        match r {
            Ok(path) => {
                &&& shared_state.jobs@.dom().contains(job_id@)
                &&& shared_state.jobs@[job_id@].status is Completed
                &&& path@ == shared_state.jobs@[job_id@].gcode_path()
            },
            Err(e) => if !shared_state.jobs@.dom().contains(job_id@) {
                e@ == job_unknown_error()
            } else {
                shared_state.jobs@[job_id@].status !is Completed && e@ == gcode_unreadable_error()
            },
        },
{
    match shared_state.jobs.get(job_id) {
        Some(job) => match job.status {
            JobStatus::Completed(_) => Ok(job.gcode_path()),
            _ => Err(AppError { error: Error::gcode_unreadable() }),
        },
        None => Err(AppError { error: Error::job_unknown() }),
    }
}

/// The response to a request for a toolpath once the file was read:
/// its bytes where that went well, an error where it did not.
pub fn gcode_response(read: Option<Vec<u8>>) -> (r: AppResult<(u16, Vec<u8>)>)
    ensures
        match read {
            Some(gcode) => r matches Ok(response) && response.0 == OK && response.1@ == gcode@,
            None => r matches Err(e) && e@ == gcode_unreadable_error(),
        },
{
    match read {
        Some(gcode) => Ok((OK, gcode)),
        None => Err(AppError { error: Error::gcode_unreadable() }),
    }
}

} // verus!
