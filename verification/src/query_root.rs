//! The queries on jobs.
use crate::error::{job_unknown_error, Error};
use crate::job::{JobGraphQL, JobMap};
use vstd::prelude::*;

verus! {

/// The root of the queries.
#[derive(Clone, Copy, Debug)]
pub struct QueryRoot;

impl QueryRoot {
    /// The job `id` as callers see it, where the registry holds it.
    pub fn job(&self, jobs: &JobMap, id: &str) -> (r: Result<JobGraphQL, Error>)
        ensures
            jobs@.dom().contains(id@) ==> (r matches Ok(view) && view@ == jobs@[id@].graphql()),
            !jobs@.dom().contains(id@) ==> (r matches Err(e) && e@ == job_unknown_error()),
    {
        match jobs.get(id) {
            Some(job) => Ok(job.graphql()),
            None => Err(Error::job_unknown()),
        }
    }
}

} // verus!
