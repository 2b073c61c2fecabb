//! The mutations, merged into one root.
use crate::job::create_job_mutation::CreateJobMutation;
use vstd::prelude::*;

verus! {

/// The root of the mutations.
#[derive(Clone, Copy, Debug, Default)]
pub struct Mutation(pub CreateJobMutation);

} // verus!
