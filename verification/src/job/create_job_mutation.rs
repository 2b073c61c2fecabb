//! The creation of jobs.
use crate::engine::{engine_views, find_release, release_of, Engine};
use crate::error::{engine_not_found_error, queue_closed_error, Error};
use crate::job::{
    ended_at, kept_at, lifecycle_respected, well_formed, Job, JobGraphQL, JobMap, JobStatusView,
    JobView, RETENTION_MS,
};
use crate::text::{decimal, decimal_of};
use vstd::prelude::*;
use vstd::string::StringExecFns;

verus! {

#[verifier::external_type_specification]
#[verifier::external_body]
#[verifier::reject_recursive_types(T)]
pub struct ExUnboundedSender<T>(tokio::sync::mpsc::UnboundedSender<T>);

/// The sending half of the queue that hands job ids to the worker.
pub type JobQueue = tokio::sync::mpsc::UnboundedSender<String>;

/// Calls `chrono::Utc::now` and `DateTime::timestamp_millis`: the
/// milliseconds that the system clock counts since the Unix epoch.
/// Nothing is claimed of the number. The clock must not stand before
/// the epoch.
#[verifier::external_body]
pub(crate) fn now_millis() -> (now: i64) {
    chrono::Utc::now().timestamp_millis()
}

/// Whether an id may hold `c`: a letter or digit of ASCII, a hyphen
/// or an underscore.
pub open spec fn is_id_symbol(c: char) -> bool {
    ||| 'a' <= c <= 'z'
    ||| 'A' <= c <= 'Z'
    ||| '0' <= c <= '9'
    ||| c == '-'
    ||| c == '_'
}

/// Calls `nanoid::format` with the default random source, the
/// URL-safe alphabet and the length 21, as `nanoid!()` does. The id is
/// random; what is claimed of it is its length and its alphabet.
#[verifier::external_body]
pub(crate) fn new_id() -> (id: String)
    ensures
        id@.len() == 21,
        forall|i: int| 0 <= i < id@.len() ==> is_id_symbol(#[trigger] id@[i]),
{
    nanoid::format(nanoid::rngs::default, &nanoid::alphabet::SAFE, 21)
}

/// Calls `UnboundedSender::send` and says whether it took the id. It
/// does not where the receiving half is closed or gone; which of the
/// two happens is not for this side to know.
#[verifier::external_body]
fn send_job_id(job_queue: &JobQueue, id: String) -> (sent: bool) {
    job_queue.send(id).is_ok()
}

/// A hard link to make: `from` gets the second name `to`.
#[derive(Debug)]
pub struct LinkRequest {
    pub from: String,
    pub to: String,
}

/// The link that gives the upload held open as file descriptor `fd`
/// the name `filename` inside the directory `temp_dir`.
pub fn move_upload_to_dir(fd: i32, filename: &str, temp_dir: &str) -> (r: LinkRequest)
    ensures
        r.from@ == "/proc/self/fd/"@ + decimal_of(fd as int),
        r.to@ == temp_dir@ + "/"@ + filename@,
{
    let mut from = String::from_str("/proc/self/fd/");
    from.append(decimal(fd).as_str());
    let mut to = String::from_str(temp_dir);
    to.append("/");
    to.append(filename);
    LinkRequest { from, to }
}

/// Removes the jobs that ended more than an hour ago by the system
/// clock. All others stay as they are.
pub fn cleanup_old_jobs(jobs: &mut JobMap)
    ensures
        well_formed(final(jobs)@),
        lifecycle_respected(old(jobs)@, final(jobs)@),
        exists|now: i64| final(jobs)@ == kept_at(old(jobs)@, now),
{
    let now = now_millis();
    jobs.cleanup_old_jobs_at(now);
}

/// What a caller hands in to have a job made: the locator of the
/// engine, and where the uploads were put.
#[derive(Debug)]
pub struct CreateJobInput {
    /// The engine to use to generate the GCode.
    pub engine_url: String,
    /// The directory that was made for the job.
    pub temp_dir: String,
    pub src_path: String,
    pub config_path: String,
}

/// The job that `input` asks for, under `id`, made at `now`.
pub open spec fn job_of(input: CreateJobInput, id: Seq<char>, now: i64) -> JobView {
    JobView {
        id,
        temp_dir: input.temp_dir@,
        src_path: input.src_path@,
        config_path: input.config_path@,
        engine_url: input.engine_url@,
        status: JobStatusView::Waiting,
        percent_complete: 0,
        created_at: now,
    }
}

/// The registry once `job` was made at `now`: stale jobs are gone, and
/// the new job is in unless, against all odds, its id is taken.
pub open spec fn registry_after_create(
    jobs: Map<Seq<char>, JobView>,
    job: JobView,
    now: i64,
) -> Map<Seq<char>, JobView> {
    let kept = kept_at(jobs, now);
    if !kept.dom().contains(job.id) {
        kept.insert(job.id, job)
    } else {
        kept
    }
}

/// Makes the job that `input` asks for, with the id `id`, at `now`.
/// Stale jobs are removed first. Where no engine of `engines`
/// recognises the locator the call fails and no job is put in. Else
/// the job is put in, waiting, unless its id is taken; the result is
/// the job that stands under `id`.
pub fn create_job_at(
    jobs: &mut JobMap,
    engines: &Vec<Engine>,
    input: CreateJobInput,
    id: String,
    now: i64,
) -> (r: Result<Job, Error>)
    ensures
        well_formed(final(jobs)@),
        lifecycle_respected(kept_at(old(jobs)@, now), final(jobs)@),
        match release_of(engine_views(engines@), input.engine_url@) {
            Some(_) => {
                &&& final(jobs)@ == registry_after_create(
                    old(jobs)@,
                    job_of(input, id@, now),
                    now,
                )
                &&& r matches Ok(job) && job@ == final(jobs)@[id@]
            },
            None => {
                &&& final(jobs)@ == kept_at(old(jobs)@, now)
                &&& r matches Err(e) && e@ == engine_not_found_error(input.engine_url@)
            },
        },
{
    jobs.cleanup_old_jobs_at(now);
    match find_release(engines, input.engine_url.as_str()) {
        Ok(_) => {},
        Err(e) => {
            return Err(e);
        },
    }
    let job = Job::new(id, input.temp_dir, input.src_path, input.config_path, input.engine_url, now);
    Ok(jobs.insert(job))
}

/// What the caller of a creation is told once the id of `job` has been
/// offered to the queue: the job as callers see it where the queue
/// took the id, and an error where it did not.
pub fn created(job: &Job, sent: bool) -> (r: Result<JobGraphQL, Error>)
    ensures
        sent ==> (r matches Ok(view) && view@ == job@.graphql()),
        !sent ==> (r matches Err(e) && e@ == queue_closed_error()),
{
    if sent {
        Ok(job.graphql())
    } else {
        Err(Error::queue_closed())
    }
}

/// The mutation that adds jobs.
#[derive(Clone, Copy, Debug, Default)]
pub struct CreateJobMutation;

impl CreateJobMutation {
    /// Adds a job to the registry and its id to the queue for
    /// processing into GCode. Stale jobs are removed first. Where no
    /// engine recognises the locator the call fails and no job is put
    /// in; where the queue is closed the call fails with the job in the
    /// registry.
    pub fn create_job(
        &self,
        jobs: &mut JobMap,
        job_queue: &JobQueue,
        engines: &Vec<Engine>,
        input: CreateJobInput,
    ) -> (r: Result<JobGraphQL, Error>)
        ensures
            well_formed(final(jobs)@),
            match release_of(engine_views(engines@), input.engine_url@) {
                Some(_) => {
                    &&& exists|id: Seq<char>, now: i64|
                        final(jobs)@ == registry_after_create(
                            old(jobs)@,
                            #[trigger] job_of(input, id, now),
                            now,
                        ) && id.len() == 21 && final(jobs)@.dom().contains(id) && match r {
                            Ok(view) => view@ == final(jobs)@[id].graphql(),
                            Err(e) => e@ == queue_closed_error(),
                        }
                },
                None => {
                    &&& exists|now: i64| final(jobs)@ == kept_at(old(jobs)@, now)
                    &&& r matches Err(e) && e@ == engine_not_found_error(input.engine_url@)
                },
            },
    {
        let now = now_millis();
        let id = new_id();
        let ghost id_view = id@;
        match create_job_at(jobs, engines, input, id, now) {
            Ok(job) => {
                let sent = send_job_id(job_queue, job.id.clone());
                proof {
                    assert(jobs@.dom().contains(id_view));
                    assert(jobs@ == registry_after_create(
                        old(jobs)@,
                        job_of(input, id_view, now),
                        now,
                    ));
                }
                created(&job, sent)
            },
            Err(e) => Err(e),
        }
    }
}

/// The creation of a job at `now` evicts by age and by nothing else:
/// of the jobs that were in the registry, those whose end is older than
/// the retention window are gone, and the others stay as they were. The
/// one job of which this cannot hold is an evicted job whose id the new
/// job takes.
pub proof fn lemma_creation_evicts_by_age(
    jobs: Map<Seq<char>, JobView>,
    job: JobView,
    now: i64,
    id: Seq<char>,
)
    requires
        jobs.dom().contains(id),
        job.id != id || jobs[id].status.retained(now),
    ensures
        registry_after_create(jobs, job, now).dom().contains(id) <==> (ended_at(
            jobs[id].status,
        ) matches Some(at) ==> now - at <= RETENTION_MS),
        registry_after_create(jobs, job, now).dom().contains(id) ==> registry_after_create(
            jobs,
            job,
            now,
        )[id] == jobs[id],
{
}

/// No creation puts a job into the registry where no engine recognises
/// the locator: what the registry then holds, it held before.
pub proof fn lemma_rejected_locator_inserts_nothing(
    jobs: Map<Seq<char>, JobView>,
    now: i64,
    id: Seq<char>,
)
    ensures
        kept_at(jobs, now).dom().contains(id) ==> jobs.dom().contains(id) && kept_at(
            jobs,
            now,
        )[id] == jobs[id],
{
}

} // verus!
