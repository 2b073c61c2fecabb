//! Jobs, their lifecycle, and the registry that holds them.
use crate::engine::{engine_views, find_release, release_of, Engine};
use crate::error::{
    engine_not_found_error, job_not_found_error, not_started_error, not_waiting_error, Error,
    ErrorKind, ErrorView,
};
use crate::execution_context::{item_view, item_views, ExecutionContext, PERCENT_DONE};
use crate::job::create_job_mutation::now_millis;
use crate::release::{Release, ReleaseView};
use vstd::prelude::*;
use vstd::string::StringExecFns;

pub mod create_job_mutation;

verus! {

/// How long a finished job is kept, in milliseconds: one hour.
pub const RETENTION_MS: i64 = 3_600_000;

/// Where a job stands. Times are milliseconds since the Unix epoch.
#[derive(Debug, PartialEq)]
pub enum JobStatus {
    Waiting,
    Started,
    Completed(i64),
    Errored((String, i64)),
}

pub enum JobStatusView {
    Waiting,
    Started,
    Completed(i64),
    Errored(Seq<char>, i64),
}

impl View for JobStatus {
    type V = JobStatusView;

    open spec fn view(&self) -> JobStatusView {
        match self {
            JobStatus::Waiting => JobStatusView::Waiting,
            JobStatus::Started => JobStatusView::Started,
            JobStatus::Completed(at) => JobStatusView::Completed(*at),
            JobStatus::Errored(reason) => JobStatusView::Errored(reason.0@, reason.1),
        }
    }
}

impl Clone for JobStatus {
    fn clone(&self) -> (r: Self)
        ensures
            r@ == self@,
    {
        match self {
            JobStatus::Waiting => JobStatus::Waiting,
            JobStatus::Started => JobStatus::Started,
            JobStatus::Completed(at) => JobStatus::Completed(*at),
            JobStatus::Errored(reason) => JobStatus::Errored((reason.0.clone(), reason.1)),
        }
    }
}

impl JobStatusView {
    /// Whether the job has ended, one way or the other.
    pub open spec fn is_terminal(self) -> bool {
        self is Completed || self is Errored
    }

    /// How far along the lifecycle the status is.
    pub open spec fn rank(self) -> int {
        match self {
            JobStatusView::Waiting => 0,
            JobStatusView::Started => 1,
            _ => 2,
        }
    }

    /// Whether a job with this status may next be seen with `after`:
    /// unchanged, started after waiting, or ended after being started.
    pub open spec fn precedes(self, after: JobStatusView) -> bool {
        ||| after == self
        ||| (self is Waiting && after is Started)
        ||| (self is Started && after.is_terminal())
    }

    /// Whether a job with this status stays in the registry at `now`:
    /// a job that ended is kept until its end is older than the
    /// retention window.
    pub open spec fn retained(self, now: i64) -> bool {
        match self {
            JobStatusView::Completed(at) => at >= now - RETENTION_MS,
            JobStatusView::Errored(_, at) => at >= now - RETENTION_MS,
            _ => true,
        }
    }
}

/// One slicing request.
#[derive(Debug)]
pub struct Job {
    pub id: String,
    /// The directory that holds the files of the job.
    pub temp_dir: String,
    pub src_path: String,
    pub config_path: String,
    pub engine_url: String,
    pub status: JobStatus,
    /// Progress in hundredths of a percent.
    pub percent_complete: u32,
    /// When the job was created, in milliseconds since the Unix epoch.
    pub created_at: i64,
}

pub struct JobView {
    pub id: Seq<char>,
    pub temp_dir: Seq<char>,
    pub src_path: Seq<char>,
    pub config_path: Seq<char>,
    pub engine_url: Seq<char>,
    pub status: JobStatusView,
    pub percent_complete: u32,
    pub created_at: i64,
}

impl View for Job {
    type V = JobView;

    open spec fn view(&self) -> JobView {
        JobView {
            id: self.id@,
            temp_dir: self.temp_dir@,
            src_path: self.src_path@,
            config_path: self.config_path@,
            engine_url: self.engine_url@,
            status: self.status@,
            percent_complete: self.percent_complete,
            created_at: self.created_at,
        }
    }
}

impl Clone for Job {
    fn clone(&self) -> (r: Self)
        ensures
            r@ == self@,
    {
        Job {
            id: self.id.clone(),
            temp_dir: self.temp_dir.clone(),
            src_path: self.src_path.clone(),
            config_path: self.config_path.clone(),
            engine_url: self.engine_url.clone(),
            status: self.status.clone(),
            percent_complete: self.percent_complete,
            created_at: self.created_at,
        }
    }
}

/// The error of a failed job, as callers see it.
#[derive(Debug)]
pub struct JobError {
    pub message: String,
}

/// A job as callers see it.
#[derive(Debug)]
pub struct JobGraphQL {
    pub id: String,
    pub is_done: bool,
    pub error: Option<JobError>,
    pub engine_url: String,
    pub percent_complete: u32,
    pub gcode_url: String,
}

pub struct JobGraphQLView {
    pub id: Seq<char>,
    pub is_done: bool,
    pub error: Option<Seq<char>>,
    pub engine_url: Seq<char>,
    pub percent_complete: u32,
    pub gcode_url: Seq<char>,
}

impl View for JobGraphQL {
    type V = JobGraphQLView;

    open spec fn view(&self) -> JobGraphQLView {
        JobGraphQLView {
            id: self.id@,
            is_done: self.is_done,
            error: match self.error {
                Some(e) => Some(e.message@),
                None => None,
            },
            engine_url: self.engine_url@,
            percent_complete: self.percent_complete,
            gcode_url: self.gcode_url@,
        }
    }
}

impl JobView {
    /// Where the toolpath of the job is written: the path of the model
    /// with `.gcode` after it.
    pub open spec fn gcode_path(self) -> Seq<char> {
        self.src_path + ".gcode"@
    }

    /// The job as callers see it: done once it is completed, with the
    /// message of its error once it has failed.
    pub open spec fn graphql(self) -> JobGraphQLView {
        JobGraphQLView {
            id: self.id,
            is_done: self.status is Completed,
            error: match self.status {
                JobStatusView::Errored(message, _) => Some(message),
                _ => None,
            },
            engine_url: self.engine_url,
            percent_complete: self.percent_complete,
            gcode_url: "/job/"@ + self.id + "/gcode"@,
        }
    }
}

impl Job {
    /// A job that waits to be run.
    pub fn new(
        id: String,
        temp_dir: String,
        src_path: String,
        config_path: String,
        engine_url: String,
        created_at: i64,
    ) -> (r: Job)
        ensures
            r@ == (JobView {
                id: id@,
                temp_dir: temp_dir@,
                src_path: src_path@,
                config_path: config_path@,
                engine_url: engine_url@,
                status: JobStatusView::Waiting,
                percent_complete: 0,
                created_at,
            }),
    {
        Job {
            id,
            temp_dir,
            src_path,
            config_path,
            engine_url,
            status: JobStatus::Waiting,
            percent_complete: 0,
            created_at,
        }
    }

    /// Where the toolpath of the job is written.
    pub fn gcode_path(&self) -> (r: String)
        ensures
            r@ == self@.gcode_path(),
    {
        let mut path = self.src_path.clone();
        path.append(".gcode");
        path
    }

    /// The job as callers see it.
    pub fn graphql(&self) -> (r: JobGraphQL)
        ensures
            r@ == self@.graphql(),
    {
        let error = match &self.status {
            JobStatus::Errored(reason) => Some(JobError { message: reason.0.clone() }),
            _ => None,
        };
        let is_done = match &self.status {
            JobStatus::Completed(_) => true,
            _ => false,
        };
        let mut gcode_url = String::from_str("/job/");
        gcode_url.append(self.id.as_str());
        gcode_url.append("/gcode");
        JobGraphQL {
            id: self.id.clone(),
            is_done,
            error,
            engine_url: self.engine_url.clone(),
            percent_complete: self.percent_complete,
            gcode_url,
        }
    }

    /// Whether the job stays in the registry at `now`.
    pub fn is_retained(&self, now: i64) -> (r: bool)
        ensures
            r == self@.status.retained(now),
    {
        match now.checked_sub(RETENTION_MS) {
            Some(threshold) => match &self.status {
                JobStatus::Completed(at) => *at >= threshold,
                JobStatus::Errored(reason) => reason.1 >= threshold,
                _ => true,
            },
            None => true,
        }
    }
}

/// The jobs that a registry holds, by id.
pub uninterp spec fn jobs_of(jobs: dashmap::DashMap<String, Job>) -> Map<Seq<char>, JobView>;

#[verifier::external_type_specification]
#[verifier::external_body]
#[verifier::reject_recursive_types(K)]
#[verifier::reject_recursive_types(V)]
#[verifier::reject_recursive_types(S)]
pub struct ExDashMap<K, V, S>(dashmap::DashMap<K, V, S>);

/// Calls `DashMap::new`, which makes an empty map.
#[verifier::external_body]
fn dashmap_new() -> (r: dashmap::DashMap<String, Job>)
    ensures
        jobs_of(r) == no_jobs(),
{
    dashmap::DashMap::new()
}

/// Calls `DashMap::get` and copies the job out of the entry that it
/// finds under `id`; `None` where there is no such entry.
#[verifier::external_body]
fn dashmap_get(jobs: &dashmap::DashMap<String, Job>, id: &str) -> (r: Option<Job>)
    ensures
        match r {
            Some(job) => jobs_of(*jobs).dom().contains(id@) && job@ == jobs_of(*jobs)[id@],
            None => !jobs_of(*jobs).dom().contains(id@),
        },
{
    match jobs.get(id) {
        Some(entry) => Some(entry.value().clone()),
        None => None,
    }
}

/// Calls `DashMap::insert`, which puts `job` under `id` in place of
/// whatever stood there.
#[verifier::external_body]
fn dashmap_insert(jobs: &mut dashmap::DashMap<String, Job>, id: String, job: Job)
    ensures
        jobs_of(*final(jobs)) == jobs_of(*old(jobs)).insert(id@, job@),
    no_unwind
{
    jobs.insert(id, job);
}

/// Calls `DashMap::entry` and `Entry::or_insert`: where nothing stands
/// under `id`, `job` is put there; where something does, the map stays
/// as it is. Returns a copy of what stands under `id` afterwards.
#[verifier::external_body]
fn dashmap_or_insert(jobs: &mut dashmap::DashMap<String, Job>, id: String, job: Job) -> (r: Job)
    ensures
        jobs_of(*final(jobs)) == if jobs_of(*old(jobs)).dom().contains(id@) {
            jobs_of(*old(jobs))
        } else {
            jobs_of(*old(jobs)).insert(id@, job@)
        },
        r@ == jobs_of(*final(jobs))[id@],
    no_unwind
{
    jobs.entry(id).or_insert(job).value().clone()
}

/// Calls `DashMap::retain` with [`Job::is_retained`] as the test: the
/// jobs that pass it at `now` stay, unchanged, and the others leave.
#[verifier::external_body]
fn dashmap_retain(jobs: &mut dashmap::DashMap<String, Job>, now: i64)
    ensures
        jobs_of(*final(jobs)) == kept_at(jobs_of(*old(jobs)), now),
    no_unwind
{
    jobs.retain(|_, job| job.is_retained(now));
}

/// The registry that holds nothing.
pub open spec fn no_jobs() -> Map<Seq<char>, JobView> {
    Map::empty()
}

/// What is left of `jobs` once the jobs whose end is older at `now`
/// than the retention window are gone.
pub open spec fn kept_at(jobs: Map<Seq<char>, JobView>, now: i64) -> Map<Seq<char>, JobView> {
    Map::new(
        |id: Seq<char>| jobs.dom().contains(id) && jobs[id].status.retained(now),
        |id: Seq<char>| jobs[id],
    )
}

/// Every job stands under its own id, and none is further than done.
pub open spec fn well_formed(jobs: Map<Seq<char>, JobView>) -> bool {
    forall|id: Seq<char>| #[trigger]
        jobs.dom().contains(id) ==> jobs[id].id == id && jobs[id].percent_complete
            <= PERCENT_DONE
}

/// Every job that is in both registries has in `after` the status it
/// has in `before`, or one that may follow it.
pub open spec fn lifecycle_respected(
    before: Map<Seq<char>, JobView>,
    after: Map<Seq<char>, JobView>,
) -> bool {
    forall|id: Seq<char>|
        before.dom().contains(id) && #[trigger] after.dom().contains(id) ==> before[id].status.precedes(
            after[id].status,
        )
}

/// The registry of jobs in flight and of those that ended lately.
pub struct JobMap {
    jobs: dashmap::DashMap<String, Job>,
}

impl View for JobMap {
    type V = Map<Seq<char>, JobView>;

    closed spec fn view(&self) -> Map<Seq<char>, JobView> {
        jobs_of(self.jobs)
    }
}

/// `job` with the status `status`.
pub open spec fn with_status(job: JobView, status: JobStatusView) -> JobView {
    JobView { status, ..job }
}

/// `job` completed at `now`.
pub open spec fn completed(job: JobView, now: i64) -> JobView {
    with_status(job, JobStatusView::Completed(now))
}

/// The progress of a job that stood at `before` once `reported` has
/// come in: never less than before, never more than done.
pub open spec fn advanced(before: u32, reported: u32) -> u32 {
    if reported <= before {
        before
    } else if reported <= PERCENT_DONE {
        reported
    } else {
        PERCENT_DONE
    }
}

/// The progress of a job that stood at `before` once `reported` has
/// come in.
fn advance(before: u32, reported: u32) -> (r: u32)
    ensures
        r == advanced(before, reported),
{
    if reported <= before {
        before
    } else if reported <= PERCENT_DONE {
        reported
    } else {
        PERCENT_DONE
    }
}

impl JobMap {
    #[verifier::type_invariant]
    spec fn inv(self) -> bool {
        well_formed(jobs_of(self.jobs))
    }

    /// An empty registry.
    pub fn new() -> (r: JobMap)
        ensures
            r@ == no_jobs(),
    {
        JobMap { jobs: dashmap_new() }
    }

    /// A copy of the job `id`, where the registry holds it.
    pub fn get(&self, id: &str) -> (r: Option<Job>)
        ensures
            well_formed(self@),
            match r {
                Some(job) => self@.dom().contains(id@) && job@ == self@[id@],
                None => !self@.dom().contains(id@),
            },
    {
        proof {
            use_type_invariant(self);
        }
        dashmap_get(&self.jobs, id)
    }

    /// Puts `job` into the registry unless a job with its id is there
    /// already, and returns the job that then stands under that id.
    pub(crate) fn insert(&mut self, job: Job) -> (r: Job)
        requires
            job@.percent_complete <= PERCENT_DONE,
        ensures
            well_formed(final(self)@),
            lifecycle_respected(old(self)@, final(self)@),
            final(self)@ == if old(self)@.dom().contains(job@.id) {
                old(self)@
            } else {
                old(self)@.insert(job@.id, job@)
            },
            r@ == final(self)@[job@.id],
    {
        proof {
            use_type_invariant(&*self);
        }
        let id = job.id.clone();
        dashmap_or_insert(&mut self.jobs, id, job)
    }

    /// Removes the jobs whose end is older at `now` than the retention
    /// window. All others stay as they are.
    pub fn cleanup_old_jobs_at(&mut self, now: i64)
        ensures
            well_formed(final(self)@),
            lifecycle_respected(old(self)@, final(self)@),
            final(self)@ == kept_at(old(self)@, now),
    {
        proof {
            use_type_invariant(&*self);
        }
        dashmap_retain(&mut self.jobs, now);
    }

    fn replace(&mut self, job: Job)
        requires
            old(self)@.dom().contains(job@.id),
            job@.percent_complete <= PERCENT_DONE,
        ensures
            well_formed(final(self)@),
            final(self)@ == old(self)@.insert(job@.id, job@),
    {
        proof {
            use_type_invariant(&*self);
        }
        let id = job.id.clone();
        dashmap_insert(&mut self.jobs, id, job);
    }

    /// Marks the waiting job `job_id` as started. Fails, and changes
    /// nothing, where no such job is there or where it does not wait.
    pub fn start(&mut self, job_id: &str) -> (r: Result<Job, Error>)
        ensures
            well_formed(final(self)@),
            lifecycle_respected(old(self)@, final(self)@),
            match r {
                Ok(job) => {
                    &&& old(self)@.dom().contains(job_id@)
                    &&& old(self)@[job_id@].status is Waiting
                    &&& job@ == with_status(old(self)@[job_id@], JobStatusView::Started)
                    &&& final(self)@ == old(self)@.insert(job_id@, job@)
                },
                Err(e) => {
                    &&& final(self)@ == old(self)@
                    &&& if !old(self)@.dom().contains(job_id@) {
                        e@ == job_not_found_error()
                    } else {
                        old(self)@[job_id@].status !is Waiting && e@ == not_waiting_error()
                    }
                },
            },
    {
        match self.get(job_id) {
            None => Err(Error::job_not_found()),
            Some(found) => {
                match found.status {
                    JobStatus::Waiting => {
                        let mut job = found;
                        job.status = JobStatus::Started;
                        self.replace(job.clone());
                        Ok(job)
                    },
                    _ => Err(Error::not_waiting()),
                }
            },
        }
    }

    /// Records that the started job `job_id` has come as far as
    /// `percent`. Its progress never falls and never passes one hundred
    /// percent. Fails, and changes nothing, where no such job is there
    /// or where it is not started.
    pub fn set_percent_complete(&mut self, job_id: &str, percent: u32) -> (r: Result<(), Error>)
        ensures
            well_formed(final(self)@),
            lifecycle_respected(old(self)@, final(self)@),
            match r {
                Ok(_) => {
                    &&& old(self)@.dom().contains(job_id@)
                    &&& old(self)@[job_id@].status is Started
                    &&& final(self)@ == old(self)@.insert(
                        job_id@,
                        JobView {
                            percent_complete: advanced(
                                old(self)@[job_id@].percent_complete,
                                percent,
                            ),
                            ..old(self)@[job_id@]
                        },
                    )
                },
                Err(e) => {
                    &&& final(self)@ == old(self)@
                    &&& if !old(self)@.dom().contains(job_id@) {
                        e@ == job_not_found_error()
                    } else {
                        old(self)@[job_id@].status !is Started && e@ == not_started_error()
                    }
                },
            },
    {
        match self.get(job_id) {
            None => Err(Error::job_not_found()),
            Some(found) => {
                match found.status {
                    JobStatus::Started => {
                        let mut job = found;
                        job.percent_complete = advance(job.percent_complete, percent);
                        self.replace(job);
                        Ok(())
                    },
                    _ => Err(Error::not_started()),
                }
            },
        }
    }

    /// Ends the started job `job_id` with `status`, which is a terminal
    /// one. Fails, and changes nothing, where no such job is there or
    /// where it is not started.
    fn finish(&mut self, job_id: &str, status: JobStatus) -> (r: Result<(), Error>)
        requires
            status@.is_terminal(),
        ensures
            well_formed(final(self)@),
            lifecycle_respected(old(self)@, final(self)@),
            match r {
                Ok(_) => {
                    &&& old(self)@.dom().contains(job_id@)
                    &&& old(self)@[job_id@].status is Started
                    &&& final(self)@ == old(self)@.insert(
                        job_id@,
                        with_status(old(self)@[job_id@], status@),
                    )
                },
                Err(e) => {
                    &&& final(self)@ == old(self)@
                    &&& if !old(self)@.dom().contains(job_id@) {
                        e@ == job_not_found_error()
                    } else {
                        old(self)@[job_id@].status !is Started && e@ == not_started_error()
                    }
                },
            },
    {
        match self.get(job_id) {
            None => Err(Error::job_not_found()),
            Some(found) => {
                match found.status {
                    JobStatus::Started => {
                        let mut job = found;
                        job.status = status;
                        self.replace(job);
                        Ok(())
                    },
                    _ => Err(Error::not_started()),
                }
            },
        }
    }

    /// Marks the started job `job_id` as completed at `now`. Fails, and
    /// changes nothing, where no such job is there or where it is not
    /// started.
    pub fn complete_at(&mut self, job_id: &str, now: i64) -> (r: Result<(), Error>)
        ensures
            well_formed(final(self)@),
            lifecycle_respected(old(self)@, final(self)@),
            match r {
                Ok(_) => {
                    &&& old(self)@.dom().contains(job_id@)
                    &&& old(self)@[job_id@].status is Started
                    &&& final(self)@ == old(self)@.insert(
                        job_id@,
                        with_status(old(self)@[job_id@], JobStatusView::Completed(now)),
                    )
                },
                Err(e) => {
                    &&& final(self)@ == old(self)@
                    &&& if !old(self)@.dom().contains(job_id@) {
                        e@ == job_not_found_error()
                    } else {
                        old(self)@[job_id@].status !is Started && e@ == not_started_error()
                    }
                },
            },
    {
        self.finish(job_id, JobStatus::Completed(now))
    }

    /// Marks the started job `job_id` as completed at the time that the
    /// system clock shows. Fails, and changes nothing, where no such
    /// job is there or where it is not started.
    pub fn complete(&mut self, job_id: &str) -> (r: Result<(), Error>)
        ensures
            well_formed(final(self)@),
            lifecycle_respected(old(self)@, final(self)@),
            match r {
                Ok(_) => {
                    &&& old(self)@.dom().contains(job_id@)
                    &&& old(self)@[job_id@].status is Started
                    &&& exists|now: i64|
                        final(self)@ == old(self)@.insert(
                            job_id@,
                            #[trigger] completed(old(self)@[job_id@], now),
                        )
                },
                Err(e) => {
                    &&& final(self)@ == old(self)@
                    &&& if !old(self)@.dom().contains(job_id@) {
                        e@ == job_not_found_error()
                    } else {
                        old(self)@[job_id@].status !is Started && e@ == not_started_error()
                    }
                },
            },
    {
        let now = now_millis();
        let r = self.complete_at(job_id, now);
        proof {
            if r is Ok {
                assert(self@ == old(self)@.insert(job_id@, completed(old(self)@[job_id@], now)));
            }
        }
        r
    }

    /// Marks the started job `job_id` as failed at `now` for the reason
    /// `message`. Fails, and changes nothing, where no such job is
    /// there or where it is not started.
    pub fn fail_at(&mut self, job_id: &str, message: String, now: i64) -> (r: Result<(), Error>)
        ensures
            well_formed(final(self)@),
            lifecycle_respected(old(self)@, final(self)@),
            match r {
                Ok(_) => {
                    &&& old(self)@.dom().contains(job_id@)
                    &&& old(self)@[job_id@].status is Started
                    &&& final(self)@ == old(self)@.insert(
                        job_id@,
                        with_status(old(self)@[job_id@], JobStatusView::Errored(message@, now)),
                    )
                },
                Err(e) => {
                    &&& final(self)@ == old(self)@
                    &&& if !old(self)@.dom().contains(job_id@) {
                        e@ == job_not_found_error()
                    } else {
                        old(self)@[job_id@].status !is Started && e@ == not_started_error()
                    }
                },
            },
    {
        self.finish(job_id, JobStatus::Errored((message, now)))
    }
}

/// The job `job` and the result of its run once the progress stream
/// `items` has been drained at `now`: every item moves the progress on,
/// the first error stops the run where it stands, and a stream that
/// ends without one completes the job.
pub open spec fn drained(job: JobView, items: Seq<Result<u32, ErrorView>>, now: i64) -> (
    JobView,
    Result<(), ErrorView>,
)
    decreases items.len(),
{
    if items.len() == 0 {
        (with_status(job, JobStatusView::Completed(now)), Ok(()))
    } else {
        match items[0] {
            Ok(percent) => drained(
                JobView { percent_complete: advanced(job.percent_complete, percent), ..job },
                items.drop_first(),
                now,
            ),
            Err(e) => (job, Err(e)),
        }
    }
}

/// The job `job` once the worker has dealt with the `result` of its
/// run at `now`: a started job whose run failed is marked as failed,
/// with the message of the error; anything else stays as it is. An
/// error that says that the job was not in the state to be run is none
/// of this run's.
pub open spec fn settled(job: JobView, result: Result<(), ErrorView>, now: i64) -> JobView {
    match result {
        Err(e) => if job.status is Started && e.kind != ErrorKind::InvalidTransition {
            with_status(job, JobStatusView::Errored(e.message, now))
        } else {
            job
        },
        Ok(_) => job,
    }
}

/// What the run of a job needs to know: the release to invoke and the
/// paths to hand to it.
pub open spec fn context_of(job: JobView, release: ReleaseView) -> (
    ReleaseView,
    Seq<char>,
    Seq<char>,
    Seq<char>,
) {
    (release, job.src_path, job.config_path, job.gcode_path())
}

impl Job {
    /// Begins the run of the job `job_id`: marks it as started and
    /// finds the release that its locator names in `engines`. Fails,
    /// and changes nothing, where no such job is there or where it does
    /// not wait; fails with the job started where no engine recognises
    /// its locator.
    pub fn run(jobs: &mut JobMap, engines: &Vec<Engine>, job_id: &str) -> (r: Result<
        ExecutionContext<Release>,
        Error,
    >)
        ensures
            well_formed(final(jobs)@),
            lifecycle_respected(old(jobs)@, final(jobs)@),
            if !old(jobs)@.dom().contains(job_id@) {
                &&& final(jobs)@ == old(jobs)@
                &&& r matches Err(e) && e@ == job_not_found_error()
            } else if old(jobs)@[job_id@].status !is Waiting {
                &&& final(jobs)@ == old(jobs)@
                &&& r matches Err(e) && e@ == not_waiting_error()
            } else {
                let job = old(jobs)@[job_id@];
                &&& final(jobs)@ == old(jobs)@.insert(
                    job_id@,
                    with_status(job, JobStatusView::Started),
                )
                &&& match release_of(engine_views(engines@), job.engine_url) {
                    Some(release) => r matches Ok(ctx) && (
                        ctx.release@,
                        ctx.src_path@,
                        ctx.config_path@,
                        ctx.gcode_path@,
                    ) == context_of(job, release),
                    None => r matches Err(e) && e@ == engine_not_found_error(job.engine_url),
                }
            },
    {
        let job = match jobs.start(job_id) {
            Ok(job) => job,
            Err(e) => {
                return Err(e);
            },
        };
        let gcode_path = job.gcode_path();
        match find_release(engines, job.engine_url.as_str()) {
            Ok(release) => Ok(
                ExecutionContext {
                    release,
                    src_path: job.src_path,
                    config_path: job.config_path,
                    gcode_path,
                },
            ),
            Err(e) => Err(e),
        }
    }

    /// Drains the progress stream of the started job `job_id`: every
    /// item moves its progress on, the first error ends the run and is
    /// returned, and a stream without one completes the job at `now`.
    /// Fails, and changes nothing, where no such job is there or where
    /// it is not started.
    pub fn drain(jobs: &mut JobMap, job_id: &str, items: Vec<Result<u32, Error>>, now: i64) -> (r:
        Result<(), Error>)
        ensures
            well_formed(final(jobs)@),
            lifecycle_respected(old(jobs)@, final(jobs)@),
            if !old(jobs)@.dom().contains(job_id@) {
                &&& final(jobs)@ == old(jobs)@
                &&& r matches Err(e) && e@ == job_not_found_error()
            } else if old(jobs)@[job_id@].status !is Started {
                &&& final(jobs)@ == old(jobs)@
                &&& r matches Err(e) && e@ == not_started_error()
            } else {
                let end = drained(old(jobs)@[job_id@], item_views(items@), now);
                &&& final(jobs)@ == old(jobs)@.insert(job_id@, end.0)
                &&& match end.1 {
                    Ok(_) => r is Ok,
                    Err(error) => r matches Err(e) && e@ == error,
                }
            },
    {
        let found = match jobs.get(job_id) {
            Some(job) => job,
            None => {
                return Err(Error::job_not_found());
            },
        };
        match found.status {
            JobStatus::Started => {},
            _ => {
                return Err(Error::not_started());
            },
        }
        let ghost begin = found@;
        let ghost all = item_views(items@);
        let mut job = found;
        let mut i: usize = 0;
        let mut failure: Option<Error> = None;
        proof {
            assert(all.skip(0) =~= all);
            assert(jobs@.insert(job_id@, job@) =~= jobs@);
        }
        while i < items.len() && failure.is_none()
            invariant
                i <= items.len(),
                item_views(items@) == all,
                job@.status is Started,
                job@.id == job_id@,
                job@.percent_complete <= PERCENT_DONE,
                match failure {
                    Some(e) => i > 0 && all[i - 1] == Err::<u32, ErrorView>(e@) && drained(
                        begin,
                        all,
                        now,
                    ) == (job@, Err::<(), ErrorView>(e@)),
                    None => drained(begin, all, now) == drained(job@, all.skip(i as int), now),
                },
            decreases items.len() - i + if failure is None { 1int } else { 0int },
        {
            proof {
                assert(all.skip(i as int)[0] == all[i as int]);
                assert(all.skip(i as int).drop_first() =~= all.skip(i + 1));
                assert(all[i as int] == item_view(items@[i as int]));
            }
            match &items[i] {
                Ok(percent) => {
                    job.percent_complete = advance(job.percent_complete, *percent);
                },
                Err(e) => {
                    failure = Some(e.duplicate());
                },
            }
            i += 1;
        }
        match failure {
            Some(e) => {
                jobs.replace(job);
                Err(e)
            },
            None => {
                proof {
                    assert(all.skip(i as int).len() == 0);
                }
                job.status = JobStatus::Completed(now);
                jobs.replace(job);
                Ok(())
            },
        }
    }
}

/// What the worker does with the `result` of the run of `job_id` at
/// `now`, before it turns to the next job: a started job whose run
/// failed is marked as failed with the message of the error. Reports,
/// and changes nothing, where the run failed and no such job is there.
pub fn run_job_queue_at(jobs: &mut JobMap, job_id: &str, result: Result<(), Error>, now: i64) -> (r:
    Result<(), Error>)
    ensures
        well_formed(final(jobs)@),
        lifecycle_respected(old(jobs)@, final(jobs)@),
        match result {
            Ok(_) => r is Ok && final(jobs)@ == old(jobs)@,
            Err(error) => if old(jobs)@.dom().contains(job_id@) {
                &&& r is Ok
                &&& final(jobs)@ == old(jobs)@.insert(
                    job_id@,
                    settled(old(jobs)@[job_id@], Err(error@), now),
                )
            } else {
                &&& r matches Err(e) && e@ == job_not_found_error()
                &&& final(jobs)@ == old(jobs)@
            },
        },
{
    match result {
        Ok(_) => {
            proof {
                use_type_invariant(&*jobs);
            }
            Ok(())
        },
        Err(error) => {
            match jobs.get(job_id) {
                None => Err(Error::job_not_found()),
                Some(job) => {
                    let is_started = match job.status {
                        JobStatus::Started => true,
                        _ => false,
                    };
                    let own = match error.kind {
                        ErrorKind::InvalidTransition => false,
                        _ => true,
                    };
                    if is_started && own {
                        let _ = jobs.fail_at(job_id, error.message, now);
                    } else {
                        assert(jobs@.insert(job_id@, job@) =~= jobs@);
                    }
                    Ok(())
                },
            }
        },
    }
}

/// What the worker does with the `result` of the run of `job_id`
/// before it turns to the next job, at the time that the system clock
/// shows: a started job whose run failed is marked as failed with the
/// message of the error. Reports, and changes nothing, where the run
/// failed and no such job is there.
pub fn run_job_queue(jobs: &mut JobMap, job_id: &str, result: Result<(), Error>) -> (r: Result<
    (),
    Error,
>)
    ensures
        well_formed(final(jobs)@),
        lifecycle_respected(old(jobs)@, final(jobs)@),
        match result {
            Ok(_) => r is Ok && final(jobs)@ == old(jobs)@,
            Err(error) => if old(jobs)@.dom().contains(job_id@) {
                &&& r is Ok
                &&& exists|now: i64|
                    final(jobs)@ == old(jobs)@.insert(
                        job_id@,
                        #[trigger] settled(old(jobs)@[job_id@], Err(error@), now),
                    )
            } else {
                &&& r matches Err(e) && e@ == job_not_found_error()
                &&& final(jobs)@ == old(jobs)@
            },
        },
{
    let now = now_millis();
    let r = run_job_queue_at(jobs, job_id, result, now);
    proof {
        if result is Err && old(jobs)@.dom().contains(job_id@) {
            assert(jobs@ == old(jobs)@.insert(
                job_id@,
                settled(old(jobs)@[job_id@], Err(result->Err_0@), now),
            ));
        }
    }
    r
}

/// Along any sequence of statuses in which each may follow the one
/// before, a job never goes back: what is seen later stands at least as
/// far along, a terminal status once seen is the only one seen from
/// then on, and between waiting and a terminal status the job is seen
/// started.
pub proof fn lemma_lifecycle_is_monotonic(observed: Seq<JobStatusView>, i: int, j: int)
    requires
        forall|k: int| 0 <= k < observed.len() - 1 ==> (#[trigger] observed[k]).precedes(
            observed[k + 1],
        ),
        0 <= i <= j < observed.len(),
    ensures
        observed[i].rank() <= observed[j].rank(),
        observed[i].is_terminal() ==> observed[j] == observed[i],
        observed[i] is Waiting && observed[j].is_terminal() ==> exists|k: int|
            i < k < j && observed[k] is Started,
    decreases j - i,
{
    if i < j {
        lemma_lifecycle_is_monotonic(observed, i, j - 1);
        assert(observed[j - 1].precedes(observed[j]));
        if observed[i] is Waiting && observed[j].is_terminal() {
            if observed[j - 1].is_terminal() {
                let k = choose|k: int| i < k < j - 1 && observed[k] is Started;
                assert(i < k < j && observed[k] is Started);
            } else {
                assert(observed[j - 1] is Started);
                assert(i < j - 1 < j && observed[j - 1] is Started);
            }
        }
    }
}

/// The time at which a job ended, where it has.
pub open spec fn ended_at(status: JobStatusView) -> Option<i64> {
    match status {
        JobStatusView::Completed(at) => Some(at),
        JobStatusView::Errored(_, at) => Some(at),
        _ => None,
    }
}

/// Eviction at `now` takes exactly the jobs whose end is older than
/// the retention window: a job that has not ended stays, a job that
/// ended stays as long as no more than the window has passed since, and
/// every job that stays is as it was.
pub proof fn lemma_eviction_window(jobs: Map<Seq<char>, JobView>, id: Seq<char>, now: i64)
    requires
        jobs.dom().contains(id),
    ensures
        kept_at(jobs, now).dom().contains(id) <==> (ended_at(jobs[id].status) matches Some(at)
            ==> now - at <= RETENTION_MS),
        kept_at(jobs, now).dom().contains(id) ==> kept_at(jobs, now)[id] == jobs[id],
        lifecycle_respected(jobs, kept_at(jobs, now)),
{
}

/// A job whose engine exits with code 0 ends completed at one hundred
/// percent; a job whose engine exits with another code ends failed with
/// what the engine wrote to its standard error.
pub proof fn lemma_run_outcomes(job: JobView, stderr: String, now: i64)
    requires
        job.status is Started,
        job.percent_complete <= PERCENT_DONE,
    ensures
        ({
            let success = crate::execution_context::Output::Exited { success: true, stderr };
            let end = drained(job, seq![crate::execution_context::output_item(success)], now);
            &&& end.1 is Ok
            &&& end.0.status == JobStatusView::Completed(now)
            &&& end.0.percent_complete == PERCENT_DONE
        }),
        ({
            let failure = crate::execution_context::Output::Exited { success: false, stderr };
            let end = drained(job, seq![crate::execution_context::output_item(failure)], now);
            &&& end.1 == Err::<(), ErrorView>(crate::error::subprocess_error(stderr@))
            &&& settled(end.0, end.1, now).status == JobStatusView::Errored(stderr@, now)
            &&& settled(end.0, end.1, now).percent_complete == job.percent_complete
        }),
{
    let success = crate::execution_context::Output::Exited { success: true, stderr };
    let items = seq![crate::execution_context::output_item(success)];
    assert(items.drop_first().len() == 0);
    let once = JobView {
        percent_complete: advanced(job.percent_complete, PERCENT_DONE),
        ..job
    };
    assert(drained(once, items.drop_first(), now) == (
        with_status(once, JobStatusView::Completed(now)),
        Ok::<(), ErrorView>(()),
    ));
}

} // verus!
