use vstd::prelude::*;

verus! {

/// Where an application stands in its lifecycle. The five values form a cycle:
/// `Applied`, `Interviewing`, `Offer`, `Rejected`, `Ghosted`, and `Applied` again.
#[derive(Clone, Copy, Debug, PartialEq, Eq, Structural)]
pub enum Status {
    Applied,
    Interviewing,
    Offer,
    Rejected,
    Ghosted,
}

impl Status {
    /// The status that follows `self` in the cycle.
    pub open spec fn successor(self) -> Status {
        match self {
            Status::Applied => Status::Interviewing,
            Status::Interviewing => Status::Offer,
            Status::Offer => Status::Rejected,
            Status::Rejected => Status::Ghosted,
            Status::Ghosted => Status::Applied,
        }
    }

    /// `self` advanced `steps` times.
    pub open spec fn advanced(self, steps: nat) -> Status
        decreases steps,
    {
        if steps == 0 {
            self
        } else {
            self.successor().advanced((steps - 1) as nat)
        }
    }

    /// Advances one step. Total: every status has a successor.
    pub fn next(&self) -> (r: Status)
        ensures
            r == self.successor(),
    {
        match self {
            Status::Applied => Status::Interviewing,
            Status::Interviewing => Status::Offer,
            Status::Offer => Status::Rejected,
            Status::Rejected => Status::Ghosted,
            Status::Ghosted => Status::Applied,
        }
    }
}

/// An instant in UTC: whole seconds since 1970-01-01 00:00:00 and the nanoseconds
/// into that second (a value of one thousand million or more marks a leap second).
#[derive(Clone, Copy, Debug, PartialEq, Eq, Structural)]
pub struct Timestamp {
    pub secs: i64,
    pub nanos: u32,
}

/// One tracked application.
#[derive(Debug, Clone)]
pub struct Job {
    pub id: usize,
    pub company: String,
    pub role: String,
    pub post_link: String,
    pub status: Status,
    pub notes: String,
    pub date_applied: Timestamp,
}

/// What a `Job` holds, with each text as its sequence of characters.
pub struct JobView {
    pub id: usize,
    pub company: Seq<char>,
    pub role: Seq<char>,
    pub post_link: Seq<char>,
    pub status: Status,
    pub notes: Seq<char>,
    pub date_applied: Timestamp,
}

impl JobView {
    /// The record that creation yields: status `Applied`, no notes.
    pub open spec fn created(
        id: usize,
        company: Seq<char>,
        role: Seq<char>,
        post_link: Seq<char>,
        date_applied: Timestamp,
    ) -> JobView {
        JobView {
            id,
            company,
            role,
            post_link,
            status: Status::Applied,
            notes: Seq::empty(),
            date_applied,
        }
    }

    /// The same record one status further.
    pub open spec fn cycled(self) -> JobView {
        JobView { status: self.status.successor(), ..self }
    }

    /// The same record after `steps` status changes.
    pub open spec fn cycled_times(self, steps: nat) -> JobView
        decreases steps,
    {
        if steps == 0 {
            self
        } else {
            self.cycled().cycled_times((steps - 1) as nat)
        }
    }

    /// The same record with another link.
    pub open spec fn with_link(self, post_link: Seq<char>) -> JobView {
        JobView { post_link, ..self }
    }
}

impl View for Job {
    type V = JobView;

    open spec fn view(&self) -> JobView {
        JobView {
            id: self.id,
            company: self.company@,
            role: self.role@,
            post_link: self.post_link@,
            status: self.status,
            notes: self.notes@,
            date_applied: self.date_applied,
        }
    }
}

/// The views of a sequence of records, in order.
pub open spec fn job_views(jobs: Seq<Job>) -> Seq<JobView> {
    Seq::new(jobs.len(), |i: int| jobs[i]@)
}

/// Reads the clock through `chrono::Utc::now` and hands the instant back as the
/// seconds and nanoseconds that `DateTime::timestamp` and
/// `DateTime::timestamp_subsec_nanos` report. Nothing is claimed of the instant.
/// `Utc::now` panics where the system clock stands before 1970.
#[verifier::external_body]
pub(crate) fn current_time() -> (t: Timestamp) {
    let now = chrono::Utc::now();
    Timestamp { secs: now.timestamp(), nanos: now.timestamp_subsec_nanos() }
}

impl Job {
    /// A record created at `date_applied`.
    pub fn created_at(
        id: usize,
        company: String,
        role: String,
        post_link: String,
        date_applied: Timestamp,
    ) -> (job: Job)
        ensures
            job@ == JobView::created(id, company@, role@, post_link@, date_applied),
    {
        Job {
            id,
            company,
            role,
            post_link,
            status: Status::Applied,
            notes: String::new(),
            date_applied,
        }
    }

    /// A record created now. The texts are taken as they are, empty ones too.
    pub fn new(id: usize, company: String, role: String, post_link: String) -> (job: Job)
        ensures
            job@ == JobView::created(id, company@, role@, post_link@, job.date_applied),
    {
        Job::created_at(id, company, role, post_link, current_time())
    }

    /// Advances the status one step and leaves every other field as it was.
    pub fn cycle_status(&mut self)
        ensures
            final(self)@ == old(self)@.cycled(),
    {
        self.status = self.status.next();
    }
}

/// Five steps lead every status back to itself.
pub proof fn lemma_status_cycle_has_five_steps(status: Status)
    ensures
        status.advanced(5) == status,
        forall|k: nat| 0 < k < 5 ==> status.advanced(k) != status,
{
    reveal_with_fuel(Status::advanced, 6);
}

/// Five status changes lead every record back to what it was.
pub proof fn lemma_five_cycles_restore_job(job: JobView)
    ensures
        job.cycled_times(5) == job,
        job.cycled_times(5).status == job.status,
{
    reveal_with_fuel(JobView::cycled_times, 6);
}

} // verus!
