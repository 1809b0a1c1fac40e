use career_tracker::models::{Job, Status, Timestamp};

fn all_statuses() -> Vec<Status> {
    vec![
        Status::Applied,
        Status::Interviewing,
        Status::Offer,
        Status::Rejected,
        Status::Ghosted,
    ]
}

#[test]
fn status_next_follows_the_cycle() {
    assert_eq!(Status::Applied.next(), Status::Interviewing);
    assert_eq!(Status::Interviewing.next(), Status::Offer);
    assert_eq!(Status::Offer.next(), Status::Rejected);
    assert_eq!(Status::Rejected.next(), Status::Ghosted);
    assert_eq!(Status::Ghosted.next(), Status::Applied);
}

#[test]
fn status_returns_after_five_steps_and_not_before() {
    for start in all_statuses() {
        let mut status = start;
        for step in 1..=5 {
            status = status.next();
            if step < 5 {
                assert_ne!(status, start);
            }
        }
        assert_eq!(status, start);
    }
}

#[test]
fn created_at_fills_every_field() {
    let at = Timestamp { secs: 1_700_000_000, nanos: 42 };
    let job = Job::created_at(
        7,
        String::from("Acme"),
        String::from("Engineer"),
        String::from("http://acme.example/job"),
        at,
    );
    assert_eq!(job.id, 7);
    assert_eq!(job.company, "Acme");
    assert_eq!(job.role, "Engineer");
    assert_eq!(job.post_link, "http://acme.example/job");
    assert_eq!(job.status, Status::Applied);
    assert_eq!(job.notes, "");
    assert_eq!(job.date_applied, at);
}

#[test]
fn new_job_is_applied_without_notes() {
    let job = Job::new(1, String::from("Acme"), String::from("Engineer"), String::new());
    assert_eq!(job.id, 1);
    assert_eq!(job.company, "Acme");
    assert_eq!(job.role, "Engineer");
    assert_eq!(job.post_link, "");
    assert_eq!(job.status, Status::Applied);
    assert_eq!(job.notes, "");
}

#[test]
fn new_job_accepts_empty_texts() {
    let job = Job::new(0, String::new(), String::new(), String::new());
    assert_eq!(job.id, 0);
    assert_eq!(job.company, "");
    assert_eq!(job.role, "");
    assert_eq!(job.status, Status::Applied);
}

#[test]
fn new_job_is_stamped_with_the_present_time() {
    let before = chrono::Utc::now();
    let job = Job::new(1, String::from("Acme"), String::from("Engineer"), String::new());
    let after = chrono::Utc::now();
    let stamp = (job.date_applied.secs, job.date_applied.nanos);
    assert!((before.timestamp(), before.timestamp_subsec_nanos()) <= stamp);
    assert!(stamp <= (after.timestamp(), after.timestamp_subsec_nanos()));
    let back = chrono::DateTime::from_timestamp(job.date_applied.secs, job.date_applied.nanos);
    assert!(back.is_some());
}

#[test]
fn cycle_status_changes_the_status_alone() {
    let at = Timestamp { secs: 5, nanos: 6 };
    let mut job = Job::created_at(
        3,
        String::from("Acme"),
        String::from("Engineer"),
        String::from("link"),
        at,
    );
    job.cycle_status();
    assert_eq!(job.status, Status::Interviewing);
    assert_eq!(job.id, 3);
    assert_eq!(job.company, "Acme");
    assert_eq!(job.role, "Engineer");
    assert_eq!(job.post_link, "link");
    assert_eq!(job.notes, "");
    assert_eq!(job.date_applied, at);
}

#[test]
fn cycle_status_five_times_restores_the_record() {
    let at = Timestamp { secs: 5, nanos: 6 };
    for start in all_statuses() {
        let mut job =
            Job::created_at(3, String::from("Acme"), String::from("Engineer"), String::new(), at);
        job.status = start;
        for _ in 0..5 {
            job.cycle_status();
        }
        assert_eq!(job.status, start);
        assert_eq!(job.id, 3);
        assert_eq!(job.company, "Acme");
        assert_eq!(job.date_applied, at);
    }
}

#[test]
fn cloned_job_keeps_every_field() {
    let at = Timestamp { secs: 9, nanos: 1 };
    let job =
        Job::created_at(2, String::from("Acme"), String::from("Engineer"), String::from("l"), at);
    let copy = job.clone();
    assert_eq!(copy.id, job.id);
    assert_eq!(copy.company, job.company);
    assert_eq!(copy.role, job.role);
    assert_eq!(copy.post_link, job.post_link);
    assert_eq!(copy.status, job.status);
    assert_eq!(copy.notes, job.notes);
    assert_eq!(copy.date_applied, job.date_applied);
}
