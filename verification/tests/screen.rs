use career_tracker::state::{EditTarget, InputField, InputMode};
use career_tracker::models::{Job, Status, Timestamp};
use career_tracker::screen::{
    count_status, footer_text, popup_title, row_text, rows, status_color, status_label,
    title_text, Color,
};

fn job(company: &str, role: &str, link: &str, status: Status) -> Job {
    let mut job = Job::created_at(
        1,
        String::from(company),
        String::from(role),
        String::from(link),
        Timestamp { secs: 0, nanos: 0 },
    );
    job.status = status;
    job
}

fn sample() -> Vec<Job> {
    vec![
        job("Acme", "Engineer", "http://acme.example/job", Status::Applied),
        job("Bolt", "Analyst", "", Status::Interviewing),
        job("Core", "Designer", "x", Status::Offer),
        job("Dune", "Writer", "y", Status::Interviewing),
        job("Echo", "Tester", "z", Status::Ghosted),
    ]
}

#[test]
fn labels_are_the_names_of_the_statuses() {
    assert_eq!(status_label(Status::Applied), "Applied");
    assert_eq!(status_label(Status::Interviewing), "Interviewing");
    assert_eq!(status_label(Status::Offer), "Offer");
    assert_eq!(status_label(Status::Rejected), "Rejected");
    assert_eq!(status_label(Status::Ghosted), "Ghosted");
}

#[test]
fn labels_agree_with_the_debug_form() {
    for status in [
        Status::Applied,
        Status::Interviewing,
        Status::Offer,
        Status::Rejected,
        Status::Ghosted,
    ] {
        assert_eq!(status_label(status), format!("{:?}", status));
    }
}

#[test]
fn each_status_has_its_colour() {
    assert_eq!(status_color(Status::Applied), Color::White);
    assert_eq!(status_color(Status::Interviewing), Color::Yellow);
    assert_eq!(status_color(Status::Offer), Color::Green);
    assert_eq!(status_color(Status::Rejected), Color::Red);
    assert_eq!(status_color(Status::Ghosted), Color::DarkGray);
}

#[test]
fn count_status_counts_the_matching_records() {
    let jobs = sample();
    assert_eq!(count_status(&jobs, Status::Applied), 1);
    assert_eq!(count_status(&jobs, Status::Interviewing), 2);
    assert_eq!(count_status(&jobs, Status::Offer), 1);
    assert_eq!(count_status(&jobs, Status::Rejected), 0);
    assert_eq!(count_status(&jobs, Status::Ghosted), 1);
    assert_eq!(count_status(&Vec::new(), Status::Applied), 0);
}

#[test]
fn title_counts_records_interviews_and_offers() {
    assert_eq!(
        title_text(&sample()),
        " Career Tracker | Total: 5 | Interviewing: 2 | Offers: 1 "
    );
    assert_eq!(
        title_text(&Vec::new()),
        " Career Tracker | Total: 0 | Interviewing: 0 | Offers: 0 "
    );
}

#[test]
fn title_of_many_records_has_all_digits() {
    let jobs: Vec<Job> = (0..120).map(|_| job("A", "B", "", Status::Offer)).collect();
    assert_eq!(
        title_text(&jobs),
        " Career Tracker | Total: 120 | Interviewing: 0 | Offers: 120 "
    );
}

#[test]
fn row_at_the_threshold_cuts_the_link() {
    let jobs = sample();
    assert_eq!(
        row_text(&jobs[0], 57),
        " Acme       | Engineer   | http://acme... | Applied   "
    );
}

#[test]
fn row_shows_a_dash_for_no_link() {
    let jobs = sample();
    assert_eq!(
        row_text(&jobs[1], 57),
        " Bolt       | Analyst    | -              | Intervi..."
    );
}

#[test]
fn row_of_a_wide_list_is_filled_up() {
    let jobs = sample();
    // Columns of 16, 16, 20 and 15: the link of 23 characters is cut to 17 and marked.
    assert_eq!(
        row_text(&jobs[0], 80),
        " Acme             | Engineer         | http://acme.examp... | Applied        "
    );
    // Columns of 22, 22, 26 and 17: everything fits.
    let expected = [
        " Acme", "                  ",
        " | Engineer", "              ",
        " | http://acme.example/job", "   ",
        " | Applied", "          ",
    ]
    .concat();
    assert_eq!(row_text(&jobs[0], 100), expected);
    assert_eq!(expected.len(), 97);
}

#[test]
fn row_of_a_narrow_list_cuts_hard() {
    let jobs = sample();
    // Fourteen columns: every column has the floor of three.
    assert_eq!(row_text(&jobs[0], 14), " Acm | Eng | htt | App");
    assert_eq!(row_text(&jobs[1], 14), " Bol | Ana | -   | Int");
}

#[test]
fn row_without_room_keeps_the_separators() {
    let jobs = sample();
    assert_eq!(row_text(&jobs[0], 0), "  |  |  | ");
    assert_eq!(row_text(&jobs[1], 13), "  |  | - | ");
}

#[test]
fn row_agrees_with_the_standard_format() {
    let jobs = sample();
    for width in [0u16, 13, 14, 20, 25, 40, 56, 57, 58, 80, 120, 300] {
        let (cw, rw, lw, sw) = career_tracker::layout::column_widths(width);
        for job in &jobs {
            let link = if job.post_link.is_empty() {
                String::from("-")
            } else {
                career_tracker::text::truncate(&job.post_link, lw)
            };
            let expected = format!(
                " {:<cw$} | {:<rw$} | {:<lw$} | {:<sw$}",
                career_tracker::text::truncate(&job.company, cw),
                career_tracker::text::truncate(&job.role, rw),
                link,
                career_tracker::text::truncate(&format!("{:?}", job.status), sw),
                cw = cw,
                rw = rw,
                lw = lw,
                sw = sw,
            );
            assert_eq!(row_text(job, width), expected);
        }
    }
}

#[test]
fn rows_from_twelve_columns_of_content_on_fill_the_list() {
    let jobs = sample();
    for width in 25u16..200 {
        for job in &jobs {
            assert_eq!(row_text(job, width).chars().count(), width as usize - 3);
        }
    }
}

#[test]
fn row_measures_its_cells_in_characters() {
    let wide = job("\u{e9}\u{e9}\u{e9}\u{e9}\u{e9}\u{e9}\u{e9}\u{e9}\u{e9}\u{e9}", "R\u{f4}le", "x", Status::Offer);
    // Ten characters of two bytes fill a column of ten and are not cut.
    assert_eq!(
        row_text(&wide, 57),
        " \u{e9}\u{e9}\u{e9}\u{e9}\u{e9}\u{e9}\u{e9}\u{e9}\u{e9}\u{e9} | R\u{f4}le       | x              | Offer     "
    );
    for width in 25u16..120 {
        assert_eq!(row_text(&wide, width).chars().count(), width as usize - 3);
    }
}

#[test]
fn rows_come_in_the_order_of_the_records() {
    let jobs = sample();
    let lines = rows(&jobs, 57);
    assert_eq!(lines.len(), 5);
    for (line, job) in lines.iter().zip(jobs.iter()) {
        assert_eq!(line.text, row_text(job, 57));
        assert_eq!(line.color, status_color(job.status));
    }
    assert_eq!(lines[2].text, " Core       | Designer   | x              | Offer     ");
    assert_eq!(lines[2].color, Color::Green);
    assert!(rows(&Vec::new(), 57).is_empty());
}

#[test]
fn footer_names_the_keys_of_the_mode() {
    assert_eq!(
        footer_text(InputMode::Normal),
        " 'a': Add | 'e': Edit Link | 'd': Delete | Enter: Change Status | 'o': Open Link | 'q': Quit "
    );
    assert_eq!(footer_text(InputMode::Editing), " Typing... Enter: Confirm | Esc: Cancel ");
}

#[test]
fn popup_title_names_what_is_asked_for() {
    assert_eq!(popup_title(InputField::Company, EditTarget::New), " Enter Company Name ");
    assert_eq!(popup_title(InputField::Role, EditTarget::New), " Enter Role Title ");
    assert_eq!(popup_title(InputField::Link, EditTarget::New), " Enter Job Link (optional) ");
    assert_eq!(popup_title(InputField::Link, EditTarget::Existing(4)), " Edit Job Link ");
    assert_eq!(popup_title(InputField::Company, EditTarget::Existing(0)), " Enter Company Name ");
}
