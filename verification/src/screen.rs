use crate::state::{EditTarget, InputField, InputMode};
use crate::layout::{column_widths, columns_for, OVERHEAD};
use crate::models::{job_views, Job, JobView, Status};
use crate::text::{
    decimal, decimal_digits, lemma_truncated_fits, pad, padded, truncate, truncated,
};
use vstd::prelude::*;
use vstd::string::*;

verus! {

/// The colours that a row is drawn in.
#[derive(Clone, Copy, Debug, PartialEq, Eq, Structural)]
pub enum Color {
    White,
    Yellow,
    Green,
    Red,
    DarkGray,
}

/// One line of the list: its text and its colour.
#[derive(Clone, Debug)]
pub struct Row {
    pub text: String,
    pub color: Color,
}

/// The name that a status is shown under.
pub open spec fn label_of(status: Status) -> Seq<char> {
    match status {
        Status::Applied => "Applied"@,
        Status::Interviewing => "Interviewing"@,
        Status::Offer => "Offer"@,
        Status::Rejected => "Rejected"@,
        Status::Ghosted => "Ghosted"@,
    }
}

/// The name that `status` is shown under.
pub fn status_label(status: Status) -> (label: &'static str)
    ensures
        label@ == label_of(status),
{
    match status {
        Status::Applied => "Applied",
        Status::Interviewing => "Interviewing",
        Status::Offer => "Offer",
        Status::Rejected => "Rejected",
        Status::Ghosted => "Ghosted",
    }
}

/// The colour that a status is drawn in.
pub open spec fn color_of(status: Status) -> Color {
    match status {
        Status::Applied => Color::White,
        Status::Interviewing => Color::Yellow,
        Status::Offer => Color::Green,
        Status::Rejected => Color::Red,
        Status::Ghosted => Color::DarkGray,
    }
}

/// The colour that records of `status` are drawn in.
pub fn status_color(status: Status) -> (color: Color)
    ensures
        color == color_of(status),
{
    match status {
        Status::Applied => Color::White,
        Status::Interviewing => Color::Yellow,
        Status::Offer => Color::Green,
        Status::Rejected => Color::Red,
        Status::Ghosted => Color::DarkGray,
    }
}

/// How many of `jobs` have `status`.
pub open spec fn count_with_status(jobs: Seq<JobView>, status: Status) -> nat {
    jobs.filter(|job: JobView| job.status == status).len()
}

/// How many of `jobs` have `status`.
pub fn count_status(jobs: &Vec<Job>, status: Status) -> (count: usize)
    ensures
        count == count_with_status(job_views(jobs@), status),
{
    let ghost views = job_views(jobs@);
    let ghost wanted = |job: JobView| job.status == status;
    let mut count: usize = 0;
    let mut i: usize = 0;
    proof {
        reveal(Seq::filter);
        assert(views.take(0) =~= Seq::<JobView>::empty());
    }
    while i < jobs.len()
        invariant
            i <= jobs.len(),
            count <= i,
            views == job_views(jobs@),
            wanted == |job: JobView| job.status == status,
            count == views.take(i as int).filter(wanted).len(),
        decreases jobs.len() - i,
    {
        proof {
            reveal(Seq::filter);
            assert(views.take(i + 1).drop_last() =~= views.take(i as int));
            assert(views.take(i + 1).last() == jobs@[i as int]@);
        }
        if jobs[i].status == status {
            count = count + 1;
        }
        i = i + 1;
    }
    assert(views.take(i as int) =~= views);
    count
}

/// The heading of the list: the number of records, of those at `Interviewing` and
/// of those at `Offer`.
pub open spec fn title_of(jobs: Seq<JobView>) -> Seq<char> {
    " Career Tracker | Total: "@ + decimal_digits(jobs.len()) + " | Interviewing: "@
        + decimal_digits(count_with_status(jobs, Status::Interviewing)) + " | Offers: "@
        + decimal_digits(count_with_status(jobs, Status::Offer)) + " "@
}

/// The heading of the list of `jobs`.
pub fn title_text(jobs: &Vec<Job>) -> (title: String)
    ensures
        title@ == title_of(job_views(jobs@)),
{
    let total = decimal(jobs.len());
    let interviewing = decimal(count_status(jobs, Status::Interviewing));
    let offers = decimal(count_status(jobs, Status::Offer));
    let mut title = " Career Tracker | Total: ".to_owned();
    title.append(total.as_str());
    title.append(" | Interviewing: ");
    title.append(interviewing.as_str());
    title.append(" | Offers: ");
    title.append(offers.as_str());
    title.append(" ");
    title
}

/// What stands between two columns.
pub open spec fn separator() -> Seq<char> {
    seq![' ', '|', ' ']
}

/// What the link column shows: a dash for no link, else the link cut to `width`.
pub open spec fn link_shown(link: Seq<char>, width: int) -> Seq<char> {
    if link.len() == 0 {
        seq!['-']
    } else {
        truncated(link, width)
    }
}

/// A cell: `text` cut to `width` and filled up to it.
pub open spec fn cell(text: Seq<char>, width: int) -> Seq<char> {
    padded(truncated(text, width), width)
}

/// The line for `job` in a list of `total_width` columns: a space, then company,
/// role, link and status, each cut and filled up to its column, with a separator
/// between them.
pub open spec fn row_of(job: JobView, total_width: int) -> Seq<char> {
    let columns = columns_for(total_width);
    seq![' '] + cell(job.company, columns.company) + separator() + cell(job.role, columns.role)
        + separator() + padded(link_shown(job.post_link, columns.link), columns.link)
        + separator() + cell(label_of(job.status), columns.status)
}

/// The text of the line for `job` in a list of `total_width` columns.
pub fn row_text(job: &Job, total_width: u16) -> (row: String)
    ensures
        row@ == row_of(job@, total_width as int),
{
    let (company_width, role_width, link_width, status_width) = column_widths(total_width);
    let link = if job.post_link.as_str().is_empty() {
        proof {
            reveal_strlit("-");
            assert("-"@ =~= seq!['-']);
        }
        "-".to_owned()
    } else {
        truncate(job.post_link.as_str(), link_width)
    };
    let status = truncate(status_label(job.status), status_width);
    let company = truncate(job.company.as_str(), company_width);
    let role = truncate(job.role.as_str(), role_width);
    proof {
        reveal_strlit(" ");
        reveal_strlit(" | ");
        assert(" "@ =~= seq![' ']);
        assert(" | "@ =~= separator());
    }
    let mut row = " ".to_owned();
    row.append(pad(company.as_str(), company_width).as_str());
    row.append(" | ");
    row.append(pad(role.as_str(), role_width).as_str());
    row.append(" | ");
    row.append(pad(link.as_str(), link_width).as_str());
    row.append(" | ");
    row.append(pad(status.as_str(), status_width).as_str());
    row
}

/// The lines of the list, one for each of `jobs`, in order.
pub fn rows(jobs: &Vec<Job>, total_width: u16) -> (lines: Vec<Row>)
    ensures
        lines@.len() == jobs@.len(),
        forall|i: int|
            0 <= i < jobs@.len() ==> (#[trigger] lines@[i]).text@ == row_of(
                jobs@[i]@,
                total_width as int,
            ) && lines@[i].color == color_of(jobs@[i].status),
{
    let mut lines: Vec<Row> = Vec::new();
    let mut i: usize = 0;
    while i < jobs.len()
        invariant
            i <= jobs.len(),
            lines@.len() == i,
            forall|k: int|
                0 <= k < i ==> (#[trigger] lines@[k]).text@ == row_of(
                    jobs@[k]@,
                    total_width as int,
                ) && lines@[k].color == color_of(jobs@[k].status),
        decreases jobs.len() - i,
    {
        let line = Row {
            text: row_text(&jobs[i], total_width),
            color: status_color(jobs[i].status),
        };
        lines.push(line);
        i = i + 1;
    }
    lines
}

/// From twelve columns of content on, a line is exactly as wide as the list less
/// the three columns of the highlight marker.
pub proof fn lemma_row_fills_the_list(job: JobView, total_width: int)
    requires
        total_width >= OVERHEAD + 12,
    ensures
        row_of(job, total_width).len() == total_width - 3,
{
    let columns = columns_for(total_width);
    lemma_truncated_fits(job.company, columns.company);
    lemma_truncated_fits(job.role, columns.role);
    lemma_truncated_fits(job.post_link, columns.link);
    lemma_truncated_fits(label_of(job.status), columns.status);
}

/// The line under the list: the keys of the mode.
pub open spec fn footer_of(mode: InputMode) -> Seq<char> {
    match mode {
        InputMode::Normal =>
            " 'a': Add | 'e': Edit Link | 'd': Delete | Enter: Change Status | 'o': Open Link | 'q': Quit "@,
        InputMode::Editing => " Typing... Enter: Confirm | Esc: Cancel "@,
    }
}

/// The line under the list.
pub fn footer_text(mode: InputMode) -> (footer: &'static str)
    ensures
        footer@ == footer_of(mode),
{
    match mode {
        InputMode::Normal =>
            " 'a': Add | 'e': Edit Link | 'd': Delete | Enter: Change Status | 'o': Open Link | 'q': Quit ",
        InputMode::Editing => " Typing... Enter: Confirm | Esc: Cancel ",
    }
}

/// The heading of the input box: what is asked for.
pub open spec fn popup_title_of(field: InputField, target: EditTarget) -> Seq<char> {
    match field {
        InputField::Company => " Enter Company Name "@,
        InputField::Role => " Enter Role Title "@,
        InputField::Link => match target {
            EditTarget::Existing(_) => " Edit Job Link "@,
            EditTarget::New => " Enter Job Link (optional) "@,
        },
    }
}

/// The heading of the input box.
pub fn popup_title(field: InputField, target: EditTarget) -> (title: &'static str)
    ensures
        title@ == popup_title_of(field, target),
{
    match field {
        InputField::Company => " Enter Company Name ",
        InputField::Role => " Enter Role Title ",
        InputField::Link => match target {
            EditTarget::Existing(_) => " Edit Job Link ",
            EditTarget::New => " Enter Job Link (optional) ",
        },
    }
}

} // verus!
