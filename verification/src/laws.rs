use crate::state::{AppView, EditTarget, InputField, InputMode, Key};
use crate::models::{JobView, Status, Timestamp};
use crate::text::trimmed;
use vstd::prelude::*;

verus! {

proof fn lemma_next_times_split(s: AppView, a: nat, b: nat)
    ensures
        s.next_times(a + b) == s.next_times(a).next_times(b),
    decreases a,
{
    if a > 0 {
        lemma_next_times_split(s.next(), (a - 1) as nat, b);
        assert((a + b - 1) as nat == (a - 1) as nat + b);
    }
}

proof fn lemma_next_times_walks(s: AppView, i: usize, steps: nat)
    requires
        s.selected == Some(i),
        i + steps < s.jobs.len(),
        s.jobs.len() <= usize::MAX,
    ensures
        s.next_times(steps) == (AppView { selected: Some((i + steps) as usize), ..s }),
    decreases steps,
{
    if steps > 0 {
        lemma_next_times_walks(s.next(), (i + 1) as usize, (steps - 1) as nat);
    }
}

/// As many steps forward as there are records bring the cursor back to where it
/// was: moving on is cyclic.
pub proof fn lemma_next_comes_round(s: AppView)
    requires
        s.wf(),
    ensures
        s.next_times(s.jobs.len()) == s,
{
    match s.selected {
        Some(i) => {
            let len = s.jobs.len();
            let to_last = (len - 1 - i) as nat;
            lemma_next_times_walks(s, i, to_last);
            let at_last = s.next_times(to_last);
            let at_first = at_last.next();
            assert(at_first == (AppView { selected: Some(0usize), ..s }));
            lemma_next_times_walks(at_first, 0, i as nat);
            assert(at_first.next_times(i as nat) == s);
            assert(at_last.next_times(1) == at_first) by {
                reveal_with_fuel(AppView::next_times, 2);
            }
            lemma_next_times_split(s, to_last, 1);
            lemma_next_times_split(s, to_last + 1, i as nat);
            assert(to_last + 1 + i as nat == len);
        },
        None => {},
    }
}

/// A step forward and a step back undo each other.
pub proof fn lemma_next_and_previous_undo(s: AppView)
    requires
        s.wf(),
    ensures
        s.next().previous() == s,
        s.previous().next() == s,
        s.next().wf(),
        s.previous().wf(),
{
}

/// Deleting keeps the cursor valid and takes out the record under it and no other:
/// the records before it stay where they were and those behind it move up by one.
/// The cursor is left on the record that followed; where none followed it is left
/// on the new last record, and absent where no record is left.
pub proof fn lemma_delete_keeps_cursor_valid(s: AppView)
    requires
        s.wf(),
    ensures
        s.delete_current_job().wf(),
        s.selected is None ==> s.delete_current_job() == s,
        s.selected matches Some(i) ==> s.delete_current_job().jobs == s.jobs.remove(i as int)
            && s.delete_current_job().jobs.len() == s.jobs.len() - 1,
        s.selected matches Some(i) ==> forall|j: int|
            0 <= j < i ==> #[trigger] s.delete_current_job().jobs[j] == s.jobs[j],
        s.selected matches Some(i) ==> forall|j: int|
            i <= j < s.jobs.len() - 1 ==> #[trigger] s.delete_current_job().jobs[j] == s.jobs[j
                + 1],
        s.selected matches Some(i) ==> (i + 1 < s.jobs.len()
            ==> s.delete_current_job().selected == Some(i)),
        s.selected matches Some(i) ==> (i + 1 == s.jobs.len() && s.jobs.len() > 1 ==> (
        s.delete_current_job().selected matches Some(j) && j + 1
            == s.delete_current_job().jobs.len())),
        s.selected matches Some(i) ==> (s.jobs.len() == 1
            ==> s.delete_current_job().selected is None),
{
}

/// Deleting the last record while it is under the cursor leaves the cursor on the
/// new last record, and absent where no record is left.
pub proof fn lemma_delete_last_selects_new_last(s: AppView)
    requires
        s.wf(),
        s.selected matches Some(i) && i + 1 == s.jobs.len(),
    ensures
        s.delete_current_job().jobs == s.jobs.drop_last(),
        s.jobs.len() == 1 ==> s.delete_current_job().selected is None,
        s.jobs.len() > 1 ==> (s.delete_current_job().selected matches Some(j) && j + 1
            == s.delete_current_job().jobs.len()),
{
    assert(s.jobs.remove(s.jobs.len() - 1) =~= s.jobs.drop_last());
}

/// Typing a text puts it behind what the buffer holds and changes nothing else.
pub proof fn lemma_type_text_appends(s: AppView, text: Seq<char>)
    ensures
        s.type_text(text) == (AppView { input_buffer: s.input_buffer + text, ..s }),
    decreases text.len(),
{
    if text.len() == 0 {
        assert(s.input_buffer + text =~= s.input_buffer);
    } else {
        lemma_type_text_appends(s, text.drop_last());
        assert((s.input_buffer + text.drop_last()).push(text.last()) =~= s.input_buffer + text);
    }
}

/// Resetting the input changes nothing where nothing is typed or staged.
pub proof fn lemma_reset_at_rest_changes_nothing(s: AppView)
    requires
        s.at_rest(),
    ensures
        s.reset_input() == s,
{
}

/// The state in which an added record leaves a session that stood in `s`.
pub open spec fn after_add(
    s: AppView,
    company: Seq<char>,
    role: Seq<char>,
    link: Seq<char>,
    now: Timestamp,
) -> AppView {
    AppView {
        jobs: s.jobs.push(
            JobView::created((s.jobs.len() + 1) as usize, company, role, trimmed(link), now),
        ),
        selected: if s.jobs.len() == 0 {
            Some(0usize)
        } else {
            s.selected
        },
        ..s.reset_input()
    }
}

/// Confirming the link of a record to be appended, whatever is staged and typed,
/// appends exactly one record: it is the last, holds the staged company and role
/// and the trimmed buffer as its link, has the status `Applied`, no notes, the time
/// of this confirmation and the new length as its id. Every record that was there
/// stays where and as it was, and the input is at rest afterwards.
pub proof fn lemma_link_confirmation_appends_one_record(s: AppView, now: Timestamp)
    requires
        s.wf(),
        s.submit_appends(),
        s.jobs.len() < usize::MAX,
    ensures
        s.submit_input(now).jobs.len() == s.jobs.len() + 1,
        s.submit_input(now).jobs.last() == JobView::created(
            (s.jobs.len() + 1) as usize,
            s.temp_company,
            s.temp_role,
            trimmed(s.input_buffer),
            now,
        ),
        s.submit_input(now).jobs.last().id == s.jobs.len() + 1,
        s.submit_input(now).jobs.last().status == Status::Applied,
        s.submit_input(now).jobs.last().notes == Seq::<char>::empty(),
        s.submit_input(now).jobs.last().date_applied == now,
        forall|i: int|
            0 <= i < s.jobs.len() ==> #[trigger] s.submit_input(now).jobs[i] == s.jobs[i],
        s.submit_input(now).at_rest(),
        s.submit_input(now).wf(),
{
}

/// No other confirmation appends, removes or moves a record: staging a company or
/// a role leaves the records as they are, and confirming the link of a record
/// under edit keeps their number.
pub proof fn lemma_other_confirmations_append_nothing(s: AppView, now: Timestamp)
    requires
        !s.submit_appends(),
    ensures
        s.submit_input(now).jobs.len() == s.jobs.len(),
        s.input_field != InputField::Link ==> s.submit_input(now).jobs == s.jobs
            && s.submit_input(now).selected == s.selected,
{
}

/// Typing and confirming a company, a role and a link appends exactly one record,
/// and only the third confirmation does: it holds the company and the role as typed
/// and the link trimmed, has the status `Applied`, no notes, the time of the last
/// confirmation and the new length as its id. Every record that was there stays as
/// it was, and the input is at rest again.
pub proof fn lemma_add_appends_one_record(
    s: AppView,
    company: Seq<char>,
    role: Seq<char>,
    link: Seq<char>,
    t1: Timestamp,
    t2: Timestamp,
    t3: Timestamp,
)
    requires
        s.wf(),
        s.jobs.len() < usize::MAX,
    ensures
        s.start_add().type_text(company).submit_input(t1).type_text(role).submit_input(
            t2,
        ).type_text(link).submit_input(t3) == after_add(s, company, role, link, t3),
        after_add(s, company, role, link, t3).jobs.len() == s.jobs.len() + 1,
        after_add(s, company, role, link, t3).jobs.last() == JobView::created(
            (s.jobs.len() + 1) as usize,
            company,
            role,
            trimmed(link),
            t3,
        ),
        after_add(s, company, role, link, t3).jobs.last().status == Status::Applied,
        forall|i: int|
            0 <= i < s.jobs.len() ==> #[trigger] after_add(s, company, role, link, t3).jobs[i]
                == s.jobs[i],
        after_add(s, company, role, link, t3).should_quit == s.should_quit,
        after_add(s, company, role, link, t3).at_rest(),
        after_add(s, company, role, link, t3).wf(),
        s.start_add().type_text(company).submit_input(t1).jobs == s.jobs,
        s.start_add().type_text(company).submit_input(t1).type_text(role).submit_input(
            t2,
        ).jobs == s.jobs,
        s.start_add().type_text(company).submit_input(t1).type_text(role).submit_input(
            t2,
        ).type_text(link).submit_appends(),
{
    let a = s.start_add();
    lemma_type_text_appends(a, company);
    assert(Seq::<char>::empty() + company =~= company);
    let b = a.type_text(company).submit_input(t1);
    lemma_type_text_appends(b, role);
    assert(Seq::<char>::empty() + role =~= role);
    let c = b.type_text(role).submit_input(t2);
    lemma_type_text_appends(c, link);
    assert(Seq::<char>::empty() + link =~= link);
}

/// Cancelling an addition at any of its three steps appends no record and leaves
/// nothing typed or staged: the session stands as a reset alone would have left
/// it, which for a session at rest is as it stood.
pub proof fn lemma_cancel_restores(
    s: AppView,
    company: Seq<char>,
    role: Seq<char>,
    typed: Seq<char>,
    t1: Timestamp,
    t2: Timestamp,
)
    ensures
        s.start_add().type_text(typed).reset_input() == s.reset_input(),
        s.start_add().type_text(company).submit_input(t1).type_text(typed).reset_input()
            == s.reset_input(),
        s.start_add().type_text(company).submit_input(t1).type_text(role).submit_input(
            t2,
        ).type_text(typed).reset_input() == s.reset_input(),
        s.reset_input().jobs == s.jobs,
        s.reset_input().selected == s.selected,
        s.reset_input().should_quit == s.should_quit,
        s.reset_input().at_rest(),
        s.at_rest() ==> s.reset_input() == s,
{
    let a = s.start_add();
    lemma_type_text_appends(a, typed);
    lemma_type_text_appends(a, company);
    let b = a.type_text(company).submit_input(t1);
    lemma_type_text_appends(b, typed);
    lemma_type_text_appends(b, role);
    let c = b.type_text(role).submit_input(t2);
    lemma_type_text_appends(c, typed);
}

/// Editing the link of the record under the cursor, whatever the buffer holds when
/// it is confirmed, changes that record's link to the trimmed buffer and nothing
/// else: not its other fields, not another record, not the cursor.
pub proof fn lemma_edit_changes_only_the_link(s: AppView, buffer: Seq<char>, now: Timestamp)
    requires
        s.wf(),
        s.selected is Some,
    ensures
        ({
            let i = s.selected->0 as int;
            let editing = s.start_edit_link();
            let end = (AppView { input_buffer: buffer, ..editing }).submit_input(now);
            &&& editing.input_buffer == s.jobs[i].post_link
            &&& end == (AppView {
                jobs: s.jobs.update(i, s.jobs[i].with_link(trimmed(buffer))),
                ..s.reset_input()
            })
            &&& end.jobs.len() == s.jobs.len()
            &&& forall|j: int|
                0 <= j < s.jobs.len() && j != i ==> #[trigger] end.jobs[j] == s.jobs[j]
            &&& end.jobs[i] == (JobView { post_link: trimmed(buffer), ..s.jobs[i] })
            &&& end.selected == s.selected
            &&& end.should_quit == s.should_quit
        }),
{
}

/// While a text is being edited, typing and erasing change the buffer alone.
pub proof fn lemma_typing_changes_the_buffer_alone(s: AppView, key: Key, now: Timestamp)
    requires
        s.input_mode == InputMode::Editing,
        key is Char || key is Backspace,
    ensures
        s.step(key, now) == (AppView { input_buffer: s.step(key, now).input_buffer, ..s }),
        key matches Key::Char(c) ==> s.step(key, now).input_buffer == s.input_buffer.push(c),
{
}

/// While a text is being edited, no key but the confirmation of a link changes a
/// record or the cursor, and no key ends the session.
pub proof fn lemma_editing_leaves_records_alone(s: AppView, key: Key, now: Timestamp)
    requires
        s.input_mode == InputMode::Editing,
    ensures
        s.step(key, now).should_quit == s.should_quit,
        !(key is Enter && s.input_field == InputField::Link) ==> s.step(key, now).jobs == s.jobs
            && s.step(key, now).selected == s.selected,
{
}

/// The time of a confirmation or of a key press matters only where a record is
/// appended.
pub proof fn lemma_time_matters_only_when_appending(
    s: AppView,
    key: Key,
    t1: Timestamp,
    t2: Timestamp,
)
    ensures
        !s.submit_appends() ==> s.submit_input(t1) == s.submit_input(t2),
        !s.key_appends(key) ==> s.step(key, t1) == s.step(key, t2),
        s.submit_appends() ==> s.submit_input(t1).jobs.last().date_applied == t1,
{
}

/// Every key press leads from a coherent state to a coherent state.
pub proof fn lemma_step_keeps_coherent(s: AppView, key: Key, now: Timestamp)
    requires
        s.coherent(),
        s.key_appends(key) ==> s.jobs.len() < usize::MAX,
    ensures
        s.step(key, now).coherent(),
{
}

/// The edit target of a coherent state never points past the records.
pub proof fn lemma_edit_target_is_never_stale(s: AppView)
    requires
        s.coherent(),
    ensures
        s.edit_target matches EditTarget::Existing(i) ==> s.input_mode == InputMode::Editing && i
            < s.jobs.len(),
{
}

} // verus!
