use crate::models::{current_time, job_views, Job, JobView, Timestamp};
use crate::text::{pop_char, push_char, trim, trimmed};
use vstd::prelude::*;

verus! {

/// Whether keys are commands or text.
#[derive(Clone, Copy, Debug, PartialEq, Eq, Structural)]
pub enum InputMode {
    Normal,
    Editing,
}

/// The field that the text being typed is for.
#[derive(Clone, Copy, Debug, PartialEq, Eq, Structural)]
pub enum InputField {
    Company,
    Role,
    Link,
}

/// What a confirmed link goes to: a record to be appended, or the record at an
/// index.
#[derive(Clone, Copy, Debug, PartialEq, Eq, Structural)]
pub enum EditTarget {
    New,
    Existing(usize),
}

/// A key press, as far as the tracker tells keys apart.
#[derive(Clone, Copy, Debug, PartialEq, Eq, Structural)]
pub enum Key {
    Char(char),
    Up,
    Down,
    Enter,
    Esc,
    Backspace,
    Other,
}

/// What the caller has to do after a key press.
#[derive(Clone, Debug, PartialEq, Eq)]
pub enum Effect {
    Nothing,
    OpenLink(String),
}

impl View for Effect {
    type V = Option<Seq<char>>;

    open spec fn view(&self) -> Option<Seq<char>> {
        match self {
            Effect::Nothing => None,
            Effect::OpenLink(link) => Some(link@),
        }
    }
}

/// The tracker's state: the records, the cursor and the input in progress.
pub struct App {
    jobs: Vec<Job>,
    selected: Option<usize>,
    should_quit: bool,
    input_mode: InputMode,
    input_field: InputField,
    input_buffer: String,
    temp_company: String,
    temp_role: String,
    edit_target: EditTarget,
}

/// The tracker's state as a mathematical value.
pub struct AppView {
    pub jobs: Seq<JobView>,
    pub selected: Option<usize>,
    pub should_quit: bool,
    pub input_mode: InputMode,
    pub input_field: InputField,
    pub input_buffer: Seq<char>,
    pub temp_company: Seq<char>,
    pub temp_role: Seq<char>,
    pub edit_target: EditTarget,
}

impl AppView {
    /// The cursor is absent exactly where there is no record, and points at a
    /// record otherwise; the records can be counted in a `usize`.
    pub open spec fn wf(self) -> bool {
        &&& self.jobs.len() <= usize::MAX
        &&& match self.selected {
            Some(i) => i < self.jobs.len(),
            None => self.jobs.len() == 0,
        }
    }

    /// Nothing is being typed and nothing is staged.
    pub open spec fn at_rest(self) -> bool {
        &&& self.input_mode == InputMode::Normal
        &&& self.input_field == InputField::Company
        &&& self.edit_target == EditTarget::New
        &&& self.input_buffer == Seq::<char>::empty()
        &&& self.temp_company == Seq::<char>::empty()
        &&& self.temp_role == Seq::<char>::empty()
    }

    /// What holds of every state that key presses lead to: the cursor is valid;
    /// outside editing nothing is staged; and a record under edit exists and is
    /// edited in its link.
    pub open spec fn coherent(self) -> bool {
        &&& self.wf()
        &&& self.input_mode == InputMode::Normal ==> self.at_rest()
        &&& self.edit_target matches EditTarget::Existing(i) ==> i < self.jobs.len()
            && self.input_field == InputField::Link
    }

    /// The state that a session starts in: the cursor on the first record, if there
    /// is one.
    pub open spec fn initial(jobs: Seq<JobView>) -> AppView {
        AppView {
            jobs,
            selected: if jobs.len() > 0 {
                Some(0usize)
            } else {
                None
            },
            should_quit: false,
            input_mode: InputMode::Normal,
            input_field: InputField::Company,
            input_buffer: Seq::empty(),
            temp_company: Seq::empty(),
            temp_role: Seq::empty(),
            edit_target: EditTarget::New,
        }
    }

    /// The cursor one record further, from the last record back to the first.
    pub open spec fn next(self) -> AppView {
        match self.selected {
            Some(i) => AppView {
                selected: if i + 1 >= self.jobs.len() {
                    Some(0usize)
                } else {
                    Some((i + 1) as usize)
                },
                ..self
            },
            None => self,
        }
    }

    /// `next`, `steps` times over.
    pub open spec fn next_times(self, steps: nat) -> AppView
        decreases steps,
    {
        if steps == 0 {
            self
        } else {
            self.next().next_times((steps - 1) as nat)
        }
    }

    /// The cursor one record back, from the first record on to the last.
    pub open spec fn previous(self) -> AppView {
        match self.selected {
            Some(i) => AppView {
                selected: if i == 0 {
                    Some((self.jobs.len() - 1) as usize)
                } else {
                    Some((i - 1) as usize)
                },
                ..self
            },
            None => self,
        }
    }

    /// Editing begins, for the company of a record to be appended.
    pub open spec fn start_add(self) -> AppView {
        AppView {
            input_mode: InputMode::Editing,
            input_field: InputField::Company,
            edit_target: EditTarget::New,
            input_buffer: Seq::empty(),
            ..self
        }
    }

    /// Editing begins, for the link of the record under the cursor, with that link
    /// in the buffer. Without a cursor nothing changes.
    pub open spec fn start_edit_link(self) -> AppView {
        match self.selected {
            Some(i) => AppView {
                input_mode: InputMode::Editing,
                input_field: InputField::Link,
                edit_target: EditTarget::Existing(i),
                input_buffer: self.jobs[i as int].post_link,
                ..self
            },
            None => self,
        }
    }

    /// The buffer and what was staged are dropped; the records stay.
    pub open spec fn reset_input(self) -> AppView {
        AppView {
            input_buffer: Seq::empty(),
            temp_company: Seq::empty(),
            temp_role: Seq::empty(),
            edit_target: EditTarget::New,
            input_mode: InputMode::Normal,
            input_field: InputField::Company,
            ..self
        }
    }

    /// The records after a link was confirmed at `now`: with `New`, one more record
    /// of the staged company and role; with `Existing`, the same records with
    /// another link in the one at the index.
    pub open spec fn jobs_with_link(self, link: Seq<char>, now: Timestamp) -> Seq<JobView> {
        match self.edit_target {
            EditTarget::New => self.jobs.push(
                JobView::created(
                    (self.jobs.len() + 1) as usize,
                    self.temp_company,
                    self.temp_role,
                    link,
                    now,
                ),
            ),
            EditTarget::Existing(i) => if i < self.jobs.len() {
                self.jobs.update(i as int, self.jobs[i as int].with_link(link))
            } else {
                self.jobs
            },
        }
    }

    /// The buffer is confirmed at `now`. A company or a role is staged and the next
    /// field is asked for. A link is trimmed and goes where the edit target says;
    /// the first record of all takes the cursor; the input is reset.
    pub open spec fn submit_input(self, now: Timestamp) -> AppView {
        match self.input_field {
            InputField::Company => AppView {
                temp_company: self.input_buffer,
                input_buffer: Seq::empty(),
                input_field: InputField::Role,
                ..self
            },
            InputField::Role => AppView {
                temp_role: self.input_buffer,
                input_buffer: Seq::empty(),
                input_field: InputField::Link,
                ..self
            },
            InputField::Link => AppView {
                jobs: self.jobs_with_link(trimmed(self.input_buffer), now),
                selected: if self.selected is None && self.edit_target == EditTarget::New {
                    Some(0usize)
                } else {
                    self.selected
                },
                ..self
            }.reset_input(),
        }
    }

    /// The record under the cursor is one status further.
    pub open spec fn cycle_current_status(self) -> AppView {
        match self.selected {
            Some(i) => AppView {
                jobs: self.jobs.update(i as int, self.jobs[i as int].cycled()),
                ..self
            },
            None => self,
        }
    }

    /// The record under the cursor is gone. The cursor stays where it was, moves to
    /// the new last record where it was behind it, and is absent where no record
    /// is left.
    pub open spec fn delete_current_job(self) -> AppView {
        match self.selected {
            Some(i) => AppView {
                jobs: self.jobs.remove(i as int),
                selected: if self.jobs.len() == 1 {
                    None
                } else if i + 1 >= self.jobs.len() {
                    Some((self.jobs.len() - 2) as usize)
                } else {
                    Some(i)
                },
                ..self
            },
            None => self,
        }
    }

    /// The link of the record under the cursor, unless it is blank.
    pub open spec fn link_to_open(self) -> Option<Seq<char>> {
        match self.selected {
            Some(i) => if trimmed(self.jobs[i as int].post_link).len() > 0 {
                Some(self.jobs[i as int].post_link)
            } else {
                None
            },
            None => None,
        }
    }

    /// `c` is typed.
    pub open spec fn type_char(self, c: char) -> AppView {
        AppView { input_buffer: self.input_buffer.push(c), ..self }
    }

    /// `text` is typed, character by character.
    pub open spec fn type_text(self, text: Seq<char>) -> AppView
        decreases text.len(),
    {
        if text.len() == 0 {
            self
        } else {
            self.type_text(text.drop_last()).type_char(text.last())
        }
    }

    /// The last character typed is taken back, if there is one.
    pub open spec fn erase_char(self) -> AppView {
        if self.input_buffer.len() > 0 {
            AppView { input_buffer: self.input_buffer.drop_last(), ..self }
        } else {
            self
        }
    }

    /// The session is to end.
    pub open spec fn quit(self) -> AppView {
        AppView { should_quit: true, ..self }
    }

    /// The state after `key` was pressed at `now`.
    pub open spec fn step(self, key: Key, now: Timestamp) -> AppView {
        match self.input_mode {
            InputMode::Normal => match key {
                Key::Char(c) => if c == 'q' {
                    self.quit()
                } else if c == 'a' {
                    self.start_add()
                } else if c == 'e' {
                    self.start_edit_link()
                } else if c == 'd' {
                    self.delete_current_job()
                } else {
                    self
                },
                Key::Down => self.next(),
                Key::Up => self.previous(),
                Key::Enter => self.cycle_current_status(),
                _ => self,
            },
            InputMode::Editing => match key {
                Key::Enter => self.submit_input(now),
                Key::Esc => self.reset_input(),
                Key::Backspace => self.erase_char(),
                Key::Char(c) => self.type_char(c),
                _ => self,
            },
        }
    }

    /// Whether confirming the buffer appends a record.
    pub open spec fn submit_appends(self) -> bool {
        self.input_field == InputField::Link && self.edit_target == EditTarget::New
    }

    /// Whether `key` appends a record.
    pub open spec fn key_appends(self, key: Key) -> bool {
        self.input_mode == InputMode::Editing && key == Key::Enter && self.submit_appends()
    }

    /// The link that `key` asks to have opened.
    pub open spec fn link_opened_by(self, key: Key) -> Option<Seq<char>> {
        if self.input_mode == InputMode::Normal && key == Key::Char('o') {
            self.link_to_open()
        } else {
            None
        }
    }
}

impl View for App {
    type V = AppView;

    closed spec fn view(&self) -> AppView {
        AppView {
            jobs: job_views(self.jobs@),
            selected: self.selected,
            should_quit: self.should_quit,
            input_mode: self.input_mode,
            input_field: self.input_field,
            input_buffer: self.input_buffer@,
            temp_company: self.temp_company@,
            temp_role: self.temp_role@,
            edit_target: self.edit_target,
        }
    }
}

impl App {
    /// A session over `jobs`.
    pub fn new(jobs: Vec<Job>) -> (app: App)
        ensures
            app@ == AppView::initial(job_views(jobs@)),
            app@.wf(),
            app@.coherent(),
    {
        let selected = if jobs.len() > 0 {
            Some(0)
        } else {
            None
        };
        App {
            jobs,
            selected,
            should_quit: false,
            input_mode: InputMode::Normal,
            input_field: InputField::Company,
            input_buffer: String::new(),
            temp_company: String::new(),
            temp_role: String::new(),
            edit_target: EditTarget::New,
        }
    }

    /// The records, in order.
    pub fn jobs(&self) -> (jobs: &Vec<Job>)
        ensures
            job_views(jobs@) == self@.jobs,
    {
        &self.jobs
    }

    /// The index of the record under the cursor.
    pub fn selected(&self) -> (selected: Option<usize>)
        ensures
            selected == self@.selected,
    {
        self.selected
    }

    /// Whether the session is to end.
    pub fn should_quit(&self) -> (should_quit: bool)
        ensures
            should_quit == self@.should_quit,
    {
        self.should_quit
    }

    /// Whether keys are taken as commands or as text.
    pub fn input_mode(&self) -> (mode: InputMode)
        ensures
            mode == self@.input_mode,
    {
        self.input_mode
    }

    /// The field that is being typed.
    pub fn input_field(&self) -> (field: InputField)
        ensures
            field == self@.input_field,
    {
        self.input_field
    }

    /// What has been typed for the field.
    pub fn input_buffer(&self) -> (buffer: &str)
        ensures
            buffer@ == self@.input_buffer,
    {
        self.input_buffer.as_str()
    }

    /// Where a confirmed link goes.
    pub fn edit_target(&self) -> (target: EditTarget)
        ensures
            target == self@.edit_target,
    {
        self.edit_target
    }

    /// Moves the cursor to the next record, from the last one back to the first.
    pub fn next(&mut self)
        requires
            old(self)@.wf(),
        ensures
            final(self)@ == old(self)@.next(),
            final(self)@.wf(),
    {
        if let Some(i) = self.selected {
            if i >= self.jobs.len() - 1 {
                self.selected = Some(0);
            } else {
                self.selected = Some(i + 1);
            }
        }
    }

    /// Moves the cursor to the record before, from the first one on to the last.
    pub fn previous(&mut self)
        requires
            old(self)@.wf(),
        ensures
            final(self)@ == old(self)@.previous(),
            final(self)@.wf(),
    {
        if let Some(i) = self.selected {
            if i == 0 {
                self.selected = Some(self.jobs.len() - 1);
            } else {
                self.selected = Some(i - 1);
            }
        }
    }

    /// Whether confirming the buffer appends a record.
    fn appends(&self) -> (appends: bool)
        ensures
            appends == self@.submit_appends(),
    {
        match (self.input_field, self.edit_target) {
            (InputField::Link, EditTarget::New) => true,
            _ => false,
        }
    }

    /// Confirms the buffer where that appends no record: stages a company or a
    /// role, or puts the link into the record under edit and ends the editing.
    fn submit_without_record(&mut self)
        requires
            old(self)@.wf(),
            !old(self)@.submit_appends(),
        ensures
            forall|now: Timestamp| final(self)@ == #[trigger] old(self)@.submit_input(now),
            final(self)@.wf(),
    {
        match self.input_field {
            InputField::Company => {
                self.temp_company = self.input_buffer.clone();
                self.input_buffer = String::new();
                self.input_field = InputField::Role;
            },
            InputField::Role => {
                self.temp_role = self.input_buffer.clone();
                self.input_buffer = String::new();
                self.input_field = InputField::Link;
            },
            InputField::Link => {
                if let EditTarget::Existing(index) = self.edit_target {
                    let post_link = trim(self.input_buffer.as_str());
                    self.set_link(index, post_link);
                    self.reset_input();
                }
            },
        }
    }

    /// Confirms the buffer at `now`: stages a company or a role, or puts a link
    /// where the edit target says and ends the editing. A record that is appended
    /// gets `now` as its time; it is the last record, and those that were there
    /// stay as they were.
    pub fn submit_input_at(&mut self, now: Timestamp)
        requires
            old(self)@.wf(),
            old(self)@.submit_appends() ==> old(self)@.jobs.len() < usize::MAX,
        ensures
            final(self)@ == old(self)@.submit_input(now),
            final(self)@.wf(),
            old(self)@.submit_appends() ==> final(self)@.jobs == old(self)@.jobs.push(
                JobView::created(
                    (old(self)@.jobs.len() + 1) as usize,
                    old(self)@.temp_company,
                    old(self)@.temp_role,
                    trimmed(old(self)@.input_buffer),
                    now,
                ),
            ),
            !old(self)@.submit_appends() ==> final(self)@.jobs.len() == old(self)@.jobs.len(),
    {
        if self.appends() {
            let post_link = trim(self.input_buffer.as_str());
            self.append_staged(post_link, now);
            self.reset_input();
        } else {
            self.submit_without_record();
            assert(self@ == old(self)@.submit_input(now));
        }
    }

    /// Confirms the buffer: stages a company or a role, or puts a link where the
    /// edit target says and ends the editing. A record that is appended gets the
    /// present time; it is the last record, and those that were there stay as they
    /// were.
    pub fn submit_input(&mut self)
        requires
            old(self)@.wf(),
            old(self)@.submit_appends() ==> old(self)@.jobs.len() < usize::MAX,
        ensures
            exists|now: Timestamp| final(self)@ == old(self)@.submit_input(now),
            final(self)@.wf(),
            old(self)@.submit_appends() ==> final(self)@.jobs == old(self)@.jobs.push(
                JobView::created(
                    (old(self)@.jobs.len() + 1) as usize,
                    old(self)@.temp_company,
                    old(self)@.temp_role,
                    trimmed(old(self)@.input_buffer),
                    final(self)@.jobs.last().date_applied,
                ),
            ),
            !old(self)@.submit_appends() ==> final(self)@.jobs.len() == old(self)@.jobs.len(),
    {
        if self.appends() {
            let now = current_time();
            self.submit_input_at(now);
        } else {
            self.submit_without_record();
            assert(self@ == old(self)@.submit_input(Timestamp { secs: 0, nanos: 0 }));
        }
    }

    /// Appends the record of the staged company and role, with `post_link`, created
    /// at `now`. The first record of all takes the cursor.
    fn append_staged(&mut self, post_link: String, now: Timestamp)
        requires
            old(self)@.wf(),
            old(self)@.jobs.len() < usize::MAX,
        ensures
            final(self)@ == (AppView {
                jobs: old(self)@.jobs.push(
                    JobView::created(
                        (old(self)@.jobs.len() + 1) as usize,
                        old(self)@.temp_company,
                        old(self)@.temp_role,
                        post_link@,
                        now,
                    ),
                ),
                selected: if old(self)@.selected is None {
                    Some(0usize)
                } else {
                    old(self)@.selected
                },
                ..old(self)@
            }),
            final(self)@.wf(),
    {
        let new_id: usize = self.jobs.len() + 1;
        let new_job = Job::created_at(
            new_id,
            self.temp_company.clone(),
            self.temp_role.clone(),
            post_link,
            now,
        );
        self.jobs.push(new_job);
        if self.selected.is_none() {
            self.selected = Some(0);
        }
        assert(job_views(self.jobs@) =~= job_views(old(self).jobs@).push(new_job@));
    }

    /// Puts `post_link` into the record at `index`, if there is one.
    fn set_link(&mut self, index: usize, post_link: String)
        ensures
            final(self)@ == (AppView {
                jobs: if index < old(self)@.jobs.len() {
                    old(self)@.jobs.update(
                        index as int,
                        old(self)@.jobs[index as int].with_link(post_link@),
                    )
                } else {
                    old(self)@.jobs
                },
                ..old(self)@
            }),
    {
        if index < self.jobs.len() {
            self.jobs[index].post_link = post_link;
            assert(job_views(self.jobs@) =~= job_views(old(self).jobs@).update(
                index as int,
                old(self).jobs@[index as int]@.with_link(post_link@),
            ));
        }
    }

    /// Ends the editing and drops the buffer and what was staged.
    pub fn reset_input(&mut self)
        ensures
            final(self)@ == old(self)@.reset_input(),
    {
        self.input_buffer = String::new();
        self.temp_company = String::new();
        self.temp_role = String::new();
        self.edit_target = EditTarget::New;
        self.input_mode = InputMode::Normal;
        self.input_field = InputField::Company;
    }

    /// Begins the input of a record to be appended, with its company.
    pub fn start_add(&mut self)
        ensures
            final(self)@ == old(self)@.start_add(),
    {
        self.input_mode = InputMode::Editing;
        self.input_field = InputField::Company;
        self.edit_target = EditTarget::New;
        self.input_buffer = String::new();
    }

    /// Begins the editing of the link of the record under the cursor.
    pub fn start_edit_link(&mut self)
        requires
            old(self)@.wf(),
        ensures
            final(self)@ == old(self)@.start_edit_link(),
    {
        if let Some(i) = self.selected {
            self.input_mode = InputMode::Editing;
            self.input_field = InputField::Link;
            self.edit_target = EditTarget::Existing(i);
            self.input_buffer = self.jobs[i].post_link.clone();
        }
    }

    /// Advances the status of the record under the cursor.
    pub fn cycle_current_status(&mut self)
        requires
            old(self)@.wf(),
        ensures
            final(self)@ == old(self)@.cycle_current_status(),
            final(self)@.wf(),
    {
        if let Some(i) = self.selected {
            self.jobs[i].cycle_status();
            assert(job_views(self.jobs@) =~= job_views(old(self).jobs@).update(
                i as int,
                old(self).jobs@[i as int]@.cycled(),
            ));
        }
    }

    /// The link of the record under the cursor, for the caller to open, unless
    /// there is no cursor or the link is blank.
    pub fn open_current_link(&self) -> (link: Option<String>)
        requires
            self@.wf(),
        ensures
            match link {
                Some(text) => self@.link_to_open() == Some(text@),
                None => self@.link_to_open() is None,
            },
    {
        if let Some(i) = self.selected {
            let inner = trim(self.jobs[i].post_link.as_str());
            if !inner.as_str().is_empty() {
                return Some(self.jobs[i].post_link.clone());
            }
        }
        None
    }

    /// Removes the record under the cursor and puts the cursor right.
    pub fn delete_current_job(&mut self)
        requires
            old(self)@.wf(),
        ensures
            final(self)@ == old(self)@.delete_current_job(),
            final(self)@.wf(),
    {
        if let Some(i) = self.selected {
            self.jobs.remove(i);
            if self.jobs.is_empty() {
                self.selected = None;
            } else if i >= self.jobs.len() {
                self.selected = Some(self.jobs.len() - 1);
            }
            assert(job_views(self.jobs@) =~= job_views(old(self).jobs@).remove(i as int));
        }
    }

    /// Appends `c` to the buffer.
    pub fn type_char(&mut self, c: char)
        ensures
            final(self)@ == old(self)@.type_char(c),
    {
        push_char(&mut self.input_buffer, c);
    }

    /// Removes the last character of the buffer, if it has one.
    pub fn erase_char(&mut self)
        ensures
            final(self)@ == old(self)@.erase_char(),
    {
        let _ = pop_char(&mut self.input_buffer);
    }

    /// Marks the session as over.
    pub fn quit(&mut self)
        ensures
            final(self)@ == old(self)@.quit(),
    {
        self.should_quit = true;
    }

    /// Handles one key press: changes the state as the input mode and `key` say, and
    /// tells the caller what is left for it to do.
    pub fn handle_key(&mut self, key: Key) -> (effect: Effect)
        requires
            old(self)@.wf(),
            old(self)@.key_appends(key) ==> old(self)@.jobs.len() < usize::MAX,
        ensures
            exists|now: Timestamp| final(self)@ == old(self)@.step(key, now),
            effect@ == old(self)@.link_opened_by(key),
            final(self)@.wf(),
            old(self)@.coherent() ==> final(self)@.coherent(),
    {
        let ghost epoch = Timestamp { secs: 0, nanos: 0 };
        match self.input_mode {
            InputMode::Normal => {
                match key {
                    Key::Char(c) => {
                        if c == 'q' {
                            self.quit();
                        } else if c == 'a' {
                            self.start_add();
                        } else if c == 'e' {
                            self.start_edit_link();
                        } else if c == 'd' {
                            self.delete_current_job();
                        } else if c == 'o' {
                            assert(self@ == old(self)@.step(key, epoch));
                            return match self.open_current_link() {
                                Some(link) => Effect::OpenLink(link),
                                None => Effect::Nothing,
                            };
                        }
                    },
                    Key::Down => self.next(),
                    Key::Up => self.previous(),
                    Key::Enter => self.cycle_current_status(),
                    _ => {},
                }
                assert(self@ == old(self)@.step(key, epoch));
            },
            InputMode::Editing => {
                match key {
                    Key::Enter => {
                        self.submit_input();
                        proof {
                            let now = choose|now: Timestamp|
                                self@ == old(self)@.submit_input(now);
                            assert(self@ == old(self)@.step(key, now));
                        }
                        return Effect::Nothing;
                    },
                    Key::Esc => self.reset_input(),
                    Key::Backspace => self.erase_char(),
                    Key::Char(c) => self.type_char(c),
                    _ => {},
                }
                assert(self@ == old(self)@.step(key, epoch));
            },
        }
        Effect::Nothing
    }
}

} // verus!
