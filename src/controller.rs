use vstd::prelude::*;
use crate::list::{ListView, TaskList};
use crate::task::{TaskView, TodoItem};

verus! {

/// How keys are read: as commands on the list, or as text for a new task.
#[derive(Clone, Copy, Debug, PartialEq, Eq, Structural)]
pub enum Mode {
    Normal,
    Input,
}

/// The keys that the application tells apart.
#[derive(Clone, Copy, Debug, PartialEq, Eq, Structural)]
pub enum KeyCode {
    Char(char),
    Enter,
    Esc,
    Backspace,
    Up,
    Down,
    Other,
}

/// Whether a key event is a press, an auto-repeat or a release.
#[derive(Clone, Copy, Debug, PartialEq, Eq, Structural)]
pub enum KeyKind {
    Press,
    Repeat,
    Release,
}

/// Work that the caller must carry out against the task store before the
/// outcome is applied to the model.
#[derive(Debug)]
pub enum Request {
    /// Nothing to store.
    Nothing,
    /// Store a new task with this description; then call
    /// [`App::add_task`] with the identifier the store gave it.
    Insert { description: String },
    /// Set the done flag of the stored task `id`; then call
    /// [`App::toggle_task`] with `index`.
    SetDone { index: usize, id: i64, done: bool },
    /// Delete the stored task `id`; then call [`App::delete_task`] with
    /// `index`.
    Delete { index: usize, id: i64 },
}

/// The mathematical value of a [`Request`].
pub enum RequestView {
    Nothing,
    Insert { description: Seq<char> },
    SetDone { index: nat, id: i64, done: bool },
    Delete { index: nat, id: i64 },
}

impl View for Request {
    type V = RequestView;

    open spec fn view(&self) -> RequestView {
        match self {
            Request::Nothing => RequestView::Nothing,
            Request::Insert { description } => RequestView::Insert {
                description: description@,
            },
            Request::SetDone { index, id, done } => RequestView::SetDone {
                index: *index as nat,
                id: *id,
                done: *done,
            },
            Request::Delete { index, id } => RequestView::Delete { index: *index as nat, id: *id },
        }
    }
}

/// The mathematical value of the application state.
pub struct AppView {
    pub exit: bool,
    pub tasks: ListView,
    pub mode: Mode,
    pub input: Seq<char>,
}

impl AppView {
    pub open spec fn with_tasks(self, tasks: ListView) -> AppView {
        AppView { tasks, ..self }
    }

    pub open spec fn with_input(self, mode: Mode, input: Seq<char>) -> AppView {
        AppView { mode, input, ..self }
    }

    /// What toggling the selected task asks of the store.
    pub open spec fn toggle_request(self) -> RequestView {
        match self.tasks.selected {
            Some(i) => if i < self.tasks.items.len() {
                RequestView::SetDone {
                    index: i,
                    id: self.tasks.items[i as int].id,
                    done: !self.tasks.items[i as int].is_done,
                }
            } else {
                RequestView::Nothing
            },
            None => RequestView::Nothing,
        }
    }

    /// What deleting the selected task asks of the store.
    pub open spec fn delete_request(self) -> RequestView {
        match self.tasks.selected {
            Some(i) => if i < self.tasks.items.len() {
                RequestView::Delete { index: i, id: self.tasks.items[i as int].id }
            } else {
                RequestView::Nothing
            },
            None => RequestView::Nothing,
        }
    }

    /// The state after a key press, and the work it asks of the store.
    pub open spec fn on_key(self, code: KeyCode) -> (AppView, RequestView) {
        match self.mode {
            Mode::Normal => match code {
                KeyCode::Char('q') => (AppView { exit: true, ..self }, RequestView::Nothing),
                KeyCode::Char('a') => (
                    self.with_input(Mode::Input, Seq::empty()),
                    RequestView::Nothing,
                ),
                KeyCode::Char('j') | KeyCode::Down => (
                    self.with_tasks(self.tasks.next()),
                    RequestView::Nothing,
                ),
                KeyCode::Char('k') | KeyCode::Up => (
                    self.with_tasks(self.tasks.previous()),
                    RequestView::Nothing,
                ),
                KeyCode::Char('g') => (self.with_tasks(self.tasks.first()), RequestView::Nothing),
                KeyCode::Char('G') => (self.with_tasks(self.tasks.last()), RequestView::Nothing),
                KeyCode::Char(' ') | KeyCode::Enter => (self, self.toggle_request()),
                KeyCode::Char('d') => (self, self.delete_request()),
                _ => (self, RequestView::Nothing),
            },
            Mode::Input => match code {
                KeyCode::Enter => (
                    self.with_input(Mode::Normal, Seq::empty()),
                    if self.input.len() > 0 {
                        RequestView::Insert { description: self.input }
                    } else {
                        RequestView::Nothing
                    },
                ),
                KeyCode::Esc => (self.with_input(Mode::Normal, Seq::empty()), RequestView::Nothing),
                KeyCode::Backspace => (
                    self.with_input(
                        Mode::Input,
                        if self.input.len() > 0 {
                            self.input.drop_last()
                        } else {
                            self.input
                        },
                    ),
                    RequestView::Nothing,
                ),
                KeyCode::Char(c) => (
                    self.with_input(Mode::Input, self.input.push(c)),
                    RequestView::Nothing,
                ),
                _ => (self, RequestView::Nothing),
            },
        }
    }
}

/// Relies on `String::push`: the character is appended at the end.
#[verifier::external_body]
fn push_char(s: &mut String, c: char)
    ensures
        final(s)@ == old(s)@.push(c),
{
    s.push(c);
}

/// Relies on `String::pop`: the last character is removed and returned;
/// an empty string stays empty and gives `None`.
#[verifier::external_body]
fn pop_char(s: &mut String) -> (r: Option<char>)
    ensures
        old(s)@.len() == 0 ==> r is None && final(s)@ == old(s)@,
        old(s)@.len() > 0 ==> r == Some(old(s)@.last()) && final(s)@ == old(s)@.drop_last(),
{
    s.pop()
}

/// The whole state of the application: the task list, the key mode, the
/// text typed so far for a new task, and whether to stop.
pub struct App {
    should_exit: bool,
    tasks: TaskList,
    mode: Mode,
    input_buffer: String,
}

impl View for App {
    type V = AppView;

    closed spec fn view(&self) -> AppView {
        AppView {
            exit: self.should_exit,
            tasks: self.tasks@,
            mode: self.mode,
            input: self.input_buffer@,
        }
    }
}

impl App {
    /// The state at start-up over the tasks loaded from the store: normal
    /// mode, nothing typed, the first task selected if there is one.
    pub fn new(items: Vec<TodoItem>) -> (r: App)
        ensures
            r@.tasks.items == items@.map_values(|t: TodoItem| t@),
            r@.tasks.selected == (if items@.len() == 0 { None } else { Some(0nat) }),
            r@.tasks.wf(),
            r@.mode == Mode::Normal,
            r@.input.len() == 0,
            !r@.exit,
    {
        App {
            should_exit: false,
            tasks: TaskList::new(items),
            mode: Mode::Normal,
            input_buffer: String::new(),
        }
    }

    pub fn should_exit(&self) -> (r: bool)
        ensures
            r == self@.exit,
    {
        self.should_exit
    }

    pub fn mode(&self) -> (r: Mode)
        ensures
            r == self@.mode,
    {
        self.mode
    }

    pub fn tasks(&self) -> (r: &TaskList)
        ensures
            r@ == self@.tasks,
            r@.wf(),
    {
        self.tasks.check_wf();
        &self.tasks
    }

    pub fn input_buffer(&self) -> (r: &str)
        ensures
            r@ == self@.input,
    {
        self.input_buffer.as_str()
    }

    /// Empties the input buffer and gives back what it held.
    fn take_input(&mut self) -> (r: String)
        ensures
            r@ == old(self)@.input,
            final(self)@ == old(self)@.with_input(old(self)@.mode, Seq::empty()),
    {
        let mut r = String::new();
        std::mem::swap(&mut r, &mut self.input_buffer);
        r
    }

    /// The store work that toggling the selected task needs.
    fn toggle_selected(&self) -> (r: Request)
        ensures
            r@ == self@.toggle_request(),
    {
        match self.tasks.selected() {
            Some(index) => if index < self.tasks.len() {
                let item = self.tasks.get(index);
                Request::SetDone { index, id: item.id(), done: !item.is_done() }
            } else {
                Request::Nothing
            },
            None => Request::Nothing,
        }
    }

    /// The store work that deleting the selected task needs.
    fn delete_selected(&self) -> (r: Request)
        ensures
            r@ == self@.delete_request(),
    {
        match self.tasks.selected() {
            Some(index) => if index < self.tasks.len() {
                Request::Delete { index, id: self.tasks.get(index).id() }
            } else {
                Request::Nothing
            },
            None => Request::Nothing,
        }
    }

    /// Handles one key event. Only presses count: a repeat or a release
    /// changes nothing. The returned request is the store work that the
    /// press calls for.
    pub fn handle_event(&mut self, code: KeyCode, kind: KeyKind) -> (r: Request)
        ensures
            kind != KeyKind::Press ==> final(self)@ == old(self)@ && r@ is Nothing,
            kind == KeyKind::Press ==> (final(self)@, r@) == old(self)@.on_key(code),
            final(self)@.tasks.wf(),
    {
        self.tasks.check_wf();
        if kind != KeyKind::Press {
            return Request::Nothing;
        }
        match self.mode {
            Mode::Normal => match code {
                KeyCode::Char('q') => {
                    self.should_exit = true;
                    Request::Nothing
                },
                KeyCode::Char('a') => {
                    self.mode = Mode::Input;
                    self.input_buffer = String::new();
                    Request::Nothing
                },
                KeyCode::Char('j') | KeyCode::Down => {
                    self.tasks.select_next();
                    Request::Nothing
                },
                KeyCode::Char('k') | KeyCode::Up => {
                    self.tasks.select_previous();
                    Request::Nothing
                },
                KeyCode::Char('g') => {
                    self.tasks.select_first();
                    Request::Nothing
                },
                KeyCode::Char('G') => {
                    self.tasks.select_last();
                    Request::Nothing
                },
                KeyCode::Char(' ') | KeyCode::Enter => self.toggle_selected(),
                KeyCode::Char('d') => self.delete_selected(),
                _ => Request::Nothing,
            },
            Mode::Input => match code {
                KeyCode::Enter => {
                    let description = self.take_input();
                    self.mode = Mode::Normal;
                    if description.as_str().is_empty() {
                        Request::Nothing
                    } else {
                        Request::Insert { description }
                    }
                },
                KeyCode::Esc => {
                    self.input_buffer = String::new();
                    self.mode = Mode::Normal;
                    Request::Nothing
                },
                KeyCode::Backspace => {
                    pop_char(&mut self.input_buffer);
                    Request::Nothing
                },
                KeyCode::Char(c) => {
                    push_char(&mut self.input_buffer, c);
                    Request::Nothing
                },
                _ => Request::Nothing,
            },
        }
    }

    /// Adds a task that the store has just saved under `id`, and selects it.
    pub fn add_task(&mut self, id: i64, description: &str)
        ensures
            final(self)@ == old(self)@.with_tasks(
                old(self)@.tasks.appended(TaskView { id, description: description@, is_done: false }),
            ),
            final(self)@.tasks.wf(),
    {
        self.tasks.append(TodoItem::new(id, description));
    }

    /// Flips the done flag of the task at `index`, once the store has it.
    pub fn toggle_task(&mut self, index: usize)
        ensures
            final(self)@ == old(self)@.with_tasks(old(self)@.tasks.toggled(index as nat)),
            final(self)@.tasks.wf(),
    {
        self.tasks.toggle(index);
    }

    /// Removes the task at `index`, once the store has deleted it.
    pub fn delete_task(&mut self, index: usize)
        ensures
            final(self)@ == old(self)@.with_tasks(old(self)@.tasks.removed(index as nat)),
            final(self)@.tasks.wf(),
    {
        self.tasks.remove(index);
    }
}

/// Confirming an empty input stores nothing, leaves the tasks as they are
/// and goes back to normal mode.
pub proof fn lemma_confirm_empty_input(s: AppView)
    requires
        s.mode == Mode::Input,
        s.input.len() == 0,
    ensures
        s.on_key(KeyCode::Enter).1 is Nothing,
        s.on_key(KeyCode::Enter).0.mode == Mode::Normal,
        s.on_key(KeyCode::Enter).0.tasks == s.tasks,
        s.on_key(KeyCode::Enter).0.input.len() == 0,
        s.on_key(KeyCode::Enter).0.exit == s.exit,
{
}

/// In normal mode `q` sets the exit flag, whatever the state, and changes
/// nothing else.
pub proof fn lemma_quit(s: AppView)
    requires
        s.mode == Mode::Normal,
    ensures
        s.on_key(KeyCode::Char('q')) == (AppView { exit: true, ..s }, RequestView::Nothing),
{
}

} // verus!
