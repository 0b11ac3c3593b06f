use vstd::prelude::*;
use crate::input::{
    InputError, InputResult, MenuOperation, TodoOperation, menu_operations, todo_operations,
};
use crate::store::{StoreError, StoreModel};
use crate::todo::{Todo, TodoRow, duplicate_all, rows_of};

verus! {

/// Where the session stands: which prompt it waits on, or which store call.
#[derive(PartialEq, Eq, Structural, Clone, Copy, Debug)]
pub enum Phase {
    /// The main menu is shown.
    MainMenu,
    /// The text of a new todo is being entered.
    AddingTodo,
    /// The new todo is being inserted.
    SavingNew,
    /// All todos are being fetched.
    Loading,
    /// The list of todos is shown.
    ChoosingTodo,
    /// The operations on the selected todo are shown.
    ChoosingOperation,
    /// A new text for the selected todo is being entered.
    EditingText,
    /// The changed todo is being written back.
    SavingChange,
    /// The selected todo is being deleted.
    Deleting,
    /// The session is over.
    Finished,
}

/// What the outside world reports back to the session.
pub enum Event {
    /// The user picked the entry at this position.
    Chosen(usize),
    /// The user confirmed this text.
    Entered(String),
    /// The user made the escape gesture.
    Cancelled,
    /// The store listed these todos.
    Fetched(Vec<Todo>),
    /// The store carried out the requested change.
    StoreDone,
    /// The terminal failed.
    InputFailed(InputError),
    /// The store failed.
    StoreFailed(StoreError),
}

pub enum EventModel {
    Chosen(int),
    Entered(Seq<char>),
    Cancelled,
    Fetched(Seq<TodoRow>),
    StoreDone,
    InputFailed(Seq<char>),
    StoreFailed(Seq<char>),
}

impl View for Event {
    type V = EventModel;

    open spec fn view(&self) -> EventModel {
        match self {
            Event::Chosen(i) => EventModel::Chosen(*i as int),
            Event::Entered(s) => EventModel::Entered(s@),
            Event::Cancelled => EventModel::Cancelled,
            Event::Fetched(v) => EventModel::Fetched(rows_of(v@)),
            Event::StoreDone => EventModel::StoreDone,
            Event::InputFailed(e) => EventModel::InputFailed(e.message@),
            Event::StoreFailed(e) => EventModel::StoreFailed(e.message@),
        }
    }
}

impl Event {
    /// The event that the outcome of a selection prompt stands for.
    pub fn from_choice(outcome: InputResult<usize>) -> (r: Event)
        ensures
            r@ == match outcome {
                InputResult::Result(Ok(i)) => EventModel::Chosen(i as int),
                InputResult::Result(Err(e)) => EventModel::InputFailed(e.message@),
                InputResult::Quit => EventModel::Cancelled,
            },
    {
        match outcome {
            InputResult::Result(Ok(i)) => Event::Chosen(i),
            InputResult::Result(Err(e)) => Event::InputFailed(e),
            InputResult::Quit => Event::Cancelled,
        }
    }

    /// The event that the outcome of a text prompt stands for.
    pub fn from_text(outcome: InputResult<String>) -> (r: Event)
        ensures
            r@ == match outcome {
                InputResult::Result(Ok(s)) => EventModel::Entered(s@),
                InputResult::Result(Err(e)) => EventModel::InputFailed(e.message@),
                InputResult::Quit => EventModel::Cancelled,
            },
    {
        match outcome {
            InputResult::Result(Ok(s)) => Event::Entered(s),
            InputResult::Result(Err(e)) => Event::InputFailed(e),
            InputResult::Quit => Event::Cancelled,
        }
    }

    /// The event that the outcome of a listing stands for.
    pub fn from_listing(outcome: Result<Vec<Todo>, StoreError>) -> (r: Event)
        ensures
            r@ == match outcome {
                Ok(v) => EventModel::Fetched(rows_of(v@)),
                Err(e) => EventModel::StoreFailed(e.message@),
            },
    {
        match outcome {
            Ok(v) => Event::Fetched(v),
            Err(e) => Event::StoreFailed(e),
        }
    }

    /// The event that the outcome of an insertion, update or deletion stands for.
    pub fn from_change(outcome: Result<(), StoreError>) -> (r: Event)
        ensures
            r@ == match outcome {
                Ok(_) => EventModel::StoreDone,
                Err(e) => EventModel::StoreFailed(e.message@),
            },
    {
        match outcome {
            Ok(_) => Event::StoreDone,
            Err(e) => Event::StoreFailed(e),
        }
    }
}

/// What the session asks the outside world to do next.
pub enum Action {
    /// Offer the main menu, the first entry highlighted.
    ShowMainMenu,
    /// Ask for the text of a new todo, starting from an empty field.
    PromptNewTodo,
    /// List every todo of the store.
    FetchAll,
    /// Offer these todos, the one at `default_index` highlighted.
    ShowTodos { todos: Vec<Todo>, default_index: usize },
    /// Offer the operations on the selected todo, the first one highlighted.
    ShowOperations,
    /// Ask for a new text, the field filled with `initial`.
    PromptEdit { initial: String },
    /// Insert a new todo with this text.
    Insert { text: String },
    /// Write back this todo's text and flag.
    Update { todo: Todo },
    /// Delete the todo with this identifier.
    Delete { id: u32 },
    /// Report a terminal failure; the session is over.
    ReportInputError { message: String },
    /// Report a store failure; the session is over.
    ReportStoreError { message: String },
    /// End the program normally.
    Exit,
}

pub enum ActionModel {
    ShowMainMenu,
    PromptNewTodo,
    FetchAll,
    ShowTodos(Seq<TodoRow>, int),
    ShowOperations,
    PromptEdit(Seq<char>),
    Insert(Seq<char>),
    Update(TodoRow),
    Delete(u32),
    ReportInputError(Seq<char>),
    ReportStoreError(Seq<char>),
    Exit,
}

impl View for Action {
    type V = ActionModel;

    open spec fn view(&self) -> ActionModel {
        match self {
            Action::ShowMainMenu => ActionModel::ShowMainMenu,
            Action::PromptNewTodo => ActionModel::PromptNewTodo,
            Action::FetchAll => ActionModel::FetchAll,
            Action::ShowTodos { todos, default_index } => ActionModel::ShowTodos(
                rows_of(todos@),
                *default_index as int,
            ),
            Action::ShowOperations => ActionModel::ShowOperations,
            Action::PromptEdit { initial } => ActionModel::PromptEdit(initial@),
            Action::Insert { text } => ActionModel::Insert(text@),
            Action::Update { todo } => ActionModel::Update(todo@),
            Action::Delete { id } => ActionModel::Delete(*id),
            Action::ReportInputError { message } => ActionModel::ReportInputError(message@),
            Action::ReportStoreError { message } => ActionModel::ReportStoreError(message@),
            Action::Exit => ActionModel::Exit,
        }
    }
}

/// What an action does to the record store.
pub open spec fn store_effect(m: StoreModel, a: ActionModel) -> StoreModel {
    match a {
        ActionModel::Insert(text) => m.insert(text),
        ActionModel::Update(row) => m.update(row),
        ActionModel::Delete(id) => m.delete(id),
        _ => m,
    }
}

/// One interactive session: its phase, the todos fetched when the list was
/// entered (changed in place since), and the highlighted or selected position.
pub struct Session {
    pub phase: Phase,
    pub todos: Vec<Todo>,
    pub cursor: usize,
}

pub struct SessionModel {
    pub phase: Phase,
    pub todos: Seq<TodoRow>,
    pub cursor: int,
}

impl View for Session {
    type V = SessionModel;

    open spec fn view(&self) -> SessionModel {
        SessionModel { phase: self.phase, todos: rows_of(self.todos@), cursor: self.cursor as int }
    }
}

/// Phases in which one todo is selected.
pub open spec fn has_selection(phase: Phase) -> bool {
    phase == Phase::ChoosingOperation || phase == Phase::EditingText || phase
        == Phase::SavingChange || phase == Phase::Deleting
}

impl SessionModel {
    /// A selected position lies in the list; a highlighted one too, unless the list is empty.
    pub open spec fn wf(self) -> bool {
        &&& 0 <= self.cursor
        &&& has_selection(self.phase) ==> self.cursor < self.todos.len()
        &&& self.phase == Phase::ChoosingTodo ==> (self.cursor == 0 || self.cursor
            < self.todos.len())
    }

    /// The selected todo.
    pub open spec fn selected(self) -> TodoRow {
        self.todos[self.cursor]
    }
}

pub open spec fn finish(s: SessionModel, a: ActionModel) -> (SessionModel, ActionModel) {
    (SessionModel { phase: Phase::Finished, ..s }, a)
}

pub open spec fn enter(s: SessionModel, phase: Phase, a: ActionModel) -> (
    SessionModel,
    ActionModel,
) {
    (SessionModel { phase: phase, ..s }, a)
}

pub open spec fn back_to_menu(s: SessionModel) -> (SessionModel, ActionModel) {
    enter(s, Phase::MainMenu, ActionModel::ShowMainMenu)
}

/// The list is shown with `cursor` highlighted.
pub open spec fn show_list(todos: Seq<TodoRow>, cursor: int) -> (SessionModel, ActionModel) {
    (
        SessionModel { phase: Phase::ChoosingTodo, todos: todos, cursor: cursor },
        ActionModel::ShowTodos(todos, cursor),
    )
}

/// The selected todo becomes `row` in the list, and is written back.
pub open spec fn save_change(s: SessionModel, row: TodoRow) -> (SessionModel, ActionModel) {
    (
        SessionModel { phase: Phase::SavingChange, todos: s.todos.update(s.cursor, row), ..s },
        ActionModel::Update(row),
    )
}

/// The session's transition function. A failure ends the session with a report;
/// an event that the phase does not wait for ends it silently; a position out of
/// range asks again.
pub open spec fn next(s: SessionModel, e: EventModel) -> (SessionModel, ActionModel) {
    if s.phase == Phase::Finished {
        (s, ActionModel::Exit)
    } else {
        match e {
            EventModel::InputFailed(m) => finish(s, ActionModel::ReportInputError(m)),
            EventModel::StoreFailed(m) => finish(s, ActionModel::ReportStoreError(m)),
            _ => match s.phase {
                Phase::MainMenu => match e {
                    EventModel::Chosen(i) => if 0 <= i < menu_operations().len() {
                        match menu_operations()[i] {
                            MenuOperation::ListAllTodos => enter(
                                s,
                                Phase::Loading,
                                ActionModel::FetchAll,
                            ),
                            MenuOperation::AddTodo => enter(
                                s,
                                Phase::AddingTodo,
                                ActionModel::PromptNewTodo,
                            ),
                        }
                    } else {
                        (s, ActionModel::ShowMainMenu)
                    },
                    _ => finish(s, ActionModel::Exit),
                },
                Phase::AddingTodo => match e {
                    EventModel::Entered(t) => enter(s, Phase::SavingNew, ActionModel::Insert(t)),
                    EventModel::Cancelled => back_to_menu(s),
                    _ => finish(s, ActionModel::Exit),
                },
                Phase::SavingNew => match e {
                    EventModel::StoreDone => back_to_menu(s),
                    _ => finish(s, ActionModel::Exit),
                },
                Phase::Loading => match e {
                    EventModel::Fetched(rows) => show_list(rows, 0),
                    _ => finish(s, ActionModel::Exit),
                },
                Phase::ChoosingTodo => match e {
                    EventModel::Chosen(i) => if 0 <= i < s.todos.len() {
                        (
                            SessionModel { phase: Phase::ChoosingOperation, cursor: i, ..s },
                            ActionModel::ShowOperations,
                        )
                    } else {
                        show_list(s.todos, s.cursor)
                    },
                    EventModel::Cancelled => back_to_menu(s),
                    _ => finish(s, ActionModel::Exit),
                },
                Phase::ChoosingOperation => match e {
                    EventModel::Chosen(i) => if 0 <= i < todo_operations().len() {
                        match todo_operations()[i] {
                            TodoOperation::ToggleIsCompleted => save_change(
                                s,
                                s.selected().toggled(),
                            ),
                            TodoOperation::EditText => enter(
                                s,
                                Phase::EditingText,
                                ActionModel::PromptEdit(s.selected().text),
                            ),
                            TodoOperation::Delete => enter(
                                s,
                                Phase::Deleting,
                                ActionModel::Delete(s.selected().id),
                            ),
                        }
                    } else {
                        (s, ActionModel::ShowOperations)
                    },
                    EventModel::Cancelled => show_list(s.todos, s.cursor),
                    _ => finish(s, ActionModel::Exit),
                },
                Phase::EditingText => match e {
                    EventModel::Entered(t) => save_change(s, s.selected().with_text(t)),
                    EventModel::Cancelled => show_list(s.todos, s.cursor),
                    _ => finish(s, ActionModel::Exit),
                },
                Phase::SavingChange => match e {
                    EventModel::StoreDone => show_list(s.todos, s.cursor),
                    _ => finish(s, ActionModel::Exit),
                },
                Phase::Deleting => match e {
                    EventModel::StoreDone => show_list(s.todos.remove(s.cursor), 0),
                    _ => finish(s, ActionModel::Exit),
                },
                Phase::Finished => (s, ActionModel::Exit),
            },
        }
    }
}

/// A session that has not begun: the main menu is about to be shown.
pub open spec fn initial() -> SessionModel {
    SessionModel { phase: Phase::MainMenu, todos: Seq::empty(), cursor: 0 }
}

impl Session {
    pub open spec fn wf(&self) -> bool {
        self@.wf()
    }

    /// A new session, and its first action: the main menu.
    pub fn start() -> (r: (Session, Action))
        ensures
            r.0.wf(),
            r.0@ == initial(),
            r.1@ == ActionModel::ShowMainMenu,
    {
        let s = Session { phase: Phase::MainMenu, todos: Vec::new(), cursor: 0 };
        assert(s@.todos =~= Seq::<TodoRow>::empty());
        (s, Action::ShowMainMenu)
    }

    /// Whether the session is over.
    pub fn is_finished(&self) -> (r: bool)
        ensures
            r == (self.phase == Phase::Finished),
    {
        self.phase == Phase::Finished
    }

    fn end(&mut self, a: Action) -> (r: Action)
        requires
            old(self).wf(),
        ensures
            final(self).wf(),
            (final(self)@, r@) == finish(old(self)@, a@),
    {
        self.phase = Phase::Finished;
        a
    }

    fn go(&mut self, phase: Phase, a: Action) -> (r: Action)
        requires
            old(self).wf(),
            has_selection(phase) ==> old(self)@.cursor < old(self)@.todos.len(),
            phase == Phase::ChoosingTodo ==> (old(self)@.cursor == 0 || old(self)@.cursor
                < old(self)@.todos.len()),
        ensures
            final(self).wf(),
            (final(self)@, r@) == enter(old(self)@, phase, a@),
    {
        self.phase = phase;
        a
    }

    fn list(&mut self) -> (r: Action)
        requires
            old(self).cursor == 0 || old(self).cursor < old(self).todos.len(),
        ensures
            final(self).wf(),
            (final(self)@, r@) == show_list(old(self)@.todos, old(self)@.cursor),
    {
        self.phase = Phase::ChoosingTodo;
        let todos = duplicate_all(&self.todos);
        Action::ShowTodos { todos, default_index: self.cursor }
    }

    fn save(&mut self, t: Todo) -> (r: Action)
        requires
            old(self).wf(),
            old(self).cursor < old(self).todos.len(),
            t@.id == old(self)@.selected().id,
        ensures
            final(self).wf(),
            (final(self)@, r@) == save_change(old(self)@, t@),
    {
        let copy = t.duplicate();
        let ghost before = self@;
        self.todos.set(self.cursor, copy);
        self.phase = Phase::SavingChange;
        assert(self@.todos =~= before.todos.update(before.cursor, t@));
        Action::Update { todo: t }
    }

    /// Moves the session on by one event and says what is to be done next.
    pub fn step(&mut self, event: Event) -> (r: Action)
        requires
            old(self).wf(),
        ensures
            final(self).wf(),
            (final(self)@, r@) == next(old(self)@, event@),
    {
        if self.phase == Phase::Finished {
            return Action::Exit;
        }
        match event {
            Event::InputFailed(e) => {
                return self.end(Action::ReportInputError { message: e.message });
            },
            Event::StoreFailed(e) => {
                return self.end(Action::ReportStoreError { message: e.message });
            },
            _ => {},
        }
        match self.phase {
            Phase::MainMenu => match event {
                Event::Chosen(i) => match MenuOperation::from_index(i) {
                    Some(MenuOperation::ListAllTodos) => self.go(Phase::Loading, Action::FetchAll),
                    Some(MenuOperation::AddTodo) => self.go(
                        Phase::AddingTodo,
                        Action::PromptNewTodo,
                    ),
                    None => Action::ShowMainMenu,
                },
                _ => self.end(Action::Exit),
            },
            Phase::AddingTodo => match event {
                Event::Entered(text) => self.go(Phase::SavingNew, Action::Insert { text }),
                Event::Cancelled => self.go(Phase::MainMenu, Action::ShowMainMenu),
                _ => self.end(Action::Exit),
            },
            Phase::SavingNew => match event {
                Event::StoreDone => self.go(Phase::MainMenu, Action::ShowMainMenu),
                _ => self.end(Action::Exit),
            },
            Phase::Loading => match event {
                Event::Fetched(todos) => {
                    self.todos = todos;
                    self.cursor = 0;
                    self.list()
                },
                _ => self.end(Action::Exit),
            },
            Phase::ChoosingTodo => match event {
                Event::Chosen(i) => {
                    if i < self.todos.len() {
                        self.cursor = i;
                        self.go(Phase::ChoosingOperation, Action::ShowOperations)
                    } else {
                        self.list()
                    }
                },
                Event::Cancelled => self.go(Phase::MainMenu, Action::ShowMainMenu),
                _ => self.end(Action::Exit),
            },
            Phase::ChoosingOperation => match event {
                Event::Chosen(i) => match TodoOperation::from_index(i) {
                    Some(TodoOperation::ToggleIsCompleted) => {
                        let mut t = self.todos[self.cursor].duplicate();
                        t.is_completed = !t.is_completed;
                        self.save(t)
                    },
                    Some(TodoOperation::EditText) => {
                        let initial = self.todos[self.cursor].text.clone();
                        self.go(Phase::EditingText, Action::PromptEdit { initial })
                    },
                    Some(TodoOperation::Delete) => {
                        let id = self.todos[self.cursor].id;
                        self.go(Phase::Deleting, Action::Delete { id })
                    },
                    None => Action::ShowOperations,
                },
                Event::Cancelled => self.list(),
                _ => self.end(Action::Exit),
            },
            Phase::EditingText => match event {
                Event::Entered(text) => {
                    let mut t = self.todos[self.cursor].duplicate();
                    t.text = text;
                    self.save(t)
                },
                Event::Cancelled => self.list(),
                _ => self.end(Action::Exit),
            },
            Phase::SavingChange => match event {
                Event::StoreDone => self.list(),
                _ => self.end(Action::Exit),
            },
            Phase::Deleting => match event {
                Event::StoreDone => {
                    let ghost before = self@;
                    let _gone = self.todos.remove(self.cursor);
                    self.cursor = 0;
                    assert(self@.todos =~= before.todos.remove(before.cursor));
                    self.list()
                },
                _ => self.end(Action::Exit),
            },
            Phase::Finished => Action::Exit,
        }
    }
}

} // verus!
