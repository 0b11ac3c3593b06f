use vstd::prelude::*;

verus! {

/// A failure of the terminal while the user was being asked something.
#[derive(Debug)]
pub struct InputError {
    pub message: String,
}

/// What a prompt gave back: a value, a failure, or the user's escape gesture.
pub enum InputResult<T> {
    Result(Result<T, InputError>),
    Quit,
}

/// The entries of the main menu.
#[derive(PartialEq, Eq, Structural, Clone, Copy, Debug)]
pub enum MenuOperation {
    ListAllTodos,
    AddTodo,
}

/// The main menu, in the order in which it is shown.
pub open spec fn menu_operations() -> Seq<MenuOperation> {
    seq![MenuOperation::ListAllTodos, MenuOperation::AddTodo]
}

pub open spec fn menu_label(op: MenuOperation) -> Seq<char> {
    match op {
        MenuOperation::ListAllTodos => "List all todos"@,
        MenuOperation::AddTodo => "Add todo"@,
    }
}

impl MenuOperation {
    /// Every entry of the main menu, in display order.
    pub fn all() -> (r: Vec<MenuOperation>)
        ensures
            r@ == menu_operations(),
    {
        let r = vec![MenuOperation::ListAllTodos, MenuOperation::AddTodo];
        assert(r@ == menu_operations());
        r
    }

    /// The entry shown at position `index`, if there is one.
    pub fn from_index(index: usize) -> (r: Option<MenuOperation>)
        ensures
            index < menu_operations().len() ==> r == Some(menu_operations()[index as int]),
            index >= menu_operations().len() ==> r is None,
    {
        if index == 0 {
            Some(MenuOperation::ListAllTodos)
        } else if index == 1 {
            Some(MenuOperation::AddTodo)
        } else {
            None
        }
    }

    /// The text that stands for this entry in the menu.
    pub fn label(&self) -> (r: &'static str)
        ensures
            r@ == menu_label(*self),
    {
        match self {
            MenuOperation::ListAllTodos => "List all todos",
            MenuOperation::AddTodo => "Add todo",
        }
    }
}

/// The operations offered on one selected todo.
#[derive(PartialEq, Eq, Structural, Clone, Copy, Debug)]
pub enum TodoOperation {
    ToggleIsCompleted,
    EditText,
    Delete,
}

/// The operation menu, in the order in which it is shown.
pub open spec fn todo_operations() -> Seq<TodoOperation> {
    seq![TodoOperation::ToggleIsCompleted, TodoOperation::EditText, TodoOperation::Delete]
}

pub open spec fn todo_operation_label(op: TodoOperation) -> Seq<char> {
    match op {
        TodoOperation::ToggleIsCompleted => "Toggle is completed"@,
        TodoOperation::EditText => "Edit todo text"@,
        TodoOperation::Delete => "Delete"@,
    }
}

impl TodoOperation {
    /// Every operation on a todo, in display order.
    pub fn all() -> (r: Vec<TodoOperation>)
        ensures
            r@ == todo_operations(),
    {
        let r = vec![TodoOperation::ToggleIsCompleted, TodoOperation::EditText, TodoOperation::Delete];
        assert(r@ == todo_operations());
        r
    }

    /// The operation shown at position `index`, if there is one.
    pub fn from_index(index: usize) -> (r: Option<TodoOperation>)
        ensures
            index < todo_operations().len() ==> r == Some(todo_operations()[index as int]),
            index >= todo_operations().len() ==> r is None,
    {
        if index == 0 {
            Some(TodoOperation::ToggleIsCompleted)
        } else if index == 1 {
            Some(TodoOperation::EditText)
        } else if index == 2 {
            Some(TodoOperation::Delete)
        } else {
            None
        }
    }

    /// The text that stands for this operation in the menu.
    pub fn label(&self) -> (r: &'static str)
        ensures
            r@ == todo_operation_label(*self),
    {
        match self {
            TodoOperation::ToggleIsCompleted => "Toggle is completed",
            TodoOperation::EditText => "Edit todo text",
            TodoOperation::Delete => "Delete",
        }
    }
}

} // verus!
