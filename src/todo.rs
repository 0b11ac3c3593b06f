use vstd::prelude::*;

verus! {

/// One todo as the record store holds it.
#[derive(Debug)]
pub struct Todo {
    pub id: u32,
    pub text: String,
    pub is_completed: bool,
}

/// The mathematical value of a [`Todo`].
pub struct TodoRow {
    pub id: u32,
    pub text: Seq<char>,
    pub is_completed: bool,
}

impl View for Todo {
    type V = TodoRow;

    open spec fn view(&self) -> TodoRow {
        TodoRow { id: self.id, text: self.text@, is_completed: self.is_completed }
    }
}

/// How a todo is drawn in a list: completed items are set apart from pending ones.
#[derive(PartialEq, Eq, Structural, Clone, Copy, Debug)]
pub enum TextStyle {
    Plain,
    Struck,
}

pub open spec fn style_of(row: TodoRow) -> TextStyle {
    if row.is_completed {
        TextStyle::Struck
    } else {
        TextStyle::Plain
    }
}

impl TodoRow {
    /// The same record with its completion flag flipped.
    pub open spec fn toggled(self) -> TodoRow {
        TodoRow { is_completed: !self.is_completed, ..self }
    }

    /// The same record with another text.
    pub open spec fn with_text(self, text: Seq<char>) -> TodoRow {
        TodoRow { text: text, ..self }
    }
}

pub open spec fn rows_of(todos: Seq<Todo>) -> Seq<TodoRow> {
    todos.map_values(|t: Todo| t@)
}

impl Todo {
    /// A todo with the given identifier and text, not yet completed.
    pub fn new(id: u32, text: String) -> (r: Todo)
        ensures
            r@ == (TodoRow { id: id, text: text@, is_completed: false }),
    {
        Todo { id, text, is_completed: false }
    }

    /// A field-by-field copy.
    pub fn duplicate(&self) -> (r: Todo)
        ensures
            r@ == self@,
    {
        Todo { id: self.id, text: self.text.clone(), is_completed: self.is_completed }
    }

    /// The style in which this todo is drawn.
    pub fn style(&self) -> (r: TextStyle)
        ensures
            r == style_of(self@),
    {
        if self.is_completed {
            TextStyle::Struck
        } else {
            TextStyle::Plain
        }
    }
}

/// A field-by-field copy of a list of todos.
pub fn duplicate_all(todos: &Vec<Todo>) -> (r: Vec<Todo>)
    ensures
        rows_of(r@) == rows_of(todos@),
{
    let mut r: Vec<Todo> = Vec::new();
    let mut i: usize = 0;
    while i < todos.len()
        invariant
            i <= todos.len(),
            rows_of(r@) == rows_of(todos@.subrange(0, i as int)),
        decreases todos.len() - i,
    {
        let t = todos[i].duplicate();
        proof {
            assert(todos@.subrange(0, i + 1) == todos@.subrange(0, i as int).push(todos@[i as int]));
            assert(rows_of(r@.push(t)) == rows_of(r@).push(t@));
            assert(rows_of(todos@.subrange(0, i + 1)) == rows_of(todos@.subrange(0, i as int)).push(todos@[i as int]@));
        }
        r.push(t);
        i = i + 1;
    }
    assert(todos@.subrange(0, todos.len() as int) == todos@);
    r
}

} // verus!
