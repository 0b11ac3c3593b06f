use todo_list::input::{MenuOperation, TodoOperation};
use todo_list::session::{Action, Event};
use todo_list::store::MemoryStore;
use todo_list::todo::{TextStyle, Todo, duplicate_all};

#[test]
fn menu_labels_and_order() {
    let all = MenuOperation::all();
    assert_eq!(all, vec![MenuOperation::ListAllTodos, MenuOperation::AddTodo]);
    assert_eq!(MenuOperation::ListAllTodos.label(), "List all todos");
    assert_eq!(MenuOperation::AddTodo.label(), "Add todo");
    assert_eq!(MenuOperation::from_index(1), Some(MenuOperation::AddTodo));
    assert_eq!(MenuOperation::from_index(2), None);
}

#[test]
fn todo_operation_labels_and_order() {
    let all = TodoOperation::all();
    assert_eq!(
        all,
        vec![TodoOperation::ToggleIsCompleted, TodoOperation::EditText, TodoOperation::Delete]
    );
    assert_eq!(TodoOperation::ToggleIsCompleted.label(), "Toggle is completed");
    assert_eq!(TodoOperation::EditText.label(), "Edit todo text");
    assert_eq!(TodoOperation::Delete.label(), "Delete");
    assert_eq!(TodoOperation::from_index(0), Some(TodoOperation::ToggleIsCompleted));
    assert_eq!(TodoOperation::from_index(3), None);
}

#[test]
fn completed_todos_are_struck() {
    let mut t = Todo::new(3, "x".to_string());
    assert_eq!(t.style(), TextStyle::Plain);
    t.is_completed = true;
    assert_eq!(t.style(), TextStyle::Struck);
    let c = t.duplicate();
    assert_eq!((c.id, c.text.as_str(), c.is_completed), (3, "x", true));
}

#[test]
fn copies_of_lists_keep_every_field() {
    let v = vec![Todo::new(1, "a".to_string()), Todo::new(9, "b".to_string())];
    let c = duplicate_all(&v);
    assert_eq!(c.len(), 2);
    assert_eq!((c[1].id, c[1].text.as_str()), (9, "b"));
}

#[test]
fn empty_store_lists_nothing() {
    let store = MemoryStore::new();
    assert!(store.list_all().is_empty());
}

#[test]
fn update_of_missing_id_is_no_op() {
    let mut store = MemoryStore::new();
    store.insert("a".to_string()).unwrap();
    let mut stray = Todo::new(77, "z".to_string());
    stray.is_completed = true;
    store.update(&stray);
    let all = store.list_all();
    assert_eq!(all.len(), 1);
    assert_eq!((all[0].id, all[0].text.as_str(), all[0].is_completed), (1, "a", false));
}

#[test]
fn insert_fails_when_identifiers_run_out() {
    let mut store = MemoryStore::new();
    store.next_id = u32::MAX as u64;
    assert!(store.insert("last".to_string()).is_ok());
    assert_eq!(store.list_all()[0].id, u32::MAX);
    let err = store.insert("one too many".to_string());
    assert!(err.is_err());
    assert_eq!(store.list_all().len(), 1);
    let ev = store.perform(&Action::Insert { text: "again".to_string() });
    assert!(matches!(ev, Some(Event::StoreFailed(_))));
}

#[test]
fn non_store_actions_are_not_performed() {
    let mut store = MemoryStore::new();
    assert!(store.perform(&Action::ShowMainMenu).is_none());
    assert!(store.perform(&Action::Exit).is_none());
}
