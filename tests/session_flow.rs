use todo_list::input::{InputError, InputResult};
use todo_list::session::{Action, Event, Phase, Session};
use todo_list::store::{MemoryStore, StoreError};
use todo_list::todo::Todo;

/// Runs a session against an in-memory store: store actions are served by the
/// store, every other action consumes the next user event.
fn run(store: &mut MemoryStore, inputs: Vec<Event>) -> (Session, Vec<Action>) {
    let (mut session, first) = Session::start();
    let mut actions = vec![first];
    let mut inputs = inputs.into_iter();
    loop {
        let last = actions.last().unwrap();
        if session.is_finished() {
            break;
        }
        let event = match store.perform(last) {
            Some(e) => e,
            None => match inputs.next() {
                Some(e) => e,
                None => break,
            },
        };
        let next = session.step(event);
        actions.push(next);
    }
    (session, actions)
}

fn texts(todos: &[Todo]) -> Vec<(String, bool)> {
    todos.iter().map(|t| (t.text.clone(), t.is_completed)).collect()
}

fn entered(s: &str) -> Event {
    Event::Entered(s.to_string())
}

#[test]
fn insert_buy_milk_then_list() {
    let mut store = MemoryStore::new();
    let (session, actions) = run(&mut store, vec![Event::Chosen(1), entered("buy milk")]);
    assert_eq!(session.phase, Phase::MainMenu);
    assert!(actions.iter().any(|a| matches!(a, Action::Insert { text } if text == "buy milk")));
    let all = store.list_all();
    assert_eq!(all.len(), 1);
    assert_eq!(all[0].text, "buy milk");
    assert!(!all[0].is_completed);
}

#[test]
fn toggle_twice_restores_flag_in_store() {
    let mut store = MemoryStore::new();
    store.insert("task".to_string()).unwrap();
    let (mut session, _) = run(&mut store, vec![Event::Chosen(0), Event::Chosen(0), Event::Chosen(0)]);
    assert_eq!(session.phase, Phase::ChoosingTodo);
    assert!(store.list_all()[0].is_completed);
    let a = session.step(Event::Chosen(0));
    assert!(matches!(a, Action::ShowOperations));
    let a = session.step(Event::Chosen(0));
    assert!(matches!(&a, Action::Update { todo } if !todo.is_completed));
    let ev = store.perform(&a).unwrap();
    assert!(!store.list_all()[0].is_completed);
    let a = session.step(ev);
    assert!(matches!(a, Action::ShowTodos { default_index: 0, .. }));
}

#[test]
fn delete_removes_and_missing_id_is_no_op() {
    let mut store = MemoryStore::new();
    store.insert("one".to_string()).unwrap();
    store.insert("two".to_string()).unwrap();
    store.delete(1);
    let all = store.list_all();
    assert_eq!(all.len(), 1);
    assert_eq!(all[0].id, 2);
    store.delete(42);
    let again = store.list_all();
    assert_eq!(again.len(), 1);
    assert_eq!(again[0].id, 2);
    assert_eq!(again[0].text, "two");
}

#[test]
fn edit_cancel_keeps_text_and_confirm_updates() {
    let mut store = MemoryStore::new();
    store.insert("old".to_string()).unwrap();
    let (mut session, actions) =
        run(&mut store, vec![Event::Chosen(0), Event::Chosen(0), Event::Chosen(1)]);
    assert!(matches!(actions.last().unwrap(), Action::PromptEdit { initial } if initial == "old"));
    let a = session.step(Event::Cancelled);
    assert!(matches!(a, Action::ShowTodos { default_index: 0, .. }));
    assert_eq!(store.list_all()[0].text, "old");
    assert_eq!(session.todos[0].text, "old");

    session.step(Event::Chosen(0));
    session.step(Event::Chosen(1));
    let a = session.step(entered("new"));
    let ev = store.perform(&a).unwrap();
    session.step(ev);
    assert_eq!(store.list_all()[0].text, "new");
    assert_eq!(session.todos[0].text, "new");
}

#[test]
fn n_inserts_list_in_ascending_order() {
    let mut store = MemoryStore::new();
    for i in 0..5 {
        store.insert(format!("item {}", i)).unwrap();
    }
    store.delete(3);
    store.insert("late".to_string()).unwrap();
    let all = store.list_all();
    assert_eq!(all.len(), 5);
    for w in all.windows(2) {
        assert!(w[0].id < w[1].id);
    }
    let ids: Vec<u32> = all.iter().map(|t| t.id).collect();
    assert_eq!(ids, vec![1, 2, 4, 5, 6]);
    assert_eq!(all[4].text, "late");
}

#[test]
fn end_to_end_add_toggle_delete() {
    let mut store = MemoryStore::new();
    let inputs = vec![
        Event::Chosen(1),
        entered("a"),
        Event::Chosen(1),
        entered("b"),
        Event::Chosen(0),
        Event::Chosen(0),
        Event::Chosen(0),
        Event::Chosen(1),
        Event::Chosen(2),
    ];
    let (session, _) = run(&mut store, inputs);
    assert_eq!(session.phase, Phase::ChoosingTodo);
    assert_eq!(texts(&store.list_all()), vec![("a".to_string(), true)]);
    assert_eq!(texts(&session.todos), vec![("a".to_string(), true)]);
}

#[test]
fn cancel_at_main_menu_exits() {
    let (mut session, first) = Session::start();
    assert!(matches!(first, Action::ShowMainMenu));
    let a = session.step(Event::Cancelled);
    assert!(matches!(a, Action::Exit));
    assert!(session.is_finished());
    assert!(matches!(session.step(Event::Chosen(0)), Action::Exit));
}

#[test]
fn cancel_add_returns_to_menu_without_insert() {
    let mut store = MemoryStore::new();
    let (session, actions) = run(&mut store, vec![Event::Chosen(1), Event::Cancelled]);
    assert_eq!(session.phase, Phase::MainMenu);
    assert!(matches!(actions.last().unwrap(), Action::ShowMainMenu));
    assert_eq!(store.list_all().len(), 0);
}

#[test]
fn empty_text_is_inserted() {
    let mut store = MemoryStore::new();
    run(&mut store, vec![Event::Chosen(1), entered("")]);
    let all = store.list_all();
    assert_eq!(all.len(), 1);
    assert_eq!(all[0].text, "");
}

#[test]
fn out_of_range_choices_ask_again() {
    let (mut session, _) = Session::start();
    assert!(matches!(session.step(Event::Chosen(7)), Action::ShowMainMenu));
    assert_eq!(session.phase, Phase::MainMenu);
    assert!(matches!(session.step(Event::Chosen(0)), Action::FetchAll));
    let a = session.step(Event::Fetched(vec![Todo::new(4, "x".to_string())]));
    assert!(matches!(&a, Action::ShowTodos { todos, default_index: 0 } if todos.len() == 1));
    assert!(matches!(session.step(Event::Chosen(1)), Action::ShowTodos { .. }));
    assert!(matches!(session.step(Event::Chosen(0)), Action::ShowOperations));
    assert!(matches!(session.step(Event::Chosen(3)), Action::ShowOperations));
    assert!(matches!(session.step(Event::Chosen(2)), Action::Delete { id: 4 }));
}

#[test]
fn cancel_operation_returns_to_list_keeping_cursor() {
    let (mut session, _) = Session::start();
    session.step(Event::Chosen(0));
    session.step(Event::Fetched(vec![Todo::new(1, "p".to_string()), Todo::new(2, "q".to_string())]));
    session.step(Event::Chosen(1));
    let a = session.step(Event::Cancelled);
    assert!(matches!(a, Action::ShowTodos { default_index: 1, .. }));
    assert_eq!(session.phase, Phase::ChoosingTodo);
    let a = session.step(Event::Cancelled);
    assert!(matches!(a, Action::ShowMainMenu));
}

#[test]
fn toggle_keeps_cursor_and_delete_resets_it() {
    let mut store = MemoryStore::new();
    store.insert("p".to_string()).unwrap();
    store.insert("q".to_string()).unwrap();
    let (mut session, actions) =
        run(&mut store, vec![Event::Chosen(0), Event::Chosen(1), Event::Chosen(0)]);
    assert!(matches!(actions.last().unwrap(), Action::ShowTodos { default_index: 1, .. }));
    session.step(Event::Chosen(1));
    let a = session.step(Event::Chosen(2));
    assert!(matches!(a, Action::Delete { id: 2 }));
    let ev = store.perform(&a).unwrap();
    let a = session.step(ev);
    assert!(matches!(&a, Action::ShowTodos { todos, default_index: 0 } if todos.len() == 1));
    assert_eq!(session.todos.len(), 1);
}

#[test]
fn input_failure_is_reported_and_ends() {
    let (mut session, _) = Session::start();
    let ev = Event::from_choice(InputResult::Result(Err(InputError { message: "tty".to_string() })));
    let a = session.step(ev);
    assert!(matches!(&a, Action::ReportInputError { message } if message == "tty"));
    assert!(session.is_finished());
}

#[test]
fn store_failure_is_reported_and_ends() {
    let (mut session, _) = Session::start();
    session.step(Event::Chosen(0));
    let ev = Event::from_listing(Err(StoreError { message: "disk".to_string() }));
    let a = session.step(ev);
    assert!(matches!(&a, Action::ReportStoreError { message } if message == "disk"));
    assert_eq!(session.phase, Phase::Finished);
}

#[test]
fn unexpected_event_ends_session() {
    let (mut session, _) = Session::start();
    let a = session.step(Event::StoreDone);
    assert!(matches!(a, Action::Exit));
    assert!(session.is_finished());
}

#[test]
fn outcome_conversions() {
    assert!(matches!(Event::from_choice(InputResult::Result(Ok(2))), Event::Chosen(2)));
    assert!(matches!(Event::from_choice(InputResult::Quit), Event::Cancelled));
    assert!(matches!(Event::from_text(InputResult::Quit), Event::Cancelled));
    assert!(matches!(
        Event::from_text(InputResult::Result(Ok("t".to_string()))),
        Event::Entered(s) if s == "t"
    ));
    assert!(matches!(Event::from_change(Ok(())), Event::StoreDone));
    assert!(matches!(Event::from_listing(Ok(vec![])), Event::Fetched(v) if v.is_empty()));
}
