use todolib::action::{complete_todo, create_todo, delete_todo, edit_todo, list_todos};
use todolib::errors::ApplicationError;
use todolib::terminal::{Screen, Terminal};
use todolib::todo::Todo;

#[derive(PartialEq, Eq)]
enum GetInputValType {
    Error,
    String,
}

struct GetInputVal {
    input_type: GetInputValType,
    value: String,
}

impl GetInputVal {
    fn new(input_type: GetInputValType, value: String) -> Self {
        Self { input_type, value }
    }
}

/// Hands out the scripted lines in order and records what is shown.
struct MockInputProvider {
    inputs: Vec<GetInputVal>,
    shown: String,
}

impl MockInputProvider {
    fn new(inputs: Vec<GetInputVal>) -> Self {
        Self { inputs, shown: String::new() }
    }
}

impl Terminal for MockInputProvider {
    fn read_line(&mut self) -> Result<String, ApplicationError> {
        if self.inputs.is_empty() {
            panic!("No more mock inputs available!")
        }
        let input = self.inputs.remove(0);
        match input.input_type {
            GetInputValType::Error => Err(ApplicationError(input.value.clone())),
            GetInputValType::String => Ok(input.value.clone()),
        }
    }

    fn write(&mut self, text: &str) {
        self.shown.push_str(text);
    }

    fn pause(&mut self) {}
}

fn three_todos() -> Vec<Todo> {
    vec![
        Todo::new("first".to_string()),
        Todo::new("second".to_string()),
        Todo::new("third".to_string()),
    ]
}

#[test]
fn test_list_todos() {
    let mock_inputs = vec![
        GetInputVal::new(GetInputValType::String, "".to_string()),
        GetInputVal::new(GetInputValType::Error, "".to_string()),
    ];
    let mut provider = Screen::new(MockInputProvider::new(mock_inputs));

    let todos = three_todos();

    let res = list_todos(&todos, &mut provider);
    assert!(res.is_ok());
    assert_eq!(todos.len(), 3);

    let res = list_todos(&todos, &mut provider);
    assert!(res.is_err());
    assert_eq!(todos.len(), 3);
}

#[test]
fn test_create_todo() {
    let mock_inputs = vec![
        GetInputVal::new(GetInputValType::String, "Foo".to_string()),
        GetInputVal::new(GetInputValType::String, "Bar".to_string()),
        GetInputVal::new(GetInputValType::Error, "".to_string()),
    ];
    let mut provider = Screen::new(MockInputProvider::new(mock_inputs));

    let mut todos = three_todos();

    let res = create_todo(&mut todos, &mut provider);
    assert_eq!(todos.len(), 4);
    assert_eq!(todos.get(3).unwrap().completed, false);
    assert_eq!(todos.get(3).unwrap().text, "Foo");
    assert!(res.is_ok());

    let res = create_todo(&mut todos, &mut provider);
    assert_eq!(todos.len(), 5);
    assert_eq!(todos.get(4).unwrap().completed, false);
    assert_eq!(todos.get(4).unwrap().text, "Bar");
    assert!(res.is_ok());

    let res = create_todo(&mut todos, &mut provider);
    assert_eq!(todos.len(), 5);
    assert!(res.is_err()); // Input Error
}

#[test]
fn test_complete_todo() {
    let mock_inputs = vec![
        GetInputVal::new(GetInputValType::String, "1".to_string()),
        GetInputVal::new(GetInputValType::String, "3".to_string()),
        GetInputVal::new(GetInputValType::Error, "".to_string()),
        GetInputVal::new(GetInputValType::String, "4".to_string()),
    ];
    let mut provider = Screen::new(MockInputProvider::new(mock_inputs));

    let mut todos = three_todos();

    let res = complete_todo(&mut todos, &mut provider);
    assert_eq!(todos.len(), 3);
    assert_eq!(todos.get(0).unwrap().completed, true);
    assert_eq!(todos.get(0).unwrap().text, "first");
    assert!(res.is_ok());

    let res = complete_todo(&mut todos, &mut provider);
    assert_eq!(todos.len(), 3);
    assert_eq!(todos.get(2).unwrap().completed, true);
    assert_eq!(todos.get(2).unwrap().text, "third");
    assert!(res.is_ok());

    let res = complete_todo(&mut todos, &mut provider);
    assert_eq!(todos.len(), 3);
    assert_eq!(todos.get(2).unwrap().completed, true);
    assert_eq!(todos.get(2).unwrap().text, "third");
    assert!(res.is_err()); // Input Error

    let res = complete_todo(&mut todos, &mut provider);
    assert_eq!(todos.len(), 3);
    assert_eq!(todos.get(2).unwrap().completed, true);
    assert_eq!(todos.get(2).unwrap().text, "third");
    assert!(res.is_err()); // Selection Error
}

#[test]
fn test_delete_todo() {
    let mock_inputs = vec![
        GetInputVal::new(GetInputValType::String, "1".to_string()),
        GetInputVal::new(GetInputValType::String, "2".to_string()),
        GetInputVal::new(GetInputValType::Error, "".to_string()),
        GetInputVal::new(GetInputValType::String, "2".to_string()),
    ];
    let mut provider = Screen::new(MockInputProvider::new(mock_inputs));

    let mut todos = three_todos();

    let res = delete_todo(&mut todos, &mut provider);
    assert!(res.is_ok());
    assert_eq!(todos.len(), 2);
    assert!(todos.iter().any(|todo: &Todo| todo.text.eq("second")));
    assert!(todos.iter().any(|todo: &Todo| todo.text.eq("third")));

    let res = delete_todo(&mut todos, &mut provider);
    assert!(res.is_ok());
    assert_eq!(todos.len(), 1);
    assert_eq!(todos.get(0).unwrap().text, "third");

    let res = delete_todo(&mut todos, &mut provider);
    assert!(res.is_err()); // Input Error
    assert_eq!(todos.len(), 1);
    assert_eq!(todos.get(0).unwrap().text, "third");

    let res = delete_todo(&mut todos, &mut provider);
    assert!(res.is_err()); // Selection Error
    assert_eq!(todos.len(), 1);
    assert_eq!(todos.get(0).unwrap().text, "third");
}

#[test]
fn test_edit_todo() {
    let mock_inputs = vec![
        GetInputVal::new(GetInputValType::String, "1".to_string()),
        GetInputVal::new(GetInputValType::String, "T".to_string()),
        GetInputVal::new(GetInputValType::String, "first edited".to_string()),
        GetInputVal::new(GetInputValType::String, "1".to_string()),
        GetInputVal::new(GetInputValType::String, "t".to_string()),
        GetInputVal::new(GetInputValType::String, "first edited again".to_string()),
        GetInputVal::new(GetInputValType::String, "1".to_string()),
        GetInputVal::new(GetInputValType::String, "C".to_string()),
        GetInputVal::new(GetInputValType::String, "1".to_string()),
        GetInputVal::new(GetInputValType::String, "C".to_string()),
        GetInputVal::new(GetInputValType::Error, "".to_string()),
        GetInputVal::new(GetInputValType::Error, "4".to_string()),
        GetInputVal::new(GetInputValType::Error, "1".to_string()),
        GetInputVal::new(GetInputValType::Error, "f".to_string()),
    ];
    let mut provider = Screen::new(MockInputProvider::new(mock_inputs));

    let mut todos = three_todos();

    let res = edit_todo(&mut todos, &mut provider);
    assert!(res.is_ok());
    assert_eq!(todos.len(), 3);
    assert_eq!(todos.get(0).unwrap().completed, false);
    assert_eq!(todos.get(0).unwrap().text, "first edited");

    let res = edit_todo(&mut todos, &mut provider);
    assert!(res.is_ok());
    assert_eq!(todos.len(), 3);
    assert_eq!(todos.get(0).unwrap().completed, false);
    assert_eq!(todos.get(0).unwrap().text, "first edited again");

    let res = edit_todo(&mut todos, &mut provider);
    assert!(res.is_ok());
    assert_eq!(todos.len(), 3);
    assert_eq!(todos.get(0).unwrap().completed, true);
    assert_eq!(todos.get(0).unwrap().text, "first edited again");

    let res = edit_todo(&mut todos, &mut provider);
    assert!(res.is_ok());
    assert_eq!(todos.len(), 3);
    assert_eq!(todos.get(0).unwrap().completed, false);
    assert_eq!(todos.get(0).unwrap().text, "first edited again");

    let res = edit_todo(&mut todos, &mut provider);
    assert!(res.is_err()); // Input Error
    assert_eq!(todos.len(), 3);
    assert_eq!(todos.get(0).unwrap().completed, false);
    assert_eq!(todos.get(0).unwrap().text, "first edited again");

    let res = edit_todo(&mut todos, &mut provider);
    assert!(res.is_err()); // Selection Error
    assert_eq!(todos.len(), 3);
    assert_eq!(todos.get(0).unwrap().completed, false);
    assert_eq!(todos.get(0).unwrap().text, "first edited again");

    let res = edit_todo(&mut todos, &mut provider);
    assert!(res.is_err()); // Selection Error
    assert_eq!(todos.len(), 3);
    assert_eq!(todos.get(0).unwrap().completed, false);
    assert_eq!(todos.get(0).unwrap().text, "first edited again");
}
