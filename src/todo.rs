use vstd::prelude::*;

verus! {

/// One item of the list: a text and whether it has been done.
pub struct Todo {
    pub text: String,
    pub completed: bool,
}

/// What a `Todo` holds, as mathematical values.
pub struct TodoView {
    pub text: Seq<char>,
    pub completed: bool,
}

impl View for Todo {
    type V = TodoView;

    open spec fn view(&self) -> TodoView {
        TodoView { text: self.text@, completed: self.completed }
    }
}

/// The list as a sequence of views, in order.
pub open spec fn list_view(todos: Seq<Todo>) -> Seq<TodoView> {
    todos.map_values(|t: Todo| t@)
}

impl Todo {
    /// A new item is not done yet.
    pub fn new(text: String) -> (r: Todo)
        ensures
            r@ == (TodoView { text: text@, completed: false }),
    {
        Todo { text, completed: false }
    }
}

} // verus!
