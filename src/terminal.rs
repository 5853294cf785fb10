use vstd::prelude::*;

use crate::errors::ApplicationError;
use crate::todo::{list_view, Todo, TodoView};

verus! {

/// Where the user's lines come from and where what they are shown goes.
/// A program wires it to standard input and output; a test, to a script.
pub trait Terminal {
    /// Reads one line typed by the user, without its line ending.
    fn read_line(&mut self) -> Result<String, ApplicationError>;

    /// Shows `text` to the user as it is.
    fn write(&mut self, text: &str);

    /// Gives the user a moment to read what was just shown.
    fn pause(&mut self);
}

/// What one read gave: the line, or the message of the error.
pub type ReadOutcome = Result<Seq<char>, Seq<char>>;

/// The outcome of a read, as recorded.
pub open spec fn read_outcome(r: Result<String, ApplicationError>) -> ReadOutcome {
    match r {
        Ok(line) => Ok(line@),
        Err(e) => Err(e@),
    }
}

/// A terminal together with a record of all the text shown through it and
/// of the outcome of every read made through it.
pub struct Screen<T: Terminal> {
    terminal: T,
    shown: Ghost<Seq<char>>,
    reads: Ghost<Seq<ReadOutcome>>,
}

impl<T: Terminal> Screen<T> {
    /// Everything shown through this screen so far, in order.
    pub closed spec fn shown(&self) -> Seq<char> {
        self.shown@
    }

    /// The outcome of every read made through this screen so far, in order.
    pub closed spec fn reads(&self) -> Seq<ReadOutcome> {
        self.reads@
    }

    /// A screen on `terminal` that has shown nothing yet.
    pub fn new(terminal: T) -> (r: Screen<T>)
        ensures
            r.shown() == Seq::<char>::empty(),
            r.reads() == Seq::<ReadOutcome>::empty(),
    {
        Screen { terminal, shown: Ghost(Seq::empty()), reads: Ghost(Seq::empty()) }
    }

    /// The terminal the screen shows on.
    pub fn terminal(&self) -> &T {
        &self.terminal
    }

    /// Gives the terminal back.
    pub fn into_terminal(self) -> T {
        self.terminal
    }

    /// Reads one line typed by the user, without its line ending.
    pub fn read_line(&mut self) -> (r: Result<String, ApplicationError>)
        ensures
            final(self).shown() == old(self).shown(),
            final(self).reads() == old(self).reads().push(read_outcome(r)),
    {
        let r = self.terminal.read_line();
        self.reads = Ghost(self.reads@.push(read_outcome(r)));
        r
    }

    /// Shows `text` to the user as it is.
    pub fn write(&mut self, text: &str)
        ensures
            final(self).shown() == old(self).shown() + text@,
            final(self).reads() == old(self).reads(),
    {
        self.terminal.write(text);
        self.shown = Ghost(self.shown@ + text@);
    }

    /// Gives the user a moment to read what was just shown.
    pub fn pause(&mut self)
        ensures
            final(self).shown() == old(self).shown(),
            final(self).reads() == old(self).reads(),
    {
        self.terminal.pause();
    }
}

/// The character of a decimal digit.
pub open spec fn digit_char(d: nat) -> char {
    if d == 0 {
        '0'
    } else if d == 1 {
        '1'
    } else if d == 2 {
        '2'
    } else if d == 3 {
        '3'
    } else if d == 4 {
        '4'
    } else if d == 5 {
        '5'
    } else if d == 6 {
        '6'
    } else if d == 7 {
        '7'
    } else if d == 8 {
        '8'
    } else {
        '9'
    }
}

/// A number written in decimal, without leading zeros.
pub open spec fn decimal_text(n: nat) -> Seq<char>
    decreases n,
{
    if n < 10 {
        seq![digit_char(n)]
    } else {
        decimal_text(n / 10).push(digit_char(n % 10))
    }
}

fn digit_str(d: usize) -> (r: &'static str)
    requires
        d < 10,
    ensures
        r@ == seq![digit_char(d as nat)],
{
    proof {
        reveal_strlit("0");
        reveal_strlit("1");
        reveal_strlit("2");
        reveal_strlit("3");
        reveal_strlit("4");
        reveal_strlit("5");
        reveal_strlit("6");
        reveal_strlit("7");
        reveal_strlit("8");
        reveal_strlit("9");
    }
    let r = if d == 0 {
        "0"
    } else if d == 1 {
        "1"
    } else if d == 2 {
        "2"
    } else if d == 3 {
        "3"
    } else if d == 4 {
        "4"
    } else if d == 5 {
        "5"
    } else if d == 6 {
        "6"
    } else if d == 7 {
        "7"
    } else if d == 8 {
        "8"
    } else {
        "9"
    };
    assert(r@ =~= seq![digit_char(d as nat)]);
    r
}

/// Writes `n` in decimal.
pub fn decimal_string(n: usize) -> (r: String)
    ensures
        r@ == decimal_text(n as nat),
{
    let mut text = String::from_str(digit_str(n % 10));
    let mut rest: usize = n / 10;
    while rest > 0
        invariant
            rest == 0 ==> text@ == decimal_text(n as nat),
            rest > 0 ==> decimal_text(n as nat) == decimal_text(rest as nat) + text@,
        decreases rest,
    {
        let ghost before = text@;
        text = String::from_str(digit_str(rest % 10)).concat(text.as_str());
        proof {
            let d = seq![digit_char((rest % 10) as nat)];
            if rest >= 10 {
                assert(decimal_text(rest as nat) == decimal_text((rest / 10) as nat).push(
                    digit_char((rest % 10) as nat),
                ));
                assert(decimal_text((rest / 10) as nat).push(digit_char((rest % 10) as nat))
                    + before =~= decimal_text((rest / 10) as nat) + text@);
            } else {
                assert(decimal_text(rest as nat) == d);
            }
        }
        rest = rest / 10;
    }
    assert(n < 10 ==> text@ == decimal_text(n as nat));
    text
}

/// How a boolean is shown.
pub open spec fn bool_text(b: bool) -> Seq<char> {
    if b {
        "true"@
    } else {
        "false"@
    }
}

/// Writes `true` or `false`.
pub fn bool_string(b: bool) -> (r: String)
    ensures
        r@ == bool_text(b),
{
    if b {
        String::from_str("true")
    } else {
        String::from_str("false")
    }
}

/// How an item is listed: `completed: <flag> | text: <text>` and a line end.
pub open spec fn todo_line_text(todo: TodoView) -> Seq<char> {
    "completed: "@ + bool_text(todo.completed) + " | text: "@ + todo.text + "\n"@
}

/// How an item is listed with its 1-based number: `# <number>: ` and then as
/// `todo_line_text` has it.
pub open spec fn numbered_line_text(number: nat, todo: TodoView) -> Seq<char> {
    "# "@ + decimal_text(number) + ": "@ + todo_line_text(todo)
}

/// The line that lists `todo`.
pub fn todo_line(todo: &Todo) -> (r: String)
    ensures
        r@ == todo_line_text(todo@),
{
    String::from_str("completed: ").concat(bool_string(todo.completed).as_str()).concat(
        " | text: ",
    ).concat(todo.text.as_str()).concat("\n")
}

/// The line that lists `todo` under its 1-based `number`.
pub fn numbered_line(number: usize, todo: &Todo) -> (r: String)
    ensures
        r@ == numbered_line_text(number as nat, todo@),
{
    let r = String::from_str("# ").concat(decimal_string(number).as_str()).concat(": ").concat(
        todo_line(todo).as_str(),
    );
    assert(r@ =~= numbered_line_text(number as nat, todo@));
    r
}

/// The lines that list the items, in order.
pub open spec fn items_text(l: Seq<TodoView>) -> Seq<char>
    decreases l.len(),
{
    if l.len() == 0 {
        Seq::empty()
    } else {
        items_text(l.drop_last()) + todo_line_text(l.last())
    }
}

/// The lines that list the items, in order, each under its 1-based number.
pub open spec fn numbered_items_text(l: Seq<TodoView>) -> Seq<char>
    decreases l.len(),
{
    if l.len() == 0 {
        Seq::empty()
    } else {
        numbered_items_text(l.drop_last()) + numbered_line_text(l.len(), l.last())
    }
}

/// What the list command shows: a heading, one line per item, and the
/// request to press enter.
pub open spec fn listing_text(l: Seq<TodoView>) -> Seq<char> {
    "Your TODO list:\n\n"@ + items_text(l) + "\nPress enter key to return\n"@
}

/// What is shown before the user picks an item: a heading, one numbered line
/// per item, and an empty line.
pub open spec fn numbered_listing_text(l: Seq<TodoView>) -> Seq<char> {
    "Your TODO list:\n\n"@ + numbered_items_text(l) + "\n"@
}

/// The text that the list command shows.
pub fn listing(todos: &Vec<Todo>) -> (r: String)
    ensures
        r@ == listing_text(list_view(todos@)),
{
    let ghost l = list_view(todos@);
    let mut lines = String::new();
    let mut i: usize = 0;
    while i < todos.len()
        invariant
            i <= todos@.len(),
            l == list_view(todos@),
            lines@ == items_text(l.subrange(0, i as int)),
        decreases todos@.len() - i,
    {
        let line = todo_line(&todos[i]);
        lines = lines.concat(line.as_str());
        proof {
            let p = l.subrange(0, i + 1);
            assert(p.drop_last() =~= l.subrange(0, i as int));
            assert(p.last() == todos@[i as int]@);
        }
        i = i + 1;
    }
    assert(l.subrange(0, i as int) =~= l);
    let r = String::from_str("Your TODO list:\n\n").concat(lines.as_str()).concat(
        "\nPress enter key to return\n",
    );
    r
}

/// The text shown before the user picks an item by its number.
pub fn numbered_listing(todos: &Vec<Todo>) -> (r: String)
    ensures
        r@ == numbered_listing_text(list_view(todos@)),
{
    let ghost l = list_view(todos@);
    let mut lines = String::new();
    let mut i: usize = 0;
    while i < todos.len()
        invariant
            i <= todos@.len(),
            l == list_view(todos@),
            lines@ == numbered_items_text(l.subrange(0, i as int)),
        decreases todos@.len() - i,
    {
        let line = numbered_line(i + 1, &todos[i]);
        lines = lines.concat(line.as_str());
        proof {
            let p = l.subrange(0, i + 1);
            assert(p.drop_last() =~= l.subrange(0, i as int));
            assert(p.last() == todos@[i as int]@);
        }
        i = i + 1;
    }
    assert(l.subrange(0, i as int) =~= l);
    String::from_str("Your TODO list:\n\n").concat(lines.as_str()).concat("\n")
}

} // verus!
