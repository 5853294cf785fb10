use vstd::prelude::*;

use crate::errors::{application_message, selection_message, ApplicationError, SelectionError};
use crate::input::{
    select_index, selected_position, selection_failure, single_char, sole_char,
    strip_line_ending, without_line_ending,
};
use crate::terminal::{
    bool_string, bool_text, listing, listing_text, numbered_listing, numbered_listing_text,
    read_outcome, ReadOutcome, Screen, Terminal,
};
use crate::todo::{list_view, Todo, TodoView};

verus! {

/// What the user asked for at the main menu.
#[derive(Debug, Clone, Copy, PartialEq, Eq, Structural)]
pub enum Action {
    Create,
    Edit,
    Delete,
    List,
    Complete,
    Exit,
    Invalid,
}

/// The menu choice that a line (line ending removed) stands for: the digits
/// `1` to `6`, anything else being invalid.
pub open spec fn action_of(line: Seq<char>) -> Action {
    let choice = without_line_ending(line);
    match sole_char(choice) {
        Some(c) => if c == '1' {
            Action::Create
        } else if c == '2' {
            Action::Edit
        } else if c == '3' {
            Action::Delete
        } else if c == '4' {
            Action::List
        } else if c == '5' {
            Action::Complete
        } else if c == '6' {
            Action::Exit
        } else {
            Action::Invalid
        },
        None => Action::Invalid,
    }
}

impl From<String> for Action {
    fn from(val: String) -> (r: Action)
        ensures
            r == action_of(val@),
    {
        let choice = strip_line_ending(val.as_str());
        match single_char(choice.as_str()) {
            Some(c) => if c == '1' {
                Action::Create
            } else if c == '2' {
                Action::Edit
            } else if c == '3' {
                Action::Delete
            } else if c == '4' {
                Action::List
            } else if c == '5' {
                Action::Complete
            } else if c == '6' {
                Action::Exit
            } else {
                Action::Invalid
            },
            None => Action::Invalid,
        }
    }
}

impl vstd::std_specs::convert::FromSpecImpl<String> for Action {
    open spec fn obeys_from_spec() -> bool {
        true
    }

    open spec fn from_spec(v: String) -> Action {
        action_of(v@)
    }
}

/// Which part of an item an edit changes.
#[derive(Debug, Clone, Copy, PartialEq, Eq, Structural)]
pub enum EditField {
    Text,
    ToggleCompleted,
}

/// An edit of one item: a new text, or the done flag flipped.
pub enum Edit {
    Text(String),
    ToggleCompleted,
}

/// The field that a typed choice names: `T` or `t` for the text, `C` or `c`
/// for the done flag.
pub open spec fn edit_field_of(choice: Seq<char>) -> Option<EditField> {
    match sole_char(choice) {
        Some(c) => if c == 'T' || c == 't' {
            Some(EditField::Text)
        } else if c == 'C' || c == 'c' {
            Some(EditField::ToggleCompleted)
        } else {
            None
        },
        None => None,
    }
}

/// The message of the error for a choice of field that is not on offer.
pub open spec fn invalid_field_message() -> Seq<char> {
    selection_message("Invalid Selection"@)
}

/// Reads which field of an item the user wants to edit.
pub fn parse_edit_field(choice: &str) -> (r: Result<EditField, ApplicationError>)
    ensures
        match edit_field_of(choice@) {
            Some(f) => r == Ok::<EditField, ApplicationError>(f),
            None => r matches Err(e) && e@ == invalid_field_message(),
        },
{
    match single_char(choice) {
        Some(c) => if c == 'T' || c == 't' {
            Ok(EditField::Text)
        } else if c == 'C' || c == 'c' {
            Ok(EditField::ToggleCompleted)
        } else {
            Err(ApplicationError::from(SelectionError(String::from_str("Invalid Selection"))))
        },
        None => Err(ApplicationError::from(SelectionError(String::from_str("Invalid Selection")))),
    }
}

/// The list with a new item of text `text`, not done, at its end.
pub open spec fn appended(l: Seq<TodoView>, text: Seq<char>) -> Seq<TodoView> {
    l.push(TodoView { text, completed: false })
}

/// The list with item `i` marked done.
pub open spec fn marked_done(l: Seq<TodoView>, i: int) -> Seq<TodoView> {
    l.update(i, TodoView { text: l[i].text, completed: true })
}

/// The list with the done flag of item `i` flipped.
pub open spec fn toggled(l: Seq<TodoView>, i: int) -> Seq<TodoView> {
    l.update(i, TodoView { text: l[i].text, completed: !l[i].completed })
}

/// The list with the text of item `i` replaced by `text`.
pub open spec fn retexted(l: Seq<TodoView>, i: int, text: Seq<char>) -> Seq<TodoView> {
    l.update(i, TodoView { text, completed: l[i].completed })
}

/// The list after removing item `i` by moving the last item into its place.
pub open spec fn swap_removed<A>(l: Seq<A>, i: int) -> Seq<A> {
    l.update(i, l.last()).drop_last()
}

/// The list after `edit` has been made to item `i`.
pub open spec fn edited(l: Seq<TodoView>, i: int, edit: Edit) -> Seq<TodoView> {
    match edit {
        Edit::Text(t) => retexted(l, i, t@),
        Edit::ToggleCompleted => toggled(l, i),
    }
}

/// Creating an item adds exactly one element, at the end: its text is the
/// given one, it is not done, and every earlier item stays where it was.
pub proof fn lemma_creation_appends(l: Seq<TodoView>, text: Seq<char>)
    ensures
        appended(l, text).len() == l.len() + 1,
        appended(l, text).last() == (TodoView { text, completed: false }),
        forall|j: int| 0 <= j < l.len() ==> #[trigger] appended(l, text)[j] == l[j],
{
}

/// Completing a valid position marks that item done and changes nothing
/// else: neither its text, nor any other item, nor the length.
pub proof fn lemma_completion_marks_one(l: Seq<TodoView>, i: int)
    requires
        0 <= i < l.len(),
    ensures
        marked_done(l, i).len() == l.len(),
        marked_done(l, i)[i].completed,
        marked_done(l, i)[i].text == l[i].text,
        forall|j: int| 0 <= j < l.len() && j != i ==> #[trigger] marked_done(l, i)[j] == l[j],
{
}

/// Deleting position `i` shortens the list by one; the last item moves into
/// position `i` unless `i` was the last position, every other item stays in
/// place, and what remains is exactly the old items less the removed one.
pub proof fn lemma_deletion_swaps_last_in(l: Seq<TodoView>, i: int)
    requires
        0 <= i < l.len(),
    ensures
        swap_removed(l, i).len() == l.len() - 1,
        i < l.len() - 1 ==> swap_removed(l, i)[i] == l.last(),
        forall|j: int|
            0 <= j < l.len() - 1 && j != i ==> #[trigger] swap_removed(l, i)[j] == l[j],
        swap_removed(l, i).to_multiset() == l.to_multiset().remove(l[i]),
{
    broadcast use {
        vstd::seq_lib::to_multiset_update,
        vstd::seq_lib::to_multiset_remove,
        vstd::multiset::group_multiset_axioms,
    };

    let u = l.update(i, l.last());
    assert(u.drop_last() == u.remove(u.len() - 1));
    assert(u[u.len() - 1] == l.last());
    assert(u.to_multiset() == l.to_multiset().insert(l.last()).remove(l[i]));
    assert(u.remove(u.len() - 1).to_multiset() == u.to_multiset().remove(l.last()));
    assert(swap_removed(l, i).to_multiset() =~= l.to_multiset().remove(l[i]));
}

/// A new text replaces the text of item `i` and keeps its done flag;
/// flipping the flag keeps its text. No other item and not the length
/// change either way.
pub proof fn lemma_edits_change_one_field(l: Seq<TodoView>, i: int, text: Seq<char>)
    requires
        0 <= i < l.len(),
    ensures
        retexted(l, i, text).len() == l.len(),
        retexted(l, i, text)[i].text == text,
        retexted(l, i, text)[i].completed == l[i].completed,
        toggled(l, i).len() == l.len(),
        toggled(l, i)[i].completed == !l[i].completed,
        toggled(l, i)[i].text == l[i].text,
        forall|j: int|
            0 <= j < l.len() && j != i ==> #[trigger] retexted(l, i, text)[j] == l[j]
                && toggled(l, i)[j] == l[j],
{
}

/// Appends a new item, not done, with the given text.
pub fn add_todo(todos: &mut Vec<Todo>, text: String)
    ensures
        final(todos)@.len() == old(todos)@.len() + 1,
        list_view(final(todos)@) == appended(list_view(old(todos)@), text@),
{
    let ghost t = text@;
    todos.push(Todo::new(text));
    assert(list_view(todos@) =~= appended(list_view(old(todos)@), t));
}

/// Marks done the item that the typed 1-based number picks; on a text that
/// is no number or a number out of range, fails and leaves the list as it was.
pub fn complete_selected(todos: &mut Vec<Todo>, input: &str) -> (r: Result<(), ApplicationError>)
    ensures
        match selected_position(input@, old(todos)@.len()) {
            Some(i) => r is Ok && list_view(final(todos)@) == marked_done(
                list_view(old(todos)@),
                i,
            ),
            None => r matches Err(e) && e@ == selection_failure(input@) && final(todos)@ == old(
                todos,
            )@,
        },
{
    let index = match select_index(input, todos.len()) {
        Ok(i) => i,
        Err(e) => return Err(e),
    };
    todos[index].completed = true;
    assert(list_view(todos@) =~= marked_done(list_view(old(todos)@), index as int));
    Ok(())
}

/// Removes the item that the typed 1-based number picks, moving the last item
/// into its place; on a text that is no number or a number out of range,
/// fails and leaves the list as it was.
pub fn delete_selected(todos: &mut Vec<Todo>, input: &str) -> (r: Result<(), ApplicationError>)
    ensures
        match selected_position(input@, old(todos)@.len()) {
            Some(i) => r is Ok && list_view(final(todos)@) == swap_removed(
                list_view(old(todos)@),
                i,
            ),
            None => r matches Err(e) && e@ == selection_failure(input@) && final(todos)@ == old(
                todos,
            )@,
        },
{
    let index = match select_index(input, todos.len()) {
        Ok(i) => i,
        Err(e) => return Err(e),
    };
    let _removed = todos.swap_remove(index);
    assert(list_view(todos@) =~= swap_removed(list_view(old(todos)@), index as int));
    Ok(())
}

/// Makes `edit` to the item at position `index`, counted from 0.
pub fn edit_at(todos: &mut Vec<Todo>, index: usize, edit: Edit)
    requires
        index < old(todos)@.len(),
    ensures
        final(todos)@.len() == old(todos)@.len(),
        list_view(final(todos)@) == edited(list_view(old(todos)@), index as int, edit),
{
    let ghost e = edit;
    match edit {
        Edit::Text(t) => {
            todos[index].text = t;
        },
        Edit::ToggleCompleted => {
            todos[index].completed = !todos[index].completed;
        },
    }
    assert(list_view(todos@) =~= edited(list_view(old(todos)@), index as int, e));
}

/// Toggling the same item twice gives back the list.
pub proof fn lemma_toggle_twice_restores(l: Seq<TodoView>, i: int)
    requires
        0 <= i < l.len(),
    ensures
        toggled(toggled(l, i), i) == l,
{
    assert(toggled(toggled(l, i), i) =~= l);
}

/// What an interactive operation does, given the list before it and the
/// outcomes of the reads it made: the list after it, its result (an error
/// by its message), how many lines it read and all the text it showed.
pub struct Effect {
    pub after: Seq<TodoView>,
    pub result: Result<(), Seq<char>>,
    pub reads: nat,
    pub shown: Seq<char>,
}

/// A result, with an error given by its message.
pub open spec fn result_view(r: Result<(), ApplicationError>) -> Result<(), Seq<char>> {
    match r {
        Ok(_) => Ok(()),
        Err(e) => Err(e@),
    }
}

/// The outcomes of the reads made through a screen between two of its states.
pub open spec fn reads_since<T: Terminal>(s0: Screen<T>, s1: Screen<T>) -> Seq<ReadOutcome> {
    s1.reads().subrange(s0.reads().len() as int, s1.reads().len() as int)
}

/// Going from screen `s0` to `s1`, an operation made exactly the reads that
/// `e` counts, showed exactly what `e` shows and left the list `after`.
pub open spec fn performed<T: Terminal>(
    e: Effect,
    s0: Screen<T>,
    s1: Screen<T>,
    after: Seq<TodoView>,
) -> bool {
    &&& s0.reads().is_prefix_of(s1.reads())
    &&& s1.reads().len() == s0.reads().len() + e.reads
    &&& s1.shown() == s0.shown() + e.shown
    &&& after == e.after
}

/// An operation that stops with the error `message`, the list unchanged,
/// after `reads` reads and having shown `shown`.
pub open spec fn failure(
    before: Seq<TodoView>,
    message: Seq<char>,
    reads: nat,
    shown: Seq<char>,
) -> Effect {
    Effect { after: before, result: Err(message), reads, shown }
}

/// Listing: show the list, then read one line; the result is that of the read.
pub open spec fn list_effect(before: Seq<TodoView>, rs: Seq<ReadOutcome>) -> Effect {
    match rs[0] {
        Ok(_) => Effect { after: before, result: Ok(()), reads: 1, shown: listing_text(before) },
        Err(m) => failure(before, m, 1, listing_text(before)),
    }
}

/// Creating: ask for a text and append it.
pub open spec fn create_effect(before: Seq<TodoView>, rs: Seq<ReadOutcome>) -> Effect {
    let prompt = "Enter new TODO: "@;
    match rs[0] {
        Ok(t) => Effect {
            after: appended(before, t),
            result: Ok(()),
            reads: 1,
            shown: prompt + "Successfully added new todo!\n"@,
        },
        Err(m) => failure(before, m, 1, prompt),
    }
}

/// Completing: show the numbered list, read a number, mark that item done.
pub open spec fn complete_effect(before: Seq<TodoView>, rs: Seq<ReadOutcome>) -> Effect {
    let prompt = numbered_listing_text(before) + "Enter TODO to complete: "@;
    match rs[0] {
        Ok(line) => match selected_position(line, before.len()) {
            Some(i) => Effect {
                after: marked_done(before, i),
                result: Ok(()),
                reads: 1,
                shown: prompt + "Successfully marked TODO as completed.\n"@,
            },
            None => failure(before, selection_failure(line), 1, prompt),
        },
        Err(m) => failure(before, m, 1, prompt),
    }
}

/// Deleting: show the numbered list, read a number, remove that item.
pub open spec fn delete_effect(before: Seq<TodoView>, rs: Seq<ReadOutcome>) -> Effect {
    let prompt = numbered_listing_text(before) + "Enter TODO to delete: "@;
    match rs[0] {
        Ok(line) => match selected_position(line, before.len()) {
            Some(i) => Effect {
                after: swap_removed(before, i),
                result: Ok(()),
                reads: 1,
                shown: prompt + "Successfully delete TODO.\n"@,
            },
            None => failure(before, selection_failure(line), 1, prompt),
        },
        Err(m) => failure(before, m, 1, prompt),
    }
}

/// Editing: show the numbered list and read a number; stop there if it picks
/// nothing. Else read the field; stop there if it is not on offer. A toggle
/// is made at once; for a new text, show the current one and read the new.
pub open spec fn edit_effect(before: Seq<TodoView>, rs: Seq<ReadOutcome>) -> Effect {
    let prompt = numbered_listing_text(before) + "Enter TODO to edit: "@;
    match rs[0] {
        Err(m) => failure(before, m, 1, prompt),
        Ok(n) => match selected_position(n, before.len()) {
            None => failure(before, selection_failure(n), 1, prompt),
            Some(i) => {
                let asked = prompt
                    + "Would you like to edit the [T]ext or toggle the [C]ompleted state? "@;
                match rs[1] {
                    Err(m) => failure(before, m, 2, asked),
                    Ok(c) => match edit_field_of(c) {
                        None => failure(before, invalid_field_message(), 2, asked),
                        Some(EditField::ToggleCompleted) => Effect {
                            after: toggled(before, i),
                            result: Ok(()),
                            reads: 2,
                            shown: asked + "Successfully toggled completed state. New state: "@
                                + bool_text(!before[i].completed) + "\n"@,
                        },
                        Some(EditField::Text) => {
                            let text_asked = asked + "Current text: "@ + before[i].text + "\n"@
                                + "Enter new text: "@;
                            match rs[2] {
                                Err(m) => failure(before, m, 3, text_asked),
                                Ok(t) => Effect {
                                    after: retexted(before, i, t),
                                    result: Ok(()),
                                    reads: 3,
                                    shown: text_asked + "Successfully updated TODO. New text: "@
                                        + t + "\n"@,
                                },
                            }
                        },
                    },
                }
            },
        },
    }
}

/// Shows the list, then waits until the user presses enter. Fails with the
/// read's error where no line could be read.
pub fn list_todos<T: Terminal>(todos: &Vec<Todo>, screen: &mut Screen<T>) -> (r: Result<
    (),
    ApplicationError,
>)
    ensures
        performed(
            list_effect(list_view(todos@), reads_since(*old(screen), *final(screen))),
            *old(screen),
            *final(screen),
            list_view(todos@),
        ),
        result_view(r) == list_effect(
            list_view(todos@),
            reads_since(*old(screen), *final(screen)),
        ).result,
{
    let text = listing(todos);
    screen.write(text.as_str());
    let read = screen.read_line();
    assert(reads_since(*old(screen), *screen) =~= seq![read_outcome(read)]);
    match read {
        Ok(_) => Ok(()),
        Err(e) => Err(e),
    }
}

/// Asks for a text and appends it as a new item, not done. Fails with the
/// read's error, the list as it was, where no line could be read.
pub fn create_todo<T: Terminal>(todos: &mut Vec<Todo>, screen: &mut Screen<T>) -> (r: Result<
    (),
    ApplicationError,
>)
    ensures
        performed(
            create_effect(list_view(old(todos)@), reads_since(*old(screen), *final(screen))),
            *old(screen),
            *final(screen),
            list_view(final(todos)@),
        ),
        result_view(r) == create_effect(
            list_view(old(todos)@),
            reads_since(*old(screen), *final(screen)),
        ).result,
        r is Err ==> final(todos)@ == old(todos)@,
{
    screen.write("Enter new TODO: ");
    let read = screen.read_line();
    assert(reads_since(*old(screen), *screen) =~= seq![read_outcome(read)]);
    let input = match read {
        Ok(line) => line,
        Err(e) => return Err(e),
    };
    add_todo(todos, input);
    screen.write("Successfully added new todo!\n");
    screen.pause();
    assert(screen.shown() =~= old(screen).shown() + ("Enter new TODO: "@
        + "Successfully added new todo!\n"@));
    Ok(())
}

/// Shows the numbered list, asks for a number and marks that item done.
/// Fails, with the list as it was, with the read's error where no line could
/// be read, and with the selection error where the line picks no item.
pub fn complete_todo<T: Terminal>(todos: &mut Vec<Todo>, screen: &mut Screen<T>) -> (r: Result<
    (),
    ApplicationError,
>)
    ensures
        performed(
            complete_effect(list_view(old(todos)@), reads_since(*old(screen), *final(screen))),
            *old(screen),
            *final(screen),
            list_view(final(todos)@),
        ),
        result_view(r) == complete_effect(
            list_view(old(todos)@),
            reads_since(*old(screen), *final(screen)),
        ).result,
        r is Err ==> final(todos)@ == old(todos)@,
{
    let text = numbered_listing(todos);
    screen.write(text.as_str());
    screen.write("Enter TODO to complete: ");
    let ghost prompt = numbered_listing_text(list_view(old(todos)@)) + "Enter TODO to complete: "@;
    assert(screen.shown() =~= old(screen).shown() + prompt);
    let read = screen.read_line();
    assert(reads_since(*old(screen), *screen) =~= seq![read_outcome(read)]);
    let input = match read {
        Ok(line) => line,
        Err(e) => return Err(e),
    };
    match complete_selected(todos, input.as_str()) {
        Ok(()) => {
            screen.write("Successfully marked TODO as completed.\n");
            screen.pause();
            assert(screen.shown() =~= old(screen).shown() + (prompt + "Successfully marked TODO as completed.\n"@));
            Ok(())
        },
        Err(e) => Err(e),
    }
}

/// Shows the numbered list, asks for a number and removes that item, the
/// last item taking its place. Fails, with the list as it was, with the
/// read's error where no line could be read, and with the selection error
/// where the line picks no item.
pub fn delete_todo<T: Terminal>(todos: &mut Vec<Todo>, screen: &mut Screen<T>) -> (r: Result<
    (),
    ApplicationError,
>)
    ensures
        performed(
            delete_effect(list_view(old(todos)@), reads_since(*old(screen), *final(screen))),
            *old(screen),
            *final(screen),
            list_view(final(todos)@),
        ),
        result_view(r) == delete_effect(
            list_view(old(todos)@),
            reads_since(*old(screen), *final(screen)),
        ).result,
        r is Err ==> final(todos)@ == old(todos)@,
{
    let text = numbered_listing(todos);
    screen.write(text.as_str());
    screen.write("Enter TODO to delete: ");
    let ghost prompt = numbered_listing_text(list_view(old(todos)@)) + "Enter TODO to delete: "@;
    assert(screen.shown() =~= old(screen).shown() + prompt);
    let read = screen.read_line();
    assert(reads_since(*old(screen), *screen) =~= seq![read_outcome(read)]);
    let input = match read {
        Ok(line) => line,
        Err(e) => return Err(e),
    };
    match delete_selected(todos, input.as_str()) {
        Ok(()) => {
            screen.write("Successfully delete TODO.\n");
            screen.pause();
            assert(screen.shown() =~= old(screen).shown() + (prompt + "Successfully delete TODO.\n"@));
            Ok(())
        },
        Err(e) => Err(e),
    }
}

/// Shows the numbered list, asks for a number, then whether to change the
/// text (and for the new text) or to flip the done flag, and makes that
/// edit. Fails, with the list as it was, with the read's error where a line
/// could not be read, with the selection error where the number picks no
/// item, and with the invalid-field error where the field is not on offer;
/// no further line is read after a failure.
pub fn edit_todo<T: Terminal>(todos: &mut Vec<Todo>, screen: &mut Screen<T>) -> (r: Result<
    (),
    ApplicationError,
>)
    ensures
        performed(
            edit_effect(list_view(old(todos)@), reads_since(*old(screen), *final(screen))),
            *old(screen),
            *final(screen),
            list_view(final(todos)@),
        ),
        result_view(r) == edit_effect(
            list_view(old(todos)@),
            reads_since(*old(screen), *final(screen)),
        ).result,
        r is Err ==> final(todos)@ == old(todos)@,
{
    let text = numbered_listing(todos);
    screen.write(text.as_str());
    screen.write("Enter TODO to edit: ");
    let ghost before = list_view(old(todos)@);
    let ghost prompt = numbered_listing_text(before) + "Enter TODO to edit: "@;
    assert(screen.shown() =~= old(screen).shown() + prompt);
    let read = screen.read_line();
    let ghost first = read_outcome(read);
    assert(reads_since(*old(screen), *screen) =~= seq![first]);
    let input = match read {
        Ok(line) => line,
        Err(e) => return Err(e),
    };
    let index = match select_index(input.as_str(), todos.len()) {
        Ok(i) => i,
        Err(e) => return Err(e),
    };
    screen.write("Would you like to edit the [T]ext or toggle the [C]ompleted state? ");
    let ghost asked = prompt
        + "Would you like to edit the [T]ext or toggle the [C]ompleted state? "@;
    assert(screen.shown() =~= old(screen).shown() + asked);
    let read = screen.read_line();
    let ghost second = read_outcome(read);
    assert(reads_since(*old(screen), *screen) =~= seq![first, second]);
    let choice = match read {
        Ok(line) => line,
        Err(e) => return Err(e),
    };
    let field = match parse_edit_field(choice.as_str()) {
        Ok(f) => f,
        Err(e) => return Err(e),
    };
    match field {
        EditField::Text => {
            let current = String::from_str("Current text: ").concat(todos[index].text.as_str());
            screen.write(current.concat("\n").as_str());
            screen.write("Enter new text: ");
            let ghost text_asked = asked + "Current text: "@ + before[index as int].text + "\n"@
                + "Enter new text: "@;
            assert(before[index as int].text == todos@[index as int].text@);
            assert(screen.shown() =~= old(screen).shown() + text_asked);
            let read = screen.read_line();
            let ghost third = read_outcome(read);
            assert(reads_since(*old(screen), *screen) =~= seq![first, second, third]);
            let text = match read {
                Ok(line) => line,
                Err(e) => return Err(e),
            };
            let ghost t = text@;
            edit_at(todos, index, Edit::Text(text));
            assert(todos@[index as int].text@ == t) by {
                assert(list_view(todos@)[index as int] == todos@[index as int]@);
            }
            let done = String::from_str("Successfully updated TODO. New text: ").concat(
                todos[index].text.as_str(),
            );
            screen.write(done.concat("\n").as_str());
            assert(screen.shown() =~= old(screen).shown() + (text_asked
                + "Successfully updated TODO. New text: "@ + t + "\n"@));
        },
        EditField::ToggleCompleted => {
            edit_at(todos, index, Edit::ToggleCompleted);
            assert(todos@[index as int].completed == !before[index as int].completed) by {
                assert(list_view(todos@)[index as int] == todos@[index as int]@);
            }
            let done = String::from_str("Successfully toggled completed state. New state: ").concat(
                bool_string(todos[index].completed).as_str(),
            );
            screen.write(done.concat("\n").as_str());
            assert(screen.shown() =~= old(screen).shown() + (asked
                + "Successfully toggled completed state. New state: "@ + bool_text(
                !before[index as int].completed,
            ) + "\n"@));
        },
    }
    screen.pause();
    Ok(())
}

/// What a menu choice does: that of its operation; `Exit` reads and shows
/// nothing; an invalid choice reads nothing and fails.
pub open spec fn action_effect(action: Action, before: Seq<TodoView>, rs: Seq<ReadOutcome>) -> Effect {
    match action {
        Action::Create => create_effect(before, rs),
        Action::Edit => edit_effect(before, rs),
        Action::Delete => delete_effect(before, rs),
        Action::List => list_effect(before, rs),
        Action::Complete => complete_effect(before, rs),
        Action::Exit => Effect { after: before, result: Ok(()), reads: 0, shown: Seq::empty() },
        Action::Invalid => failure(before, invalid_field_message(), 0, Seq::empty()),
    }
}

/// What is shown after an operation with the given result: nothing after a
/// success, the error's message and a line end after a failure.
pub open spec fn report_text(result: Result<(), Seq<char>>) -> Seq<char> {
    match result {
        Ok(_) => Seq::empty(),
        Err(m) => application_message(m) + "\n"@,
    }
}

/// Carries out one menu choice as `action_effect` says, then shows the
/// error, if any, followed by a pause. `Exit` raises `exit_app`.
pub fn execute_action<T: Terminal>(
    exit_app: &mut bool,
    todos: &mut Vec<Todo>,
    screen: &mut Screen<T>,
    action: Action,
)
    ensures
        *final(exit_app) == (*old(exit_app) || action == Action::Exit),
        ({
            let e = action_effect(
                action,
                list_view(old(todos)@),
                reads_since(*old(screen), *final(screen)),
            );
            &&& old(screen).reads().is_prefix_of(final(screen).reads())
            &&& final(screen).reads().len() == old(screen).reads().len() + e.reads
            &&& final(screen).shown() == old(screen).shown() + e.shown + report_text(e.result)
            &&& list_view(final(todos)@) == e.after
        }),
        (action == Action::List || action == Action::Exit || action == Action::Invalid)
            ==> final(todos)@ == old(todos)@,
{
    let outcome = match action {
        Action::Create => create_todo(todos, screen),
        Action::Edit => edit_todo(todos, screen),
        Action::Delete => delete_todo(todos, screen),
        Action::List => list_todos(todos, screen),
        Action::Complete => complete_todo(todos, screen),
        Action::Exit => {
            *exit_app = true;
            Ok(())
        },
        Action::Invalid => Err(
            ApplicationError::from(SelectionError(String::from_str("Invalid Selection"))),
        ),
    };
    if let Err(err) = outcome {
        let report = err.to_string();
        screen.write(report.concat("\n").as_str());
        screen.pause();
    }
}

} // verus!
