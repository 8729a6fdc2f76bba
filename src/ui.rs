use vstd::prelude::*;

use crate::app::{TodoApp, TodoError};
use crate::todo::Todo;

verus! {

/// What keys do in the interactive front end.
#[derive(Debug, Clone, Copy, PartialEq, Eq)]
pub enum Mode {
    /// Browse the list and run shortcuts.
    Normal,
    /// Type a new task into the input buffer.
    Adding,
}

/// A key press, as the front end reports it.
#[derive(Debug, Clone, Copy, PartialEq, Eq)]
pub enum Key {
    /// A printable character.
    Char(char),
    Up,
    Down,
    Delete,
    Enter,
    Esc,
    Backspace,
    /// Any key the front end does not act on.
    Other,
}

/// The last thing that happened, shown on the status line.
#[derive(Debug)]
pub enum Status {
    /// Nothing happened yet.
    Ready,
    /// The input buffer was opened.
    AddPrompt,
    /// Holds the task that `Enter` queued.
    Added(Todo),
    /// Adding was cancelled.
    AddCancelled,
    /// `Enter` on blank input: no task queued.
    EmptyDescription,
    /// Holds the oldest task, now completed.
    Completed(Todo),
    /// There was no task to complete.
    NothingToComplete,
    /// Holds the task removed from the selected row.
    Deleted(Todo),
    /// No task stood at the selection, so nothing was deleted.
    NoSelection,
}

/// The front end's state between key presses.
#[derive(Debug)]
pub struct UiState {
    pub mode: Mode,
    /// What was typed so far in `Adding` mode.
    pub input: String,
    pub status: Status,
    /// The highlighted row, if any.
    pub selected: Option<usize>,
}

/// The text of `s` without leading and trailing whitespace, as `str::trim`
/// gives it.
pub uninterp spec fn trimmed(s: Seq<char>) -> Seq<char>;

/// Relies on `str::trim`: the result depends on the characters alone.
#[verifier::external_body]
fn trim(s: &str) -> (r: &str)
    ensures
        r@ == trimmed(s@),
{
    s.trim()
}

/// Relies on `String::push`: appends `c`.
#[verifier::external_body]
fn push_char(s: &mut String, c: char)
    ensures
        final(s)@ == old(s)@.push(c),
{
    s.push(c)
}

/// Relies on `String::pop`: removes the last character, if there is one.
#[verifier::external_body]
fn pop_char(s: &mut String) -> (r: Option<char>)
    ensures
        old(s)@.len() == 0 ==> r is None && final(s)@ == old(s)@,
        old(s)@.len() > 0 ==> r == Some(old(s)@.last()) && final(s)@ == old(s)@.drop_last(),
{
    s.pop()
}

/// `x - 1`, or 0 where that would underflow.
pub open spec fn saturating_dec(x: usize) -> usize {
    if x == 0 {
        0
    } else {
        (x - 1) as usize
    }
}

/// `x + 1`, or `x` where that would overflow.
pub open spec fn saturating_inc_usize(x: usize) -> usize {
    if x == usize::MAX {
        x
    } else {
        (x + 1) as usize
    }
}

/// The selection kept inside a list of `len` rows: none for an empty list,
/// otherwise the selected row (the first when none is) moved onto the last
/// row when it lies past it.
pub open spec fn clamped(selected: Option<usize>, len: usize) -> Option<usize> {
    if len == 0 {
        None
    } else {
        let current = match selected {
            Some(i) => i,
            None => 0,
        };
        if current < len {
            Some(current)
        } else {
            Some((len - 1) as usize)
        }
    }
}

/// Keeps `selected` inside a list of `len` rows.
pub fn clamp_selection(selected: Option<usize>, len: usize) -> (r: Option<usize>)
    ensures
        r == clamped(selected, len),
{
    if len == 0 {
        // Nothing to highlight in an empty list.
        return None;
    }
    let current = match selected {
        Some(i) => i,
        None => 0,
    };
    let max_index = len - 1;
    if current < max_index {
        Some(current)
    } else {
        Some(max_index)
    }
}

impl UiState {
    /// Normal mode, nothing typed, nothing selected.
    pub fn new() -> (s: UiState)
        ensures
            s.mode == Mode::Normal,
            s.input@.len() == 0,
            s.status is Ready,
            s.selected is None,
    {
        UiState { mode: Mode::Normal, input: String::new(), status: Status::Ready, selected: None }
    }
}

/// The key quits the front end.
pub open spec fn quits(k: Key) -> bool {
    k == Key::Char('q')
}

/// The key opens the input buffer.
pub open spec fn starts_adding(k: Key) -> bool {
    k == Key::Char('a')
}

/// The key completes the oldest task.
pub open spec fn completes(k: Key) -> bool {
    k == Key::Char('d')
}

/// The key deletes the selected task.
pub open spec fn deletes(k: Key) -> bool {
    k == Key::Delete || k == Key::Char('x')
}

/// The key moves the selection up.
pub open spec fn moves_up(k: Key) -> bool {
    k == Key::Up || k == Key::Char('k')
}

/// The key moves the selection down.
pub open spec fn moves_down(k: Key) -> bool {
    k == Key::Down || k == Key::Char('j')
}

/// The row the selection stands on, the first when there is none.
pub open spec fn current_row(selected: Option<usize>) -> usize {
    match selected {
        Some(i) => i,
        None => 0,
    }
}

/// Only the status line of `after` may differ from `before`.
pub open spec fn same_but_status(before: UiState, after: UiState) -> bool {
    &&& after.mode == before.mode
    &&& after.input == before.input
    &&& after.selected == before.selected
}

/// Only the selection of `after` may differ from `before`.
pub open spec fn same_but_selection(before: UiState, after: UiState) -> bool {
    &&& after.mode == before.mode
    &&& after.input == before.input
    &&& after.status == before.status
}

/// The input buffer of `after` is closed, empty and back in normal mode,
/// with the selection of `before`.
pub open spec fn input_closed(before: UiState, after: UiState) -> bool {
    &&& after.mode == Mode::Normal
    &&& after.input@.len() == 0
    &&& after.selected == before.selected
}

/// What committing the typed text `value` did, from state `s0` and service
/// `a0` to `s1` and `a1`, returning `r`: empty text is refused with a
/// message; otherwise a task with that text was added and persisted, and on
/// success the status shows it. Either way a success closes the input; a
/// failure leaves the front end as it was.
pub open spec fn commits(
    value: Seq<char>,
    s0: UiState,
    a0: TodoApp,
    s1: UiState,
    a1: TodoApp,
    r: Result<(), TodoError>,
) -> bool {
    if value.len() == 0 {
        &&& r is Ok
        &&& a1 == a0
        &&& input_closed(s0, s1)
        &&& s1.status is EmptyDescription
    } else {
        &&& a1.tasks().len() == a0.tasks().len() + 1
        &&& a1.tasks().drop_last() == a0.tasks()
        &&& a1.tasks().last().id == a0.next_id()
        &&& a1.tasks().last().description@ == value
        &&& a1.next_id() == crate::app::saturating_inc(a0.next_id())
        &&& a1.persisted(a0.snapshot_bytes(), r is Ok)
        &&& r is Ok ==> input_closed(s0, s1) && s1.status == Status::Added(a1.tasks().last())
        &&& r is Err ==> s1 == s0
    }
}

/// Adds the typed text `value` as a task, or refuses it when it is empty.
pub fn commit_input(value: &str, state: &mut UiState, app: &mut TodoApp) -> (r: Result<
    (),
    TodoError,
>)
    requires
        old(app).wf(),
    ensures
        final(app).wf(),
        commits(value@, *old(state), *old(app), *final(state), *final(app), r),
{
    if value.is_empty() {
        state.status = Status::EmptyDescription;
    } else {
        // Commit the typed value into the queue and its snapshot.
        let todo = match app.add_task(value.to_owned()) {
            Ok(todo) => todo,
            Err(e) => {
                return Err(e);
            },
        };
        state.status = Status::Added(todo);
    }
    state.input = String::new();
    state.mode = Mode::Normal;
    Ok(())
}

/// Handles a key in normal mode: quits, opens the input buffer, completes
/// the oldest task, deletes the selected one, or moves the selection.
/// Returns whether to quit.
pub fn handle_normal_mode(key: Key, state: &mut UiState, app: &mut TodoApp) -> (r: Result<
    bool,
    TodoError,
>)
    requires
        old(app).wf(),
    ensures
        final(app).wf(),
        r matches Ok(quit) ==> quit == quits(key),
        !completes(key) && !deletes(key) ==> r is Ok && *final(app) == *old(app),
        quits(key) ==> *final(state) == *old(state),
        starts_adding(key) ==> {
            &&& final(state).mode == Mode::Adding
            &&& final(state).input@.len() == 0
            &&& final(state).status is AddPrompt
            &&& final(state).selected == old(state).selected
        },
        completes(key) ==> {
            &&& same_but_status(*old(state), *final(state))
            &&& final(app).next_id() == old(app).next_id()
            &&& final(app).persisted(old(app).snapshot_bytes(), r is Ok)
            &&& old(app).tasks().len() == 0 ==> {
                &&& final(app).tasks() == old(app).tasks()
                &&& r is Ok ==> final(state).status is NothingToComplete
            }
            &&& old(app).tasks().len() > 0 ==> {
                &&& final(app).tasks() == old(app).tasks().drop_first()
                &&& r is Ok ==> final(state).status == Status::Completed(old(app).tasks()[0])
            }
        },
        deletes(key) ==> same_but_status(*old(state), *final(state)) && match old(state).selected {
            None => r is Ok && *final(app) == *old(app) && final(state).status is NoSelection,
            Some(i) => {
                &&& final(app).next_id() == old(app).next_id()
                &&& final(app).persisted(old(app).snapshot_bytes(), r is Ok)
                &&& i >= old(app).tasks().len() ==> {
                    &&& final(app).tasks() == old(app).tasks()
                    &&& r is Ok ==> final(state).status is NoSelection
                }
                &&& i < old(app).tasks().len() ==> {
                    &&& final(app).tasks() == old(app).tasks().remove(i as int)
                    &&& r is Ok ==> final(state).status == Status::Deleted(
                        old(app).tasks()[i as int],
                    )
                }
            },
        },
        moves_up(key) ==> same_but_selection(*old(state), *final(state)) && final(state).selected
            == Some(saturating_dec(current_row(old(state).selected))),
        moves_down(key) ==> same_but_selection(*old(state), *final(state)) && final(state).selected
            == Some(saturating_inc_usize(current_row(old(state).selected))),
        !quits(key) && !starts_adding(key) && !completes(key) && !deletes(key) && !moves_up(key)
            && !moves_down(key) ==> *final(state) == *old(state),
{
    match key {
        Key::Char('q') => {
            return Ok(true);
        },
        Key::Char('a') => {
            state.mode = Mode::Adding;
            state.input = String::new();
            state.status = Status::AddPrompt;
        },
        Key::Char('d') => {
            match app.complete_next() {
                Ok(Some(todo)) => {
                    state.status = Status::Completed(todo);
                },
                Ok(None) => {
                    state.status = Status::NothingToComplete;
                },
                Err(e) => {
                    return Err(e);
                },
            }
        },
        Key::Delete | Key::Char('x') => {
            // Delete the highlighted row by its position in the queue.
            match state.selected {
                Some(index) => match app.delete_at(index) {
                    Ok(Some(todo)) => {
                        state.status = Status::Deleted(todo);
                    },
                    Ok(None) => {
                        state.status = Status::NoSelection;
                    },
                    Err(e) => {
                        return Err(e);
                    },
                },
                None => {
                    state.status = Status::NoSelection;
                },
            }
        },
        Key::Up | Key::Char('k') => {
            let current = match state.selected {
                Some(i) => i,
                None => 0,
            };
            state.selected = Some(current.saturating_sub(1));
        },
        Key::Down | Key::Char('j') => {
            let current = match state.selected {
                Some(i) => i,
                None => 0,
            };
            state.selected = Some(current.saturating_add(1));
        },
        _ => {},
    }
    Ok(false)
}

/// Handles a key in adding mode: Esc cancels, Enter commits the trimmed
/// text, Backspace removes the last character, and a character is typed.
pub fn handle_add_mode(key: Key, state: &mut UiState, app: &mut TodoApp) -> (r: Result<
    (),
    TodoError,
>)
    requires
        old(app).wf(),
    ensures
        final(app).wf(),
        key != Key::Enter ==> r is Ok && *final(app) == *old(app),
        key == Key::Esc ==> {
            &&& input_closed(*old(state), *final(state))
            &&& final(state).status is AddCancelled
        },
        key == Key::Enter ==> commits(
            trimmed(old(state).input@),
            *old(state),
            *old(app),
            *final(state),
            *final(app),
            r,
        ),
        key == Key::Backspace ==> {
            &&& final(state).mode == old(state).mode
            &&& final(state).status == old(state).status
            &&& final(state).selected == old(state).selected
            &&& old(state).input@.len() == 0 ==> final(state).input@ == old(state).input@
            &&& old(state).input@.len() > 0 ==> final(state).input@ == old(state).input@.drop_last()
        },
        key matches Key::Char(c) ==> {
            &&& final(state).mode == old(state).mode
            &&& final(state).status == old(state).status
            &&& final(state).selected == old(state).selected
            &&& final(state).input@ == old(state).input@.push(c)
        },
        !(key is Esc || key is Enter || key is Backspace || key is Char) ==> *final(state) == *old(
            state,
        ),
{
    match key {
        Key::Esc => {
            state.mode = Mode::Normal;
            state.input = String::new();
            state.status = Status::AddCancelled;
            Ok(())
        },
        Key::Enter => {
            let value = trim(state.input.as_str()).to_owned();
            commit_input(value.as_str(), state, app)
        },
        Key::Backspace => {
            pop_char(&mut state.input);
            Ok(())
        },
        Key::Char(ch) => {
            push_char(&mut state.input, ch);
            Ok(())
        },
        _ => Ok(()),
    }
}

} // verus!
