//! What each note-window command does to the windows that are open.
//!
//! The host runtime owns the windows; these functions see the labels of the
//! open ones and decide which window a command acts on, or that it leaves
//! everything as it is.

use vstd::prelude::*;

use crate::label::{
    has_prefix, label_accepts_either_form, label_of, note_label, note_prefix, prefixed_label,
};

verus! {

/// The event sent to every window when a window is destroyed; its payload's
/// `id` is the full label of that window.
pub const CLOSED_EVENT: &'static str = "note:closed";

/// The labels of the windows in `open`.
pub open spec fn open_labels(open: Seq<String>) -> Set<Seq<char>> {
    Set::new(|l: Seq<char>| exists|i: int| 0 <= i < open.len() && open[i]@ == l)
}

/// Whether a window labelled `label` is among `open`.
pub fn is_open(open: &Vec<String>, label: &String) -> (r: bool)
    ensures
        r == open_labels(open@).contains(label@),
{
    let mut i: usize = 0;
    while i < open.len()
        invariant
            i <= open@.len(),
            forall|k: int| 0 <= k < i ==> open@[k]@ != label@,
        decreases open@.len() - i,
    {
        if open[i].eq(label) {
            return true;
        }
        i = i + 1;
    }
    false
}

/// The window that create-window builds for `id`: none when its window is
/// already open.
pub open spec fn spawn_target(id: Seq<char>, open: Set<Seq<char>>) -> Option<Seq<char>> {
    if open.contains(label_of(id)) {
        None
    } else {
        Some(label_of(id))
    }
}

/// The window that focus-window or close-window acts on for `id`: none when
/// no such window is open.
pub open spec fn open_target(id: Seq<char>, open: Set<Seq<char>>) -> Option<Seq<char>> {
    if open.contains(label_of(id)) {
        Some(label_of(id))
    } else {
        None
    }
}

/// The open windows after the window `built`, if any, was created.
pub open spec fn after_create(open: Set<Seq<char>>, built: Option<Seq<char>>) -> Set<Seq<char>> {
    match built {
        Some(l) => open.insert(l),
        None => open,
    }
}

/// The open windows after the window `closed`, if any, was closed.
pub open spec fn after_close(open: Set<Seq<char>>, closed: Option<Seq<char>>) -> Set<Seq<char>> {
    match closed {
        Some(l) => open.remove(l),
        None => open,
    }
}

/// The message of a position or size change whose window is not open.
pub open spec fn missing_window_message(label: Seq<char>) -> Seq<char> {
    "Window "@ + label + " not found"@
}

/// Decides create-window for `id`: the label of the note window to build, or
/// `None` when that window is already open and nothing is to be done.
pub fn spawn_note_window(id: &str, open: &Vec<String>) -> (r: Option<String>)
    ensures
        r.deep_view() == spawn_target(id@, open_labels(open@)),
{
    let label = note_label(id);
    if is_open(open, &label) {
        None
    } else {
        Some(label)
    }
}

/// Decides focus-window for `id`: the label of the window to bring to the
/// foreground, or `None` when it is not open, which is no error.
pub fn focus_note_window(id: &str, open: &Vec<String>) -> (r: Option<String>)
    ensures
        r.deep_view() == open_target(id@, open_labels(open@)),
{
    let label = note_label(id);
    if is_open(open, &label) {
        Some(label)
    } else {
        None
    }
}

/// Decides close-window for `id`: the label of the window to close, or
/// `None` when it is not open, which is no error.
pub fn close_note_window(id: &str, open: &Vec<String>) -> (r: Option<String>)
    ensures
        r.deep_view() == open_target(id@, open_labels(open@)),
{
    let label = note_label(id);
    if is_open(open, &label) {
        Some(label)
    } else {
        None
    }
}

/// The message for a missing window labelled `label`.
fn missing_window(label: &String) -> (r: String)
    ensures
        r@ == missing_window_message(label@),
{
    String::from_str("Window ").concat(label.as_str()).concat(" not found")
}

/// The characters of a result whose value and error are both text.
pub open spec fn text_result(r: Result<String, String>) -> Result<Seq<char>, Seq<char>> {
    match r {
        Ok(v) => Ok(v@),
        Err(e) => Err(e@),
    }
}

/// The window that set-position moves for `id`, or the message when it is
/// not open.
pub open spec fn position_target(id: Seq<char>, open: Set<Seq<char>>) -> Result<
    Seq<char>,
    Seq<char>,
> {
    if open.contains(label_of(id)) {
        Ok(label_of(id))
    } else {
        Err(missing_window_message(label_of(id)))
    }
}

/// Decides set-position for `id`: the label of the window to move, or the
/// error `Window <label> not found` when it is not open.
pub fn set_note_position(id: &str, open: &Vec<String>) -> (r: Result<String, String>)
    ensures
        text_result(r) == position_target(id@, open_labels(open@)),
{
    let label = note_label(id);
    if is_open(open, &label) {
        Ok(label)
    } else {
        Err(missing_window(&label))
    }
}

/// The message of a move-and-resize whose window is not open.
pub open spec fn window_not_found() -> Seq<char> {
    "Window not found"@
}

/// The window that move-and-resize acts on for the bare identifier `id`, or
/// the message when it is not open.
pub open spec fn resize_target(id: Seq<char>, open: Set<Seq<char>>) -> Result<
    Seq<char>,
    Seq<char>,
> {
    if open.contains(note_prefix() + id) {
        Ok(note_prefix() + id)
    } else {
        Err(window_not_found())
    }
}

/// Decides move-and-resize for `id`, which is always the bare identifier: the
/// label of the window to move and resize, or the error `Window not found`.
pub fn resize_move_note_window(id: &str, open: &Vec<String>) -> (r: Result<String, String>)
    ensures
        text_result(r) == resize_target(id@, open_labels(open@)),
{
    let label = prefixed_label(id);
    if is_open(open, &label) {
        Ok(label)
    } else {
        Err(String::from_str("Window not found"))
    }
}

/// Creating a note's window twice does no more than creating it once: after
/// the first call its window is open, and the second call builds nothing and
/// leaves the open windows as they are. When the window was open before, the
/// first call already builds nothing.
pub proof fn create_window_is_idempotent(id: Seq<char>, open: Set<Seq<char>>)
    ensures
        ({
            let once = after_create(open, spawn_target(id, open));
            &&& once.contains(label_of(id))
            &&& spawn_target(id, once) == None::<Seq<char>>
            &&& after_create(once, spawn_target(id, once)) == once
        }),
        open.contains(label_of(id)) ==> spawn_target(id, open) == None::<Seq<char>>
            && after_create(open, spawn_target(id, open)) == open,
{
}

/// A note named by its full label and by its bare identifier is the same
/// window to create-window, focus-window, close-window and set-position.
pub proof fn either_form_names_one_window(id: Seq<char>, open: Set<Seq<char>>)
    requires
        !has_prefix(id, note_prefix()),
    ensures
        spawn_target(note_prefix() + id, open) == spawn_target(id, open),
        open_target(note_prefix() + id, open) == open_target(id, open),
        position_target(note_prefix() + id, open) == position_target(id, open),
{
    label_accepts_either_form(id);
}

/// When a note's window is not open, focus-window and close-window act on
/// nothing and leave the open windows as they are, while set-position fails;
/// move-and-resize fails when the window of its bare identifier is not open.
pub proof fn absent_window_commands(id: Seq<char>, open: Set<Seq<char>>)
    ensures
        !open.contains(label_of(id)) ==> {
            &&& open_target(id, open) == None::<Seq<char>>
            &&& after_close(open, open_target(id, open)) == open
            &&& position_target(id, open) == Err::<Seq<char>, Seq<char>>(
                missing_window_message(label_of(id)),
            )
        },
        !open.contains(note_prefix() + id) ==> resize_target(id, open) == Err::<
            Seq<char>,
            Seq<char>,
        >(window_not_found()),
{
}

/// Closing a note's window leaves it closed: afterwards it is not open, and a
/// second close acts on nothing.
pub proof fn close_window_is_final(id: Seq<char>, open: Set<Seq<char>>)
    ensures
        ({
            let after = after_close(open, open_target(id, open));
            &&& !after.contains(label_of(id))
            &&& open_target(id, after) == None::<Seq<char>>
        }),
{
}

} // verus!
