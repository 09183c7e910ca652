//! Window labels: a note with identifier `abc` lives in the window `note-abc`.

use vstd::prelude::*;

verus! {

/// The tag in front of every note window's label.
pub const NOTE_PREFIX: &'static str = "note-";

/// The characters of [`NOTE_PREFIX`].
pub open spec fn note_prefix() -> Seq<char> {
    seq!['n', 'o', 't', 'e', '-']
}

/// `s` begins with `p`.
pub open spec fn has_prefix(s: Seq<char>, p: Seq<char>) -> bool {
    p.len() <= s.len() && s.subrange(0, p.len() as int) == p
}

/// The label of the window for `id`: `id` itself when it already carries the
/// prefix, else the prefix followed by `id`.
pub open spec fn label_of(id: Seq<char>) -> Seq<char> {
    if has_prefix(id, note_prefix()) {
        id
    } else {
        note_prefix() + id
    }
}

/// Whether `id` already begins with [`NOTE_PREFIX`].
pub fn has_note_prefix(id: &str) -> (r: bool)
    ensures
        r == has_prefix(id@, note_prefix()),
{
    let p = NOTE_PREFIX;
    proof {
        reveal_strlit("note-");
    }
    assert(p@ == note_prefix());
    let n = p.unicode_len();
    if id.unicode_len() < n {
        return false;
    }
    let mut i: usize = 0;
    while i < n
        invariant
            p@ == note_prefix(),
            n == p@.len(),
            n <= id@.len(),
            i <= n,
            forall|k: int| 0 <= k < i ==> id@[k] == p@[k],
        decreases n - i,
    {
        if id.get_char(i) != p.get_char(i) {
            return false;
        }
        i = i + 1;
    }
    assert(id@.subrange(0, n as int) =~= p@);
    true
}

/// The label of the window for `id`, accepting either the bare identifier or
/// the full label.
pub fn note_label(id: &str) -> (r: String)
    ensures
        r@ == label_of(id@),
{
    if has_note_prefix(id) {
        String::from_str(id)
    } else {
        prefixed_label(id)
    }
}

/// [`NOTE_PREFIX`] followed by `id`, whatever `id` begins with.
pub fn prefixed_label(id: &str) -> (r: String)
    ensures
        r@ == note_prefix() + id@,
{
    proof {
        reveal_strlit("note-");
    }
    String::from_str(NOTE_PREFIX).concat(id)
}

/// Naming a note by its full label reaches the same window as naming it by
/// its bare identifier.
pub proof fn label_accepts_either_form(id: Seq<char>)
    requires
        !has_prefix(id, note_prefix()),
    ensures
        label_of(note_prefix() + id) == label_of(id),
{
    let full = note_prefix() + id;
    assert(full.subrange(0, 5) =~= note_prefix());
}

/// Deriving a label from a label changes nothing.
pub proof fn label_is_idempotent(id: Seq<char>)
    ensures
        label_of(label_of(id)) == label_of(id),
{
    if !has_prefix(id, note_prefix()) {
        label_accepts_either_form(id);
    }
}

} // verus!
