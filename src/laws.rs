use crate::app::{next_index, previous_index, text_after, App, Key};
use crate::text::{inserted, MAX_CHARS};
use crate::todo::{accepts_title, after_add, fresh_item, TodoModel};
use vstd::prelude::*;

verus! {

/// Typing a character into a buffer that is not full and then moving left
/// puts the cursor back where it was; the buffer then differs from before by
/// exactly that character, at that position.
pub proof fn lemma_insert_then_left(a: App, b: App, c: App, ch: char)
    requires
        a.wf(),
        a.is_editing(),
        a.active_text().len() < MAX_CHARS,
        App::text_edit(a, b, Key::Char(ch)),
        App::text_edit(b, c, Key::Left),
    ensures
        c.cursor_index == a.cursor_index,
        c.active_text() == inserted(a.active_text(), a.cursor_index as int, ch),
{
}

/// Backspace with the cursor at the start changes neither buffer nor the cursor.
pub proof fn lemma_delete_at_start(a: App, b: App)
    requires
        a.cursor_index == 0,
        App::text_edit(a, b, Key::Backspace),
    ensures
        b.cursor_index == 0,
        b.input@ == a.input@,
        b.popup_input@ == a.popup_input@,
        b.input_mode == a.input_mode,
        b.todo_list == a.todo_list,
{
}

/// Typing into a full buffer changes nothing; no editing key makes a buffer
/// longer than the maximum.
pub proof fn lemma_full_buffer(buf: Seq<char>, cur: int, key: Key)
    requires
        buf.len() <= MAX_CHARS,
        0 <= cur <= buf.len(),
    ensures
        buf.len() == MAX_CHARS ==> (key is Char ==> text_after(buf, cur, key) == (buf, cur)),
        text_after(buf, cur, key).0.len() <= MAX_CHARS,
        0 <= text_after(buf, cur, key).1 <= text_after(buf, cur, key).0.len(),
{
}

/// An accepted title goes in at the front as a fresh item, and the store
/// grows by exactly one; a rejected one leaves the store as it was.
pub proof fn lemma_add_effect(
    items: Seq<TodoModel>,
    title: Seq<char>,
    body: Option<Seq<char>>,
    now: i64,
)
    ensures
        accepts_title(items, title) ==> after_add(items, title, body, now).len() == items.len() + 1
            && after_add(items, title, body, now)[0] == fresh_item(title, body, now)
            && after_add(items, title, body, now).skip(1) == items,
        !accepts_title(items, title) ==> after_add(items, title, body, now) == items,
        title.len() == 0 ==> after_add(items, title, body, now).len() == items.len(),
{
    if accepts_title(items, title) {
        assert((seq![fresh_item(title, body, now)] + items).skip(1) =~= items);
    }
}

/// Moving the selection either way over a non-empty store, from no
/// selection or a valid one, lands on a valid index.
pub proof fn lemma_selection_in_range(sel: Option<usize>, len: nat)
    requires
        len > 0,
        len <= usize::MAX,
        sel is Some ==> sel->0 < len,
    ensures
        next_index(sel, len) < len,
        previous_index(sel, len) < len,
        sel is None ==> next_index(sel, len) == 0 && previous_index(sel, len) == 0,
{
}

/// The selection after moving down `k` times from index `i`.
pub open spec fn next_times(i: usize, len: nat, k: nat) -> usize
    decreases k,
{
    if k == 0 {
        i
    } else {
        next_index(Some(next_times(i, len, (k - 1) as nat)), len)
    }
}

proof fn lemma_next_times_below(len: nat, k: nat)
    requires
        0 < len <= usize::MAX,
        k < len,
    ensures
        next_times(0, len, k) == k,
    decreases k,
{
    if k > 0 {
        lemma_next_times_below(len, (k - 1) as nat);
    }
}

/// Moving down as many times as there are items, from the first, comes back
/// to the first.
pub proof fn lemma_next_full_cycle(len: nat)
    requires
        0 < len <= usize::MAX,
    ensures
        next_times(0, len, len) == 0,
{
    lemma_next_times_below(len, (len - 1) as nat);
}

} // verus!
