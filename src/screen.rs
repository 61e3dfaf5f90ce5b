use vstd::prelude::*;
use crate::controller::Mode;
use crate::list::TaskList;
use crate::task::{TaskView, TodoItem};

verus! {

/// The checkbox that starts a task's line.
pub open spec fn checkbox(is_done: bool) -> Seq<char> {
    if is_done {
        "[x] "@
    } else {
        "[ ] "@
    }
}

/// The text of a task's line: its checkbox, then its description.
pub open spec fn row_text(t: TaskView) -> Seq<char> {
    checkbox(t.is_done) + t.description
}

/// The key bindings shown in normal mode.
pub open spec fn normal_hint() -> Seq<char> {
    " q: Quit | a: Add | j/k: Navigate | Enter/Space: Toggle | d: Delete "@
}

/// The footer's text: the key bindings in normal mode, the text typed so
/// far followed by a caret in input mode.
pub open spec fn footer(mode: Mode, input: Seq<char>) -> Seq<char> {
    match mode {
        Mode::Normal => normal_hint(),
        Mode::Input => " New task: "@ + input + "\u{258f}"@,
    }
}

/// One line of the task list as it is drawn. A done task is drawn dimmed
/// and struck through; the highlighted line is the one under the cursor.
pub struct ListRow {
    pub text: String,
    pub done: bool,
    pub highlighted: bool,
}

/// The text of one task's line.
pub fn task_line(item: &TodoItem) -> (r: String)
    ensures
        r@ == row_text(item@),
{
    let mark = if item.is_done() {
        String::from_str("[x] ")
    } else {
        String::from_str("[ ] ")
    };
    mark.concat(item.description())
}

/// The lines of the task list, one for each task, in order.
pub fn list_rows(list: &TaskList) -> (r: Vec<ListRow>)
    ensures
        r@.len() == list@.items.len(),
        forall|i: int|
            0 <= i < r@.len() ==> {
                &&& (#[trigger] r@[i]).text@ == row_text(list@.items[i])
                &&& r@[i].done == list@.items[i].is_done
                &&& r@[i].highlighted == (list@.selected == Some(i as nat))
            },
{
    let selected = list.selected();
    let n = list.len();
    let mut rows: Vec<ListRow> = Vec::new();
    let mut i: usize = 0;
    while i < n
        invariant
            n == list@.items.len(),
            i <= n,
            selected matches Some(s) ==> list@.selected == Some(s as nat),
            selected is None ==> list@.selected is None,
            rows@.len() == i,
            forall|j: int|
                0 <= j < i ==> {
                    &&& (#[trigger] rows@[j]).text@ == row_text(list@.items[j])
                    &&& rows@[j].done == list@.items[j].is_done
                    &&& rows@[j].highlighted == (list@.selected == Some(j as nat))
                },
        decreases n - i,
    {
        let item = list.get(i);
        let highlighted = match selected {
            Some(s) => s == i,
            None => false,
        };
        rows.push(ListRow { text: task_line(item), done: item.is_done(), highlighted });
        i = i + 1;
    }
    rows
}

/// The footer's text for the given mode and input.
pub fn footer_text(mode: Mode, input: &str) -> (r: String)
    ensures
        r@ == footer(mode, input@),
{
    match mode {
        Mode::Normal => String::from_str(
            " q: Quit | a: Add | j/k: Navigate | Enter/Space: Toggle | d: Delete ",
        ),
        Mode::Input => String::from_str(" New task: ").concat(input).concat("\u{258f}"),
    }
}

} // verus!
