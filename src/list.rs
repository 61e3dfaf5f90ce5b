use vstd::prelude::*;
use crate::task::{TaskView, TodoItem};

verus! {

/// The mathematical value of a task list: its tasks in order and the cursor.
pub struct ListView {
    pub items: Seq<TaskView>,
    pub selected: Option<nat>,
}

impl ListView {
    /// The cursor is unset exactly when the list is empty, and otherwise
    /// names one of its tasks.
    pub open spec fn wf(self) -> bool {
        &&& (self.selected is None <==> self.items.len() == 0)
        &&& (self.selected matches Some(i) ==> i < self.items.len())
    }

    pub open spec fn with_selected(self, selected: Option<nat>) -> ListView {
        ListView { items: self.items, selected }
    }

    /// One step down, stopping at the last task.
    pub open spec fn next(self) -> ListView {
        match self.selected {
            Some(i) => self.with_selected(
                Some(if i + 1 < self.items.len() { (i + 1) as nat } else { i }),
            ),
            None => self,
        }
    }

    /// One step up, stopping at the first task.
    pub open spec fn previous(self) -> ListView {
        match self.selected {
            Some(i) => self.with_selected(Some(if i > 0 { (i - 1) as nat } else { 0 })),
            None => self,
        }
    }

    pub open spec fn first(self) -> ListView {
        if self.items.len() == 0 {
            self
        } else {
            self.with_selected(Some(0))
        }
    }

    pub open spec fn last(self) -> ListView {
        if self.items.len() == 0 {
            self
        } else {
            self.with_selected(Some((self.items.len() - 1) as nat))
        }
    }

    /// The task added at the end, and selected.
    pub open spec fn appended(self, t: TaskView) -> ListView {
        ListView { items: self.items.push(t), selected: Some(self.items.len()) }
    }

    /// The task at `index` taken out. The cursor becomes unset when nothing
    /// is left; it moves to the new last task when the last one was removed
    /// or when it would point past the end; otherwise it stays where it was.
    pub open spec fn removed(self, index: nat) -> ListView {
        if index >= self.items.len() {
            self
        } else {
            let items = self.items.remove(index as int);
            let selected = if items.len() == 0 {
                None
            } else {
                match self.selected {
                    Some(c) => if index == items.len() || c >= items.len() {
                        Some((items.len() - 1) as nat)
                    } else {
                        Some(c)
                    },
                    None => Some((items.len() - 1) as nat),
                }
            };
            ListView { items, selected }
        }
    }

    /// The done flag of the task at `index` flipped; nothing else changes.
    pub open spec fn toggled(self, index: nat) -> ListView {
        if index < self.items.len() {
            let t = self.items[index as int];
            ListView {
                items: self.items.update(index as int, TaskView { is_done: !t.is_done, ..t }),
                selected: self.selected,
            }
        } else {
            self
        }
    }
}

/// Tasks in insertion order, with a selection cursor.
pub struct TaskList {
    items: Vec<TodoItem>,
    selected: Option<usize>,
}

impl View for TaskList {
    type V = ListView;

    closed spec fn view(&self) -> ListView {
        ListView {
            items: self.items@.map_values(|t: TodoItem| t@),
            selected: match self.selected {
                Some(i) => Some(i as nat),
                None => None,
            },
        }
    }
}

impl TaskList {
    #[verifier::type_invariant]
    closed spec fn inv(self) -> bool {
        self@.wf()
    }

    /// A list over the given tasks, with the first one selected if there is
    /// any.
    pub fn new(items: Vec<TodoItem>) -> (r: TaskList)
        ensures
            r@.items == items@.map_values(|t: TodoItem| t@),
            r@.selected == (if items@.len() == 0 { None } else { Some(0nat) }),
            r@.wf(),
    {
        let selected = if items.len() == 0 { None } else { Some(0) };
        TaskList { items, selected }
    }

    pub fn len(&self) -> (r: usize)
        ensures
            r == self@.items.len(),
    {
        self.items.len()
    }

    pub fn is_empty(&self) -> (r: bool)
        ensures
            r == (self@.items.len() == 0),
    {
        self.items.len() == 0
    }

    pub fn get(&self, index: usize) -> (r: &TodoItem)
        requires
            index < self@.items.len(),
        ensures
            r@ == self@.items[index as int],
    {
        &self.items[index]
    }

    pub fn selected(&self) -> (r: Option<usize>)
        ensures
            r matches Some(i) ==> self@.selected == Some(i as nat),
            r is None ==> self@.selected is None,
    {
        proof {
            use_type_invariant(self);
        }
        self.selected
    }

    /// The value of any list is well formed.
    pub fn check_wf(&self)
        ensures
            self@.wf(),
    {
        proof {
            use_type_invariant(self);
        }
    }

    /// Moves the cursor one task down, stopping at the last one.
    pub fn select_next(&mut self)
        ensures
            final(self)@ == old(self)@.next(),
            final(self)@.wf(),
    {
        proof {
            use_type_invariant(&*self);
        }
        if let Some(i) = self.selected {
            if i < self.items.len() - 1 {
                self.selected = Some(i + 1);
            }
        }
    }

    /// Moves the cursor one task up, stopping at the first one.
    pub fn select_previous(&mut self)
        ensures
            final(self)@ == old(self)@.previous(),
            final(self)@.wf(),
    {
        proof {
            use_type_invariant(&*self);
        }
        if let Some(i) = self.selected {
            if i > 0 {
                self.selected = Some(i - 1);
            }
        }
    }

    /// Selects the first task; does nothing on an empty list.
    pub fn select_first(&mut self)
        ensures
            final(self)@ == old(self)@.first(),
            final(self)@.wf(),
    {
        proof {
            use_type_invariant(&*self);
        }
        if self.items.len() > 0 {
            self.selected = Some(0);
        }
    }

    /// Selects the last task; does nothing on an empty list.
    pub fn select_last(&mut self)
        ensures
            final(self)@ == old(self)@.last(),
            final(self)@.wf(),
    {
        proof {
            use_type_invariant(&*self);
        }
        if self.items.len() > 0 {
            self.selected = Some(self.items.len() - 1);
        }
    }

    /// Takes the whole list out of `self`, leaving an empty one.
    fn take(&mut self) -> (r: TaskList)
        ensures
            r@ == old(self)@,
            final(self)@.items.len() == 0,
    {
        let mut r = TaskList { items: Vec::new(), selected: None };
        std::mem::swap(self, &mut r);
        r
    }

    /// Adds a task at the end and selects it.
    pub fn append(&mut self, item: TodoItem)
        ensures
            final(self)@ == old(self)@.appended(item@),
            final(self)@.wf(),
    {
        let TaskList { mut items, selected: _ } = self.take();
        let ghost old_items = items@;
        let n = items.len();
        items.push(item);
        proof {
            assert(items@.map_values(|t: TodoItem| t@) =~= old_items.map_values(
                |t: TodoItem| t@,
            ).push(item@));
        }
        *self = TaskList { items, selected: Some(n) };
    }

    /// Removes the task at `index`, if there is one, and keeps the cursor
    /// on the list as [`ListView::removed`] describes.
    pub fn remove(&mut self, index: usize)
        ensures
            final(self)@ == old(self)@.removed(index as nat),
            final(self)@.wf(),
    {
        proof {
            use_type_invariant(&*self);
        }
        if index < self.items.len() {
            let TaskList { mut items, selected } = self.take();
            let ghost old_items = items@;
            items.remove(index);
            proof {
                assert(items@.map_values(|t: TodoItem| t@) =~= old_items.map_values(
                    |t: TodoItem| t@,
                ).remove(index as int));
            }
            let n = items.len();
            let selected = if n == 0 {
                None
            } else {
                match selected {
                    Some(c) => if index == n || c >= n {
                        Some(n - 1)
                    } else {
                        Some(c)
                    },
                    None => Some(n - 1),
                }
            };
            *self = TaskList { items, selected };
        }
    }

    /// Flips the done flag of the task at `index`, if there is one.
    pub fn toggle(&mut self, index: usize)
        ensures
            final(self)@ == old(self)@.toggled(index as nat),
            final(self)@.wf(),
    {
        proof {
            use_type_invariant(&*self);
        }
        if index < self.items.len() {
            let TaskList { mut items, selected } = self.take();
            let ghost old_items = items@;
            let item = items.remove(index);
            let item = item.toggled();
            items.insert(index, item);
            proof {
                assert(items@.map_values(|t: TodoItem| t@) =~= old_items.map_values(
                    |t: TodoItem| t@,
                ).update(index as int, item@));
            }
            *self = TaskList { items, selected };
        }
    }
}


/// Moving the cursor keeps a well-formed list well formed: on a list with
/// tasks every move leaves a cursor that names one of them, and on an empty
/// list the cursor stays unset.
pub proof fn lemma_moves_keep_cursor_in_range(v: ListView)
    requires
        v.wf(),
    ensures
        v.next().wf(),
        v.previous().wf(),
        v.first().wf(),
        v.last().wf(),
        v.items.len() > 0 ==> {
            &&& v.next().selected matches Some(i) && i < v.items.len()
            &&& v.previous().selected matches Some(j) && j < v.items.len()
        },
        v.items.len() == 0 ==> {
            &&& v.next().selected is None
            &&& v.previous().selected is None
        },
{
}

/// Adding a task and then removing it again gives back the same tasks; the
/// cursor is then on the last of them, or unset if there are none.
pub proof fn lemma_append_then_remove(v: ListView, t: TaskView)
    requires
        v.wf(),
    ensures
        v.appended(t).removed(v.items.len()) == (ListView {
            items: v.items,
            selected: if v.items.len() == 0 {
                None
            } else {
                Some((v.items.len() - 1) as nat)
            },
        }),
{
    assert(v.items.push(t).remove(v.items.len() as int) =~= v.items);
}

/// Toggling the same task twice leaves the list as it was.
pub proof fn lemma_toggle_twice(v: ListView, index: nat)
    ensures
        v.toggled(index).toggled(index) == v,
{
    if index < v.items.len() {
        let t = v.items[index as int];
        assert(v.toggled(index).toggled(index).items =~= v.items.update(
            index as int,
            TaskView { is_done: !!t.is_done, ..t },
        ));
        assert(v.toggled(index).toggled(index).items =~= v.items);
    }
}

/// Removing the only task leaves an empty list with the cursor unset.
pub proof fn lemma_remove_only_task(v: ListView)
    requires
        v.wf(),
        v.items.len() == 1,
    ensures
        v.removed(0).items.len() == 0,
        v.removed(0).selected is None,
{
}

} // verus!
