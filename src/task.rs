use vstd::prelude::*;
use crate::date::{date_is_valid, validate_date, TaskError};

verus! {

/// A task as the contracts see it.
pub struct TaskView {
    pub name: Seq<char>,
    pub date: Seq<char>,
    pub done: bool,
}

/// A to-do entry: a label, an optional due date (empty when there is none)
/// and a completion flag.
pub struct Task {
    pub name: String,
    pub date: String,
    pub done: bool,
}

impl View for Task {
    type V = TaskView;

    open spec fn view(&self) -> TaskView {
        TaskView { name: self.name@, date: self.date@, done: self.done }
    }
}

impl Task {
    /// A task that is not done yet.
    pub fn new(name: String, date: String) -> (r: Task)
        ensures
            r@ == (TaskView { name: name@, date: date@, done: false }),
    {
        Task { name: name, date: date, done: false }
    }
}

/// The 0-based index of the 1-based `position` among `count` tasks, if
/// there is a task there.
pub open spec fn position_index(position: int, count: int) -> Option<int> {
    if 1 <= position && position <= count {
        Some(position - 1)
    } else {
        None
    }
}

/// Where the task at 1-based `position` stands among `count` tasks kept in
/// creation order: `None` when there is no task at that position.
pub fn row_index(position: usize, count: usize) -> (r: Option<usize>)
    ensures
        r matches Some(i) ==> position_index(position as int, count as int) == Some(i as int),
        r is None ==> position_index(position as int, count as int) is None,
{
    if 1 <= position && position <= count {
        Some(position - 1)
    } else {
        None
    }
}

/// The tasks in creation order; a task is addressed by its 1-based
/// position in this order, which shifts when an earlier task is deleted.
pub struct TaskList {
    tasks: Vec<Task>,
}

impl View for TaskList {
    type V = Seq<TaskView>;

    closed spec fn view(&self) -> Seq<TaskView> {
        self.tasks@.map_values(|t: Task| t@)
    }
}

/// `s` with the task at index `i` marked done or not done.
pub open spec fn with_done(s: Seq<TaskView>, i: int, done: bool) -> Seq<TaskView> {
    s.update(i, TaskView { done: done, ..s[i] })
}

/// `s` with the task at index `i` renamed to `name`.
pub open spec fn with_name(s: Seq<TaskView>, i: int, name: Seq<char>) -> Seq<TaskView> {
    s.update(i, TaskView { name: name, ..s[i] })
}

impl TaskList {
    /// Every stored due date is empty or valid.
    pub open spec fn wf(&self) -> bool {
        forall|i: int| 0 <= i < self@.len() ==> date_is_valid(#[trigger] self@[i].date)
    }

    /// An empty list.
    pub fn new() -> (r: TaskList)
        ensures
            r.wf(),
            r@ == Seq::<TaskView>::empty(),
    {
        let r = TaskList { tasks: Vec::new() };
        assert(r@ =~= Seq::<TaskView>::empty());
        r
    }

    /// The number of tasks.
    pub fn len(&self) -> (r: usize)
        ensures
            r == self@.len(),
    {
        self.tasks.len()
    }

    /// The task at 1-based `position`, if there is one.
    pub fn get(&self, position: usize) -> (r: Option<&Task>)
        ensures
            match position_index(position as int, self@.len() as int) {
                Some(i) => r matches Some(t) && t@ == self@[i],
                None => r is None,
            },
    {
        match row_index(position, self.tasks.len()) {
            Some(i) => Some(&self.tasks[i]),
            None => None,
        }
    }

    /// Appends a task read back from storage, after checking its due date.
    pub fn push_stored(&mut self, task: Task) -> (r: Result<(), TaskError>)
        requires
            old(self).wf(),
        ensures
            final(self).wf(),
            r.is_ok() <==> date_is_valid(task@.date),
            r.is_ok() ==> final(self)@ == old(self)@.push(task@),
            r.is_err() ==> r == Err::<(), TaskError>(TaskError::InvalidDate) && final(self)@
                == old(self)@,
    {
        match validate_date(task.date.as_str()) {
            Ok(()) => {
                self.tasks.push(task);
                assert(self@ =~= old(self)@.push(task@));
                Ok(())
            },
            Err(e) => Err(e),
        }
    }

    /// Deletes the task at 1-based `position`; the tasks after it move up
    /// by one. Nothing happens when there is no task there.
    pub fn delete_task(&mut self, position: usize)
        requires
            old(self).wf(),
        ensures
            final(self).wf(),
            final(self)@ == match position_index(position as int, old(self)@.len() as int) {
                Some(i) => old(self)@.remove(i),
                None => old(self)@,
            },
    {
        if let Some(i) = row_index(position, self.tasks.len()) {
            self.tasks.remove(i);
            assert(self@ =~= old(self)@.remove(i as int));
        }
    }

    /// Marks the task at 1-based `position` done or not done. Nothing
    /// happens when there is no task there.
    pub fn set_done(&mut self, position: usize, done: bool)
        requires
            old(self).wf(),
        ensures
            final(self).wf(),
            final(self)@ == match position_index(position as int, old(self)@.len() as int) {
                Some(i) => with_done(old(self)@, i, done),
                None => old(self)@,
            },
    {
        if let Some(i) = row_index(position, self.tasks.len()) {
            let mut t = self.tasks.remove(i);
            t.done = done;
            self.tasks.insert(i, t);
            assert(self@ =~= with_done(old(self)@, i as int, done));
        }
    }

    /// Gives the task at 1-based `position` a new name. Nothing happens
    /// when there is no task there.
    pub fn rename_task(&mut self, position: usize, name: String)
        requires
            old(self).wf(),
        ensures
            final(self).wf(),
            final(self)@ == match position_index(position as int, old(self)@.len() as int) {
                Some(i) => with_name(old(self)@, i, name@),
                None => old(self)@,
            },
    {
        if let Some(i) = row_index(position, self.tasks.len()) {
            let mut t = self.tasks.remove(i);
            t.name = name;
            self.tasks.insert(i, t);
            assert(self@ =~= with_name(old(self)@, i as int, name@));
        }
    }
}

/// Creates a task that is not done yet and returns its name. A due date
/// that is neither empty nor a valid `YYYY-MM-DD HH:MM:SS` date-time is
/// refused with `InvalidDate`, and then nothing is added.
pub fn new_task(list: &mut TaskList, name: String, date: String) -> (r: Result<String, TaskError>)
    requires
        old(list).wf(),
    ensures
        final(list).wf(),
        r.is_ok() <==> date_is_valid(date@),
        r matches Ok(n) ==> n@ == name@ && final(list)@ == old(list)@.push(
            TaskView { name: name@, date: date@, done: false },
        ),
        r.is_err() ==> r == Err::<String, TaskError>(TaskError::InvalidDate) && final(list)@
            == old(list)@,
{
    match validate_date(date.as_str()) {
        Ok(()) => {
            let created = name.clone();
            list.tasks.push(Task::new(name, date));
            assert(list@ =~= old(list)@.push(TaskView { name: name@, date: date@, done: false }));
            Ok(created)
        },
        Err(e) => Err(e),
    }
}

/// Deleting the task at a position moves every later task up by one
/// position, and leaves the earlier ones where they were.
pub proof fn lemma_delete_renumbers(s: Seq<TaskView>, position: int)
    requires
        1 <= position <= s.len(),
    ensures
        position_index(position, s.len() as int) == Some(position - 1),
        s.remove(position - 1).len() == s.len() - 1,
        forall|j: int| 0 <= j < position - 1 ==> #[trigger] s.remove(position - 1)[j] == s[j],
        forall|j: int|
            position - 1 <= j < s.len() - 1 ==> #[trigger] s.remove(position - 1)[j] == s[j + 1],
{
}

/// Marking a task done and then not done leaves it not done with its name
/// and due date as they were, and the other tasks untouched.
pub proof fn lemma_check_then_uncheck(s: Seq<TaskView>, i: int)
    requires
        0 <= i < s.len(),
    ensures
        with_done(with_done(s, i, true), i, false).len() == s.len(),
        with_done(with_done(s, i, true), i, false)[i] == (TaskView { done: false, ..s[i] }),
        with_done(with_done(s, i, true), i, false)[i].name == s[i].name,
        with_done(with_done(s, i, true), i, false)[i].date == s[i].date,
        forall|j: int|
            0 <= j < s.len() && j != i ==> #[trigger] with_done(with_done(s, i, true), i, false)[j]
                == s[j],
{
}

} // verus!
