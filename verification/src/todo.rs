//! The todo list: tasks, a selection cursor, an input line, and the
//! bookkeeping for focus time recorded per task. Methods whose effects
//! belong on disk hand back the record to save; the unverified shell
//! writes it out.
use vstd::prelude::*;

use crate::storage::TaskData;
use crate::text::{push_dec_u64, spec_dec, spec_trimmed, trimmed};

verus! {

/// Writes are handed out at most once a minute, in seconds.
pub const SAVE_INTERVAL_SECS: u64 = 60;

/// One todo entry.
pub struct Task {
    pub id: u64,
    pub text: String,
    pub completed: bool,
    /// Seconds of focus time recorded for the entry.
    pub time_spent_secs: u64,
    /// When the task was created, in seconds since the Unix epoch.
    pub created_at: u64,
}

/// The mathematical value of a task.
pub ghost struct TaskV {
    pub id: u64,
    pub text: Seq<char>,
    pub completed: bool,
    pub time_spent_secs: u64,
    pub created_at: u64,
}

impl DeepView for Task {
    type V = TaskV;

    open spec fn deep_view(&self) -> TaskV {
        TaskV {
            id: self.id,
            text: self.text@,
            completed: self.completed,
            time_spent_secs: self.time_spent_secs,
            created_at: self.created_at,
        }
    }
}

impl Clone for Task {
    fn clone(&self) -> (t: Task)
        ensures
            t.deep_view() == self.deep_view(),
    {
        Task {
            id: self.id,
            text: self.text.clone(),
            completed: self.completed,
            time_spent_secs: self.time_spent_secs,
            created_at: self.created_at,
        }
    }
}

/// Relies on std::time::SystemTime::now: the wall clock, read as
/// whole seconds since the Unix epoch, or 0 should the clock read
/// earlier than the epoch. The result depends on the clock, so
/// nothing is promised of it.
#[verifier::external_body]
fn now_unix_secs() -> (r: u64) {
    match std::time::SystemTime::now().duration_since(std::time::UNIX_EPOCH) {
        Ok(d) => d.as_secs(),
        Err(_) => 0,
    }
}

impl Task {
    /// A fresh, uncompleted task stamped with the wall clock.
    pub fn new(id: u64, text: String) -> (t: Task)
        ensures
            t.id == id,
            t.text@ == text@,
            !t.completed,
            t.time_spent_secs == 0,
    {
        let created_at = now_unix_secs();
        Task { id, text, completed: false, time_spent_secs: 0, created_at }
    }

    /// The tracked time as hours and zero-padded minutes, or `--`
    /// when nothing is tracked yet.
    pub fn format_time(&self) -> (r: String)
        ensures
            r@ == spec_format_time(self.time_spent_secs),
    {
        if self.time_spent_secs == 0 {
            return String::from_str("--");
        }
        let hours = self.time_spent_secs / 3600;
        let mins = (self.time_spent_secs % 3600) / 60;
        let mut s = String::new();
        push_dec_u64(&mut s, hours);
        s.append("h ");
        if mins < 10 {
            s.append("0");
        }
        push_dec_u64(&mut s, mins);
        s.append("m");
        proof {
            assert(s@ =~= spec_format_time(self.time_spent_secs));
        }
        s
    }
}

/// `format_time`'s display string: `--` with nothing tracked, else
/// whole hours and minutes, the minutes padded to two digits.
pub open spec fn spec_format_time(secs: u64) -> Seq<char> {
    if secs == 0 {
        "--"@
    } else {
        let hours = secs / 3600;
        let mins = (secs % 3600) / 60;
        spec_dec(hours as nat) + "h "@ + (if mins < 10 {
            "0"@
        } else {
            Seq::<char>::empty()
        }) + spec_dec(mins as nat) + "m"@
    }
}

/// The todo list and its interaction state.
pub struct TodoList {
    pub visible: bool,
    pub tasks: Vec<Task>,
    pub selected: usize,
    pub input_mode: bool,
    pub input_buffer: String,
    /// The task time is tracked against, if any.
    pub active_task: Option<u64>,
    pub next_id: u64,
    /// When a record was last handed out for saving, in seconds since
    /// the Unix epoch.
    pub last_save: u64,
}

impl TodoList {
    /// The selection cursor stays on a task whenever there is one.
    pub open spec fn wf(self) -> bool {
        &&& self.tasks@.len() == 0 ==> self.selected == 0
        &&& self.tasks@.len() > 0 ==> self.selected < self.tasks@.len()
    }

    /// All fields except the tasks, the id counter and the save stamp.
    pub open spec fn same_ui(self, other: TodoList) -> bool {
        &&& self.visible == other.visible
        &&& self.selected == other.selected
        &&& self.input_mode == other.input_mode
        &&& self.input_buffer == other.input_buffer
        &&& self.active_task == other.active_task
    }

    /// A list rebuilt from a saved record: hidden, cursor at the top,
    /// no input line, nothing tracked, and an id counter of at least 1.
    pub fn load(data: TaskData) -> (t: TodoList)
        ensures
            t.wf(),
            !t.visible,
            t.tasks.deep_view() == data.tasks.deep_view(),
            t.selected == 0,
            !t.input_mode,
            t.input_buffer@ == Seq::<char>::empty(),
            t.active_task is None,
            t.next_id == (if data.next_id >= 1 {
                data.next_id
            } else {
                1u64
            }),
    {
        let next_id = if data.next_id >= 1 {
            data.next_id
        } else {
            1
        };
        TodoList {
            visible: false,
            tasks: data.tasks,
            selected: 0,
            input_mode: false,
            input_buffer: String::new(),
            active_task: None,
            next_id,
            last_save: now_unix_secs(),
        }
    }

    /// Snapshot the list into a record for the shell to persist, and
    /// stamp the save time.
    pub fn save(&mut self) -> (d: TaskData)
        requires
            old(self).wf(),
        ensures
            final(self).wf(),
            d.tasks.deep_view() == old(self).tasks.deep_view(),
            d.next_id == old(self).next_id,
            final(self).same_ui(*old(self)),
            final(self).tasks == old(self).tasks,
            final(self).next_id == old(self).next_id,
    {
        let tasks = clone_tasks(&self.tasks);
        self.last_save = now_unix_secs();
        TaskData { tasks, next_id: self.next_id }
    }

    /// Hand out a record only when the last one is at least the save
    /// interval old.
    pub fn save_throttled(&mut self) -> (d: Option<TaskData>)
        requires
            old(self).wf(),
        ensures
            final(self).wf(),
            d matches Some(data) ==> data.tasks.deep_view() == old(self).tasks.deep_view()
                && data.next_id == old(self).next_id,
            final(self).same_ui(*old(self)),
            final(self).tasks == old(self).tasks,
            final(self).next_id == old(self).next_id,
            d is None ==> *final(self) == *old(self),
    {
        let now = now_unix_secs();
        if save_due(self.last_save, now) {
            Some(self.save())
        } else {
            None
        }
    }

    /// Hide or show the list; hiding abandons the input line.
    pub fn toggle_visible(&mut self)
        ensures
            final(self).visible == !old(self).visible,
            final(self).tasks == old(self).tasks,
            final(self).selected == old(self).selected,
            final(self).active_task == old(self).active_task,
            final(self).next_id == old(self).next_id,
            final(self).last_save == old(self).last_save,
            old(self).visible ==> !final(self).input_mode && final(self).input_buffer@
                == Seq::<char>::empty(),
            !old(self).visible ==> final(self).input_mode == old(self).input_mode && final(self).input_buffer == old(self).input_buffer,
    {
        self.visible = !self.visible;
        if !self.visible {
            self.input_mode = false;
            self.input_buffer.clear();
        }
    }

    /// Open a fresh input line.
    pub fn enter_input_mode(&mut self)
        ensures
            final(self).input_mode,
            final(self).input_buffer@ == Seq::<char>::empty(),
            final(self).visible == old(self).visible,
            final(self).tasks == old(self).tasks,
            final(self).selected == old(self).selected,
            final(self).active_task == old(self).active_task,
            final(self).next_id == old(self).next_id,
            final(self).last_save == old(self).last_save,
    {
        self.input_mode = true;
        self.input_buffer.clear();
    }

    /// Abandon the input line.
    pub fn cancel_input(&mut self)
        ensures
            !final(self).input_mode,
            final(self).input_buffer@ == Seq::<char>::empty(),
            final(self).visible == old(self).visible,
            final(self).tasks == old(self).tasks,
            final(self).selected == old(self).selected,
            final(self).active_task == old(self).active_task,
            final(self).next_id == old(self).next_id,
            final(self).last_save == old(self).last_save,
    {
        self.input_mode = false;
        self.input_buffer.clear();
    }

    /// Append one character to the input line, if it is open.
    pub fn type_char(&mut self, c: char)
        ensures
            old(self).input_mode ==> final(self).input_buffer@ == old(self).input_buffer@.push(c),
            !old(self).input_mode ==> *final(self) == *old(self),
            final(self).input_mode == old(self).input_mode,
            final(self).visible == old(self).visible,
            final(self).tasks == old(self).tasks,
            final(self).selected == old(self).selected,
            final(self).active_task == old(self).active_task,
            final(self).next_id == old(self).next_id,
            final(self).last_save == old(self).last_save,
    {
        if self.input_mode {
            self.input_buffer.push(c);
        }
    }

    /// Delete the last character of the input line, if it is open.
    pub fn backspace(&mut self)
        ensures
            old(self).input_mode && old(self).input_buffer@.len() > 0 ==> final(self).input_buffer@ == old(self).input_buffer@.drop_last(),
            old(self).input_mode && old(self).input_buffer@.len() == 0 ==> final(self).input_buffer@ == old(self).input_buffer@,
            !old(self).input_mode ==> *final(self) == *old(self),
            final(self).input_mode == old(self).input_mode,
            final(self).visible == old(self).visible,
            final(self).tasks == old(self).tasks,
            final(self).selected == old(self).selected,
            final(self).active_task == old(self).active_task,
            final(self).next_id == old(self).next_id,
            final(self).last_save == old(self).last_save,
    {
        if self.input_mode {
            self.input_buffer.pop();
        }
    }

    /// Append a fresh task carrying `text` and hand out the record to
    /// persist.
    pub fn add_task(&mut self, text: String) -> (d: TaskData)
        requires
            old(self).wf(),
            old(self).next_id < u64::MAX,
        ensures
            final(self).wf(),
            final(self).tasks@.len() == old(self).tasks@.len() + 1,
            forall|i: int|
                0 <= i < old(self).tasks@.len() ==> final(self).tasks.deep_view()[i] == old(self).tasks.deep_view()[i],
            final(self).tasks@.last().id == old(self).next_id,
            final(self).tasks@.last().text@ == text@,
            !final(self).tasks@.last().completed,
            final(self).tasks@.last().time_spent_secs == 0,
            final(self).next_id == old(self).next_id + 1,
            final(self).same_ui(*old(self)),
            d.tasks.deep_view() == final(self).tasks.deep_view(),
            d.next_id == final(self).next_id,
    {
        let task = Task::new(self.next_id, text);
        self.next_id = self.next_id + 1;
        self.tasks.push(task);
        self.save()
    }

    /// Close the input line; a line with any non-blank content becomes
    /// a fresh task (and hands out the record to persist).
    pub fn confirm_input(&mut self) -> (d: Option<TaskData>)
        requires
            old(self).wf(),
            old(self).next_id < u64::MAX,
        ensures
            final(self).wf(),
            !old(self).input_mode ==> *final(self) == *old(self) && d is None,
            old(self).input_mode ==> !final(self).input_mode && final(self).input_buffer@
                == Seq::<char>::empty(),
            old(self).input_mode && spec_trimmed(old(self).input_buffer@).len() == 0 ==> final(self).tasks == old(self).tasks && final(self).next_id == old(self).next_id && d is None,
            old(self).input_mode && spec_trimmed(old(self).input_buffer@).len() > 0 ==> final(self).tasks@.len() == old(self).tasks@.len() + 1 && final(self).tasks@.last().text@
                == spec_trimmed(old(self).input_buffer@) && final(self).tasks@.last().id == old(self).next_id && final(self).next_id == old(self).next_id + 1 && d is Some,
    {
        if self.input_mode {
            let text = trimmed(self.input_buffer.as_str());
            let mut d: Option<TaskData> = None;
            if text.as_str().unicode_len() > 0 {
                d = Some(self.add_task(text));
            }
            self.input_mode = false;
            self.input_buffer.clear();
            d
        } else {
            None
        }
    }

    /// Remove the selected task, keep the cursor on a task, drop the
    /// tracking mark if it pointed here, and hand out the record to
    /// persist. A safe no-op on an empty list.
    pub fn delete_selected(&mut self) -> (d: Option<TaskData>)
        requires
            old(self).wf(),
        ensures
            final(self).wf(),
            old(self).tasks@.len() == 0 ==> *final(self) == *old(self) && d is None,
            old(self).tasks@.len() > 0 ==> {
                &&& final(self).tasks.deep_view() == old(self).tasks.deep_view().remove(
                    old(self).selected as int,
                )
                &&& final(self).active_task == (if old(self).active_task == Some(
                    old(self).tasks@[old(self).selected as int].id,
                ) {
                    Option::<u64>::None
                } else {
                    old(self).active_task
                })
                &&& final(self).selected == (if old(self).selected + 1 == old(self).tasks@.len()
                    && old(self).selected > 0 {
                    old(self).selected - 1
                } else {
                    old(self).selected as int
                })
                &&& final(self).next_id == old(self).next_id
                &&& final(self).visible == old(self).visible
                &&& final(self).input_mode == old(self).input_mode
                &&& final(self).input_buffer == old(self).input_buffer
                &&& d matches Some(data) && data.tasks.deep_view() == final(self).tasks.deep_view() && data.next_id == final(self).next_id
            },
    {
        if self.tasks.len() == 0 {
            return None;
        }
        let task_id = self.tasks[self.selected].id;
        let drop_mark = match self.active_task {
            Some(a) => a == task_id,
            None => false,
        };
        if drop_mark {
            self.active_task = None;
        }
        self.tasks.remove(self.selected);
        if self.selected >= self.tasks.len() && self.selected > 0 {
            self.selected = self.selected - 1;
        }
        Some(self.save())
    }

    /// Flip the completion mark on the selected task and hand out the
    /// record to persist. A safe no-op on an empty list.
    pub fn toggle_completed(&mut self) -> (d: Option<TaskData>)
        requires
            old(self).wf(),
        ensures
            final(self).wf(),
            old(self).tasks@.len() == 0 ==> *final(self) == *old(self) && d is None,
            old(self).tasks@.len() > 0 ==> {
                &&& final(self).tasks.deep_view() == old(self).tasks.deep_view().update(
                    old(self).selected as int,
                    TaskV {
                        completed: !old(self).tasks@[old(self).selected as int].completed,
                        ..old(self).tasks.deep_view()[old(self).selected as int]
                    },
                )
                &&& final(self).same_ui(*old(self))
                &&& final(self).next_id == old(self).next_id
                &&& d matches Some(data) && data.tasks.deep_view() == final(self).tasks.deep_view() && data.next_id == final(self).next_id
            },
    {
        if self.tasks.len() == 0 {
            return None;
        }
        let mut task = self.tasks[self.selected].clone();
        task.completed = !task.completed;
        self.tasks.set(self.selected, task);
        proof {
            assert(self.tasks.deep_view() =~= old(self).tasks.deep_view().update(
                old(self).selected as int,
                TaskV {
                    completed: !old(self).tasks@[old(self).selected as int].completed,
                    ..old(self).tasks.deep_view()[old(self).selected as int]
                },
            ));
        }
        Some(self.save())
    }

    /// Mark the selected task for time tracking, or unmark it if it is
    /// the one already marked.
    pub fn select_for_pomodoro(&mut self)
        requires
            old(self).wf(),
        ensures
            final(self).wf(),
            old(self).tasks@.len() == 0 ==> *final(self) == *old(self),
            old(self).tasks@.len() > 0 ==> final(self).active_task == (if old(self).active_task
                == Some(old(self).tasks@[old(self).selected as int].id) {
                Option::<u64>::None
            } else {
                Some(old(self).tasks@[old(self).selected as int].id)
            }),
            final(self).tasks == old(self).tasks,
            final(self).selected == old(self).selected,
            final(self).visible == old(self).visible,
            final(self).input_mode == old(self).input_mode,
            final(self).input_buffer == old(self).input_buffer,
            final(self).next_id == old(self).next_id,
            final(self).last_save == old(self).last_save,
    {
        if self.tasks.len() == 0 {
            return ;
        }
        let id = self.tasks[self.selected].id;
        let unmark = match self.active_task {
            Some(a) => a == id,
            None => false,
        };
        if unmark {
            self.active_task = None;
        } else {
            self.active_task = Some(id);
        }
    }

    /// Add tracked seconds to the first task carrying `task_id`, if
    /// one exists.
    pub fn add_time(&mut self, task_id: u64, secs: u64)
        requires
            old(self).wf(),
            forall|i: int| #![trigger old(self).tasks@[i]]
                0 <= i < old(self).tasks@.len() && old(self).tasks@[i].id == task_id ==> old(self).tasks@[i].time_spent_secs + secs <= u64::MAX,
        ensures
            final(self).wf(),
            (forall|i: int| 0 <= i < old(self).tasks@.len() ==> old(self).tasks@[i].id != task_id)
                ==> *final(self) == *old(self),
            (exists|i: int| 0 <= i < old(self).tasks@.len() && old(self).tasks@[i].id == task_id)
                ==> (exists|j: int|
                {
                    &&& 0 <= j < old(self).tasks@.len()
                    &&& old(self).tasks@[j].id == task_id
                    &&& (forall|k: int| 0 <= k < j ==> old(self).tasks@[k].id != task_id)
                    &&& final(self).tasks.deep_view() == old(self).tasks.deep_view().update(
                        j,
                        TaskV {
                            time_spent_secs: (old(self).tasks@[j].time_spent_secs + secs) as u64,
                            ..old(self).tasks.deep_view()[j]
                        },
                    )
                }),
            final(self).same_ui(*old(self)),
            final(self).next_id == old(self).next_id,
            final(self).last_save == old(self).last_save,
    {
        let mut i: usize = 0;
        while i < self.tasks.len()
            invariant
                *self == *old(self),
                old(self).wf(),
                i <= self.tasks@.len(),
                forall|k: int| 0 <= k < i ==> old(self).tasks@[k].id != task_id,
                forall|k: int| #![trigger old(self).tasks@[k]]
                    0 <= k < old(self).tasks@.len() && old(self).tasks@[k].id == task_id
                        ==> old(self).tasks@[k].time_spent_secs + secs <= u64::MAX,
            decreases self.tasks@.len() - i,
        {
            if self.tasks[i].id == task_id {
                proof {
                    assert(old(self).tasks@[i as int].id == task_id);
                    assert(old(self).tasks@[i as int].time_spent_secs + secs <= u64::MAX);
                }
                let mut task = self.tasks[i].clone();
                proof {
                    assert(task.deep_view() == old(self).tasks@[i as int].deep_view());
                    assert(task.time_spent_secs == old(self).tasks@[i as int].time_spent_secs);
                }
                task.time_spent_secs = task.time_spent_secs + secs;
                self.tasks.set(i, task);
                proof {
                    assert(self.tasks.deep_view() =~= old(self).tasks.deep_view().update(
                        i as int,
                        TaskV {
                            time_spent_secs: (old(self).tasks@[i as int].time_spent_secs
                                + secs) as u64,
                            ..old(self).tasks.deep_view()[i as int]
                        },
                    ));
                    assert(self.tasks@.len() == old(self).tasks@.len());
                    assert(self.wf());
                }
                return ;
            }
            i = i + 1;
        }
    }

    /// Move the cursor one task up, stopping at the top.
    pub fn move_up(&mut self)
        requires
            old(self).wf(),
        ensures
            final(self).wf(),
            old(self).selected > 0 ==> final(self).selected == old(self).selected - 1,
            old(self).selected == 0 ==> final(self).selected == 0,
            final(self).tasks == old(self).tasks,
            final(self).visible == old(self).visible,
            final(self).input_mode == old(self).input_mode,
            final(self).input_buffer == old(self).input_buffer,
            final(self).active_task == old(self).active_task,
            final(self).next_id == old(self).next_id,
            final(self).last_save == old(self).last_save,
    {
        if self.selected > 0 {
            self.selected = self.selected - 1;
        }
    }

    /// Move the cursor one task down, stopping at the last task.
    pub fn move_down(&mut self)
        requires
            old(self).wf(),
        ensures
            final(self).wf(),
            old(self).tasks@.len() > 0 && old(self).selected + 1 < old(self).tasks@.len() ==> final(self).selected == old(self).selected + 1,
            old(self).tasks@.len() == 0 || old(self).selected + 1 >= old(self).tasks@.len()
                ==> final(self).selected == old(self).selected,
            final(self).tasks == old(self).tasks,
            final(self).visible == old(self).visible,
            final(self).input_mode == old(self).input_mode,
            final(self).input_buffer == old(self).input_buffer,
            final(self).active_task == old(self).active_task,
            final(self).next_id == old(self).next_id,
            final(self).last_save == old(self).last_save,
    {
        if self.tasks.len() > 0 && self.selected < self.tasks.len() - 1 {
            self.selected = self.selected + 1;
        }
    }
}

/// Whether the save interval has passed between two clock readings.
pub fn save_due(last: u64, now: u64) -> (b: bool)
    ensures
        b == (last + SAVE_INTERVAL_SECS <= now),
{
    now >= last && now - last >= SAVE_INTERVAL_SECS
}

/// A deep copy of the task vector.
fn clone_tasks(v: &Vec<Task>) -> (r: Vec<Task>)
    ensures
        r.deep_view() == v.deep_view(),
{
    let mut r: Vec<Task> = Vec::new();
    let mut i: usize = 0;
    while i < v.len()
        invariant
            i <= v@.len(),
            r.deep_view() =~= v.deep_view().subrange(0, i as int),
        decreases v@.len() - i,
    {
        let ghost pre = r.deep_view();
        let t = v[i].clone();
        r.push(t);
        proof {
            assert(r.deep_view() =~= pre.push(v.deep_view()[i as int]));
            assert(r.deep_view() =~= v.deep_view().subrange(0, i + 1));
        }
        i = i + 1;
    }
    proof {
        assert(v.deep_view().subrange(0, v@.len() as int) =~= v.deep_view());
    }
    r
}

} // verus!
