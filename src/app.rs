use vstd::prelude::*;

use crate::queue::Queue;
use crate::todo::{borsh_tasks, decode_tasks, encode_tasks, snapshot_of, task_views, Todo};

verus! {

/// Why a snapshot could not be read or written.
#[derive(Debug)]
pub enum TodoError {
    /// The snapshot bytes are not a sequence of tasks, or the tasks could not
    /// be written as one; carries the codec's message.
    InvalidData(String),
}

/// The largest id among `tasks`, 0 when there are none.
pub open spec fn max_id(tasks: Seq<Todo>) -> u64
    decreases tasks.len(),
{
    if tasks.len() == 0 {
        0
    } else {
        let rest = max_id(tasks.drop_last());
        if tasks.last().id > rest {
            tasks.last().id
        } else {
            rest
        }
    }
}

/// `x + 1`, or `x` where that would overflow.
pub open spec fn saturating_inc(x: u64) -> u64 {
    if x == u64::MAX {
        x
    } else {
        (x + 1) as u64
    }
}

/// The id that a task added after `tasks` gets: one past the largest, or 1.
pub open spec fn next_id_for(tasks: Seq<Todo>) -> u64 {
    saturating_inc(max_id(tasks))
}

/// `r` restored, from the non-empty snapshot bytes `saved`, the tasks that
/// they were written for, in their order.
pub open spec fn restores(saved: Seq<u8>, r: Result<TodoApp, TodoError>) -> bool {
    forall|ts: Seq<(u64, Seq<char>, u64)>|
        saved.len() > 0 && #[trigger] borsh_tasks(ts) == Some(saved) ==> (r matches Ok(app)
            && task_views(app.tasks()) == ts)
}

/// Reloading from the snapshot that a successful mutation wrote gives back
/// the same tasks in the same order.
pub proof fn lemma_reload_restores_tasks(app: TodoApp, reloaded: Result<TodoApp, TodoError>)
    requires
        app.persisted(app.snapshot_bytes(), true),
        restores(app.snapshot_bytes(), reloaded),
    ensures
        reloaded matches Ok(r) && task_views(r.tasks()) == task_views(app.tasks()),
{
    assert(borsh_tasks(task_views(app.tasks())) == Some(app.snapshot_bytes()));
}

/// The task service: a queue of tasks, the id of the next task, and the
/// snapshot bytes that were last written for the queue.
///
/// Every mutating call writes a fresh snapshot of the whole queue, oldest
/// first; whoever owns the backing file stores `snapshot()` after each call.
pub struct TodoApp {
    queue: Queue<Todo>,
    next_id: u64,
    snapshot: Vec<u8>,
}

impl TodoApp {
    /// The queue is well formed.
    pub closed spec fn wf(&self) -> bool {
        self.queue.wf()
    }

    /// The pending tasks, oldest first.
    pub closed spec fn tasks(&self) -> Seq<Todo> {
        self.queue@
    }

    /// The id that the next added task gets.
    pub closed spec fn next_id(&self) -> u64 {
        self.next_id
    }

    /// The snapshot bytes last written.
    pub closed spec fn snapshot_bytes(&self) -> Seq<u8> {
        self.snapshot@
    }

    /// What a mutation that returned `ok` left as the snapshot, given the one
    /// before it: on success, the snapshot of the current tasks; on failure,
    /// no snapshot of them can be written and the old one stays.
    pub open spec fn persisted(&self, before: Seq<u8>, ok: bool) -> bool {
        if ok {
            snapshot_of(self.tasks()) == Some(self.snapshot_bytes()) && self.snapshot_bytes().len()
                > 0
        } else {
            snapshot_of(self.tasks()) is None && self.snapshot_bytes() == before
        }
    }

    /// Restores the service from snapshot bytes: empty bytes give an empty
    /// queue; otherwise the bytes are read as a sequence of tasks, queued in
    /// their order. The next id is one past the largest restored id, or 1.
    pub fn load_or_new(saved: &[u8]) -> (r: Result<TodoApp, TodoError>)
        ensures
            saved@.len() == 0 ==> (r matches Ok(app) && app.tasks().len() == 0),
            restores(saved@, r),
            r matches Ok(app) ==> {
                &&& app.wf()
                &&& app.next_id() == next_id_for(app.tasks())
                &&& app.snapshot_bytes() == saved@
            },
            r is Err ==> saved@.len() > 0,
    {
        if saved.len() == 0 {
            return Ok(Self::from_tasks(Vec::new()));
        }
        match decode_tasks(saved) {
            Ok(todos) => {
                let mut app = Self::from_tasks(todos);
                app.snapshot = vstd::slice::slice_to_vec(saved);
                Ok(app)
            },
            Err(msg) => Err(TodoError::InvalidData(msg)),
        }
    }

    /// The service holding `todos` in their order, with the next id one past
    /// the largest of their ids (or 1), and no snapshot written yet.
    pub fn from_tasks(todos: Vec<Todo>) -> (app: TodoApp)
        ensures
            app.wf(),
            app.tasks() == todos@,
            app.next_id() == next_id_for(todos@),
            app.snapshot_bytes().len() == 0,
    {
        let ghost restored = todos@;
        let mut queue: Queue<Todo> = Queue::new();
        // Move the tasks over in their order.
        for t in it: todos
            invariant
                queue.wf(),
                it.seq() == restored,
                queue@ == restored.take(it.index() as int),
        {
            proof {
                assert(restored.take(it.index() as int).push(t) =~= restored.take(it.index() + 1));
            }
            queue.enqueue(t);
        }
        proof {
            assert(restored.take(restored.len() as int) =~= restored);
        }
        let next_id = Self::next_id_of(&queue);
        TodoApp { queue, next_id, snapshot: Vec::new() }
    }

    /// One past the largest id in `queue`, or 1 when it is empty; saturating.
    fn next_id_of(queue: &Queue<Todo>) -> (r: u64)
        requires
            queue.wf(),
        ensures
            r == next_id_for(queue@),
    {
        let listed = queue.iter();
        let mut max: u64 = 0;
        let mut i: usize = 0;
        while i < listed.len()
            invariant
                listed@.len() == queue@.len(),
                forall|k: int| 0 <= k < listed@.len() ==> *(#[trigger] listed@[k]) == queue@[k],
                0 <= i <= listed@.len(),
                max == max_id(queue@.take(i as int)),
            decreases listed@.len() - i,
        {
            proof {
                assert(queue@.take(i + 1).drop_last() =~= queue@.take(i as int));
            }
            if listed[i].id > max {
                max = listed[i].id;
            }
            i = i + 1;
        }
        proof {
            assert(queue@.take(i as int) =~= queue@);
        }
        max.saturating_add(1)
    }

    /// Writes a fresh snapshot of the whole queue, oldest first, replacing the
    /// previous one; on failure the previous snapshot stays.
    fn persist(&mut self) -> (r: Result<(), TodoError>)
        requires
            old(self).wf(),
        ensures
            final(self).wf(),
            final(self).tasks() == old(self).tasks(),
            final(self).next_id() == old(self).next_id(),
            final(self).persisted(old(self).snapshot_bytes(), r is Ok),
    {
        let listed = self.queue.iter();
        proof {
            assert(listed@.map_values(|t: &Todo| t@) =~= task_views(self.queue@));
        }
        match encode_tasks(&listed) {
            Ok(bytes) => {
                self.snapshot = bytes;
                Ok(())
            },
            Err(msg) => Err(TodoError::InvalidData(msg)),
        }
    }

    /// Queues a new task with the next id and the current time, advances the
    /// next id (saturating), and writes a snapshot. Returns the new task.
    pub fn add_task(&mut self, description: String) -> (r: Result<Todo, TodoError>)
        requires
            old(self).wf(),
        ensures
            final(self).wf(),
            final(self).tasks().len() == old(self).tasks().len() + 1,
            final(self).tasks().drop_last() == old(self).tasks(),
            final(self).tasks().last().id == old(self).next_id(),
            final(self).tasks().last().description == description,
            final(self).next_id() == saturating_inc(old(self).next_id()),
            r matches Ok(t) ==> t == final(self).tasks().last(),
            final(self).persisted(old(self).snapshot_bytes(), r is Ok),
    {
        // Assign the next id and capture the creation time.
        let todo = Todo { id: self.next_id, description, created_at: unix_timestamp() };
        let queued = Todo {
            id: todo.id,
            description: todo.description.clone(),
            created_at: todo.created_at,
        };
        self.next_id = self.next_id.saturating_add(1);
        self.queue.enqueue(queued);
        match self.persist() {
            Ok(()) => Ok(todo),
            Err(e) => Err(e),
        }
    }

    /// The pending tasks, oldest first.
    pub fn list_tasks(&self) -> (r: Vec<&Todo>)
        requires
            self.wf(),
        ensures
            r@.len() == self.tasks().len(),
            forall|i: int| 0 <= i < r@.len() ==> *(#[trigger] r@[i]) == self.tasks()[i],
    {
        self.queue.iter()
    }

    /// Removes the oldest task and writes a snapshot. Returns the removed
    /// task, or `None` when there was none.
    pub fn complete_next(&mut self) -> (r: Result<Option<Todo>, TodoError>)
        requires
            old(self).wf(),
        ensures
            final(self).wf(),
            final(self).next_id() == old(self).next_id(),
            old(self).tasks().len() == 0 ==> final(self).tasks() == old(self).tasks() && (r matches Ok(
                x,
            ) ==> x is None),
            old(self).tasks().len() > 0 ==> final(self).tasks() == old(self).tasks().drop_first() && (
            r matches Ok(x) ==> x == Some(old(self).tasks()[0])),
            final(self).persisted(old(self).snapshot_bytes(), r is Ok),
    {
        let completed = self.queue.dequeue();
        match self.persist() {
            Ok(()) => Ok(completed),
            Err(e) => Err(e),
        }
    }

    /// Removes the task at zero-based position `index`, oldest first, and
    /// writes a snapshot. Returns the removed task, or `None` when `index` is
    /// out of range.
    pub fn delete_at(&mut self, index: usize) -> (r: Result<Option<Todo>, TodoError>)
        requires
            old(self).wf(),
        ensures
            final(self).wf(),
            final(self).next_id() == old(self).next_id(),
            index >= old(self).tasks().len() ==> final(self).tasks() == old(self).tasks() && (
            r matches Ok(x) ==> x is None),
            index < old(self).tasks().len() ==> final(self).tasks() == old(self).tasks().remove(
                index as int,
            ) && (r matches Ok(x) ==> x == Some(old(self).tasks()[index as int])),
            final(self).persisted(old(self).snapshot_bytes(), r is Ok),
    {
        let deleted = self.queue.remove_at(index);
        match self.persist() {
            Ok(()) => Ok(deleted),
            Err(e) => Err(e),
        }
    }

    /// Number of pending tasks.
    pub fn len(&self) -> (n: usize)
        requires
            self.wf(),
        ensures
            n == self.tasks().len(),
    {
        self.queue.len()
    }

    /// The snapshot bytes last written: what the backing file should hold.
    pub fn snapshot(&self) -> (r: &[u8])
        ensures
            r@ == self.snapshot_bytes(),
    {
        self.snapshot.as_slice()
    }
}

/// Relies on `std::time::SystemTime::now`: whole seconds since the Unix epoch
/// by the system clock, 0 for a clock set before it. Nothing is known of the
/// value.
#[verifier::external_body]
fn unix_timestamp() -> (r: u64) {
    match std::time::SystemTime::now().duration_since(std::time::UNIX_EPOCH) {
        Ok(d) => d.as_secs(),
        Err(_) => 0,
    }
}

} // verus!
