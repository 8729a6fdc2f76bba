use vstd::prelude::*;

verus! {

/// One task of the queue.
#[derive(Debug, Clone)]
pub struct Todo {
    pub id: u64,
    pub description: String,
    pub created_at: u64,
}

impl View for Todo {
    /// `(id, description, created_at)`.
    type V = (u64, Seq<char>, u64);

    open spec fn view(&self) -> (u64, Seq<char>, u64) {
        (self.id, self.description@, self.created_at)
    }
}

/// The plain values of a sequence of tasks, in order.
pub open spec fn task_views(tasks: Seq<Todo>) -> Seq<(u64, Seq<char>, u64)> {
    tasks.map_values(|t: Todo| t@)
}

/// What borsh writes for a sequence of `(id, description, created_at)`
/// triples, or `None` where it refuses (a length that does not fit in 32
/// bits).
pub uninterp spec fn borsh_tasks(tasks: Seq<(u64, Seq<char>, u64)>) -> Option<Seq<u8>>;

/// The bytes of a snapshot of `tasks`, where one can be written.
pub open spec fn snapshot_of(tasks: Seq<Todo>) -> Option<Seq<u8>> {
    borsh_tasks(task_views(tasks))
}

/// Relies on `borsh::to_vec` on a `Vec` of `(id, description, created_at)`
/// tuples: the bytes it writes, which are those of a `Vec` of structs with
/// these fields in this order and start with the 4-byte length, or its error
/// message.
#[verifier::external_body]
pub(crate) fn encode_tasks(tasks: &Vec<&Todo>) -> (r: Result<Vec<u8>, String>)
    ensures
        match r {
            Ok(b) => borsh_tasks(tasks@.map_values(|t: &Todo| t@)) == Some(b@) && b@.len() >= 4,
            Err(_) => borsh_tasks(tasks@.map_values(|t: &Todo| t@)) is None,
        },
{
    let rows: Vec<(u64, &str, u64)> = tasks.iter().map(
        |t| (t.id, t.description.as_str(), t.created_at),
    ).collect();
    borsh::to_vec(&rows).map_err(|e| e.to_string())
}

/// Relies on `borsh::from_slice` for a `Vec` of `(id, description,
/// created_at)` tuples: bytes that `borsh::to_vec` wrote for some triples
/// read back as exactly those triples.
#[verifier::external_body]
pub(crate) fn decode_tasks(bytes: &[u8]) -> (r: Result<Vec<Todo>, String>)
    ensures
        forall|ts: Seq<(u64, Seq<char>, u64)>|
            #[trigger] borsh_tasks(ts) == Some(bytes@) ==> r is Ok && task_views(r->Ok_0@) == ts,
{
    let rows: Vec<(u64, String, u64)> = borsh::from_slice(bytes).map_err(|e| e.to_string())?;
    Ok(rows.into_iter().map(|(id, description, created_at)| Todo { id, description, created_at }).collect())
}

} // verus!
