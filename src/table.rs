use vstd::prelude::*;

use crate::task::{CreateTask, Task, TaskView, revised};

verus! {

/// Whether some row carries identifier `id`.
pub open spec fn has_id(rows: Seq<TaskView>, id: u128) -> bool {
    exists|i: int| 0 <= i < rows.len() && rows[i].id == id
}

/// No two rows share an identifier.
pub open spec fn ids_distinct(rows: Seq<TaskView>) -> bool {
    forall|i: int, j: int| 0 <= i < rows.len() && 0 <= j < rows.len() && i != j ==> rows[i].id != rows[j].id
}

/// The rows after inserting `t`: appended, unless its identifier is taken.
pub open spec fn insert_rows(rows: Seq<TaskView>, t: TaskView) -> Seq<TaskView> {
    if has_id(rows, t.id) {
        rows
    } else {
        rows.push(t)
    }
}

/// The rows after inserting each of `ts` in turn.
pub open spec fn insert_all(rows: Seq<TaskView>, ts: Seq<TaskView>) -> Seq<TaskView>
    decreases ts.len(),
{
    if ts.len() == 0 {
        rows
    } else {
        insert_rows(insert_all(rows, ts.drop_last()), ts.last())
    }
}

/// The rows after updating the row with identifier `id`.
pub open spec fn update_rows(rows: Seq<TaskView>, id: u128, title: Seq<char>, description: Seq<char>, now: i64) -> Seq<TaskView> {
    rows.map_values(|r: TaskView| if r.id == id { revised(r, title, description, now) } else { r })
}

/// The rows after deleting the row with identifier `id`.
pub open spec fn delete_rows(rows: Seq<TaskView>, id: u128) -> Seq<TaskView> {
    rows.filter(|r: TaskView| r.id != id)
}

/// How many rows a statement matched by identifier `id`.
pub open spec fn matched(rows: Seq<TaskView>, id: u128) -> u64 {
    if has_id(rows, id) { 1 } else { 0 }
}

/// The task table: rows in insertion order, identifiers unique.
pub struct TaskTable {
    rows: Vec<Task>,
}

impl View for TaskTable {
    type V = Seq<TaskView>;

    closed spec fn view(&self) -> Seq<TaskView> {
        self.rows@.map_values(|t: Task| t@)
    }
}

impl TaskTable {
    pub open spec fn wf(&self) -> bool {
        ids_distinct(self@)
    }

    /// An empty table.
    pub fn new() -> (r: TaskTable)
        ensures
            r.wf(),
            r@ == Seq::<TaskView>::empty(),
    {
        let r = TaskTable { rows: Vec::new() };
        assert(r@ =~= Seq::<TaskView>::empty());
        r
    }

    /// Number of rows.
    pub fn len(&self) -> (r: usize)
        ensures
            r == self@.len(),
    {
        self.rows.len()
    }

    /// Position of the row with identifier `id`, if any.
    fn find(&self, id: u128) -> (r: Option<usize>)
        requires
            self.wf(),
        ensures
            match r {
                Some(i) => i < self@.len() && self@[i as int].id == id,
                None => !has_id(self@, id),
            },
    {
        let mut i: usize = 0;
        while i < self.rows.len()
            invariant
                i <= self@.len(),
                self@.len() == self.rows@.len(),
                forall|j: int| 0 <= j < i ==> self@[j].id != id,
            decreases self.rows@.len() - i,
        {
            if self.rows[i].id == id {
                return Some(i);
            }
            i = i + 1;
        }
        None
    }

    /// Inserts `task`. An identifier that is already taken is refused and
    /// the table left as it was.
    pub fn insert(&mut self, task: Task) -> (r: bool)
        requires
            old(self).wf(),
        ensures
            final(self).wf(),
            r == !has_id(old(self)@, task.id),
            final(self)@ == insert_rows(old(self)@, task@),
    {
        match self.find(task.id) {
            Some(_) => false,
            None => {
                let ghost before = self@;
                let ghost tv = task@;
                self.rows.push(task);
                assert(self@ =~= before.push(tv));
                true
            },
        }
    }

    /// Copies of all rows, in table order.
    pub fn list(&self) -> (r: Vec<Task>)
        ensures
            r@.map_values(|t: Task| t@) == self@,
    {
        let mut out: Vec<Task> = Vec::new();
        let mut i: usize = 0;
        while i < self.rows.len()
            invariant
                i <= self.rows@.len(),
                out@.len() == i,
                forall|j: int| 0 <= j < i ==> out@[j]@ == self.rows@[j]@,
            decreases self.rows@.len() - i,
        {
            out.push(self.rows[i].copied());
            i = i + 1;
        }
        assert(out@.map_values(|t: Task| t@) =~= self@);
        out
    }

    /// Sets title and description of the row with identifier `id` and
    /// refreshes its `updated_at`. Returns the number of rows that matched.
    pub fn update(&mut self, id: u128, payload: &CreateTask, now: i64) -> (r: u64)
        requires
            old(self).wf(),
        ensures
            final(self).wf(),
            r == matched(old(self)@, id),
            final(self)@ == update_rows(old(self)@, id, payload.title@, payload.description@, now),
    {
        let ghost before = self@;
        match self.find(id) {
            Some(i) => {
                let mut t = self.rows[i].copied();
                t.revise(payload, now);
                self.rows.set(i, t);
                assert(self@ =~= update_rows(before, id, payload.title@, payload.description@, now));
                1
            },
            None => {
                assert(self@ =~= update_rows(before, id, payload.title@, payload.description@, now));
                0
            },
        }
    }

    /// Removes the row with identifier `id`. Returns the number of rows that
    /// matched.
    pub fn delete(&mut self, id: u128) -> (r: u64)
        requires
            old(self).wf(),
        ensures
            final(self).wf(),
            r == matched(old(self)@, id),
            final(self)@ == delete_rows(old(self)@, id),
    {
        let ghost before = self@;
        match self.find(id) {
            Some(i) => {
                self.rows.remove(i);
                proof {
                    lemma_remove_is_filter(before, i as int);
                }
                assert(self@ =~= before.remove(i as int));
                1
            },
            None => {
                proof {
                    lemma_filter_keeps_all(before, id);
                }
                0
            },
        }
    }
}

/// Starting from an empty table, inserting tasks whose identifiers are
/// distinct keeps every one of them: the table lists exactly those tasks,
/// in the order they were inserted (none after none).
pub proof fn lemma_inserts_all_kept(ts: Seq<TaskView>)
    requires
        ids_distinct(ts),
    ensures
        insert_all(Seq::<TaskView>::empty(), ts) == ts,
        insert_all(Seq::<TaskView>::empty(), ts).len() == ts.len(),
        forall|i: int| 0 <= i < ts.len() ==> has_id(insert_all(Seq::<TaskView>::empty(), ts), #[trigger] ts[i].id),
    decreases ts.len(),
{
    if ts.len() > 0 {
        let front = ts.drop_last();
        assert(ids_distinct(front));
        lemma_inserts_all_kept(front);
        assert(!has_id(front, ts.last().id)) by {
            if has_id(front, ts.last().id) {
                let k = choose|k: int| 0 <= k < front.len() && front[k].id == ts.last().id;
                assert(ts[k].id == ts[ts.len() - 1].id);
            }
        }
        assert(front.push(ts.last()) =~= ts);
    }
    assert forall|i: int| 0 <= i < ts.len() implies has_id(insert_all(Seq::<TaskView>::empty(), ts), #[trigger] ts[i].id) by {
        assert(insert_all(Seq::<TaskView>::empty(), ts)[i].id == ts[i].id);
    }
}

/// Every table operation keeps identifiers unique.
pub proof fn lemma_ops_keep_ids_distinct(rows: Seq<TaskView>, t: TaskView, id: u128, title: Seq<char>, description: Seq<char>, now: i64)
    requires
        ids_distinct(rows),
    ensures
        ids_distinct(insert_rows(rows, t)),
        ids_distinct(update_rows(rows, id, title, description, now)),
        ids_distinct(delete_rows(rows, id)),
{
    if !has_id(rows, t.id) {
        let r = rows.push(t);
        assert forall|i: int, j: int| 0 <= i < r.len() && 0 <= j < r.len() && i != j implies r[i].id != r[j].id by {
            if i == rows.len() {
                assert(rows[j].id != t.id);
            } else if j == rows.len() {
                assert(rows[i].id != t.id);
            }
        }
    }
    let u = update_rows(rows, id, title, description, now);
    assert forall|i: int, j: int| 0 <= i < u.len() && 0 <= j < u.len() && i != j implies u[i].id != u[j].id by {
        assert(u[i].id == rows[i].id);
        assert(u[j].id == rows[j].id);
    }
    if has_id(rows, id) {
        let k = choose|k: int| 0 <= k < rows.len() && rows[k].id == id;
        lemma_remove_is_filter(rows, k);
        let d = rows.remove(k);
        assert forall|i: int, j: int| 0 <= i < d.len() && 0 <= j < d.len() && i != j implies d[i].id != d[j].id by {
            let a = if i < k { i } else { i + 1 };
            let b = if j < k { j } else { j + 1 };
            assert(d[i] == rows[a]);
            assert(d[j] == rows[b]);
        }
    } else {
        lemma_filter_keeps_all(rows, id);
    }
}

/// Updating an identifier that no row carries changes nothing.
pub proof fn lemma_update_missing_changes_nothing(rows: Seq<TaskView>, id: u128, title: Seq<char>, description: Seq<char>, now: i64)
    requires
        !has_id(rows, id),
    ensures
        update_rows(rows, id, title, description, now) == rows,
{
    let u = update_rows(rows, id, title, description, now);
    assert forall|i: int| 0 <= i < rows.len() implies u[i] == rows[i] by {
        assert(rows[i].id != id);
    }
    assert(u =~= rows);
}

/// Updating the row with identifier `id` sets exactly its title,
/// description and `updated_at`; its identifier, status and `created_at`
/// stay, and every other row stays as it was.
pub proof fn lemma_update_existing(rows: Seq<TaskView>, i: int, title: Seq<char>, description: Seq<char>, now: i64)
    requires
        ids_distinct(rows),
        0 <= i < rows.len(),
    ensures
        ({
            let u = update_rows(rows, rows[i].id, title, description, now);
            &&& u.len() == rows.len()
            &&& u[i].id == rows[i].id
            &&& u[i].title == title
            &&& u[i].description == description
            &&& u[i].updated_at == now
            &&& u[i].status == rows[i].status
            &&& u[i].created_at == rows[i].created_at
            &&& forall|j: int| 0 <= j < rows.len() && j != i ==> u[j] == rows[j]
        }),
{
    let u = update_rows(rows, rows[i].id, title, description, now);
    assert forall|j: int| 0 <= j < rows.len() && j != i implies u[j] == rows[j] by {
        assert(rows[j].id != rows[i].id);
    }
}

/// Deleting an identifier that a row carries removes that row alone, so
/// the identifier is no longer listed; deleting one that no row carries
/// changes nothing.
pub proof fn lemma_delete(rows: Seq<TaskView>, id: u128)
    requires
        ids_distinct(rows),
    ensures
        !has_id(delete_rows(rows, id), id),
        has_id(rows, id) ==> delete_rows(rows, id).len() == rows.len() - 1,
        !has_id(rows, id) ==> delete_rows(rows, id) == rows,
{
    if has_id(rows, id) {
        let k = choose|k: int| 0 <= k < rows.len() && rows[k].id == id;
        lemma_remove_is_filter(rows, k);
        let d = rows.remove(k);
        if has_id(d, id) {
            let m = choose|m: int| 0 <= m < d.len() && d[m].id == id;
            let a = if m < k { m } else { m + 1 };
            assert(d[m] == rows[a]);
        }
    } else {
        lemma_filter_keeps_all(rows, id);
    }
}

/// Deleting an identifier that no row carries changes nothing.
pub proof fn lemma_delete_missing(rows: Seq<TaskView>, id: u128)
    requires
        !has_id(rows, id),
    ensures
        delete_rows(rows, id) == rows,
{
    lemma_filter_keeps_all(rows, id);
}

proof fn lemma_filter_keeps_all(rows: Seq<TaskView>, id: u128)
    requires
        !has_id(rows, id),
    ensures
        delete_rows(rows, id) == rows,
    decreases rows.len(),
{
    reveal(Seq::filter);
    if rows.len() > 0 {
        assert(!has_id(rows.drop_last(), id)) by {
            if has_id(rows.drop_last(), id) {
                let k = choose|k: int| 0 <= k < rows.drop_last().len() && rows.drop_last()[k].id == id;
                assert(rows[k].id == id);
            }
        }
        lemma_filter_keeps_all(rows.drop_last(), id);
        assert(rows.drop_last().push(rows.last()) =~= rows);
    }
}

proof fn lemma_remove_is_filter(rows: Seq<TaskView>, i: int)
    requires
        ids_distinct(rows),
        0 <= i < rows.len(),
    ensures
        delete_rows(rows, rows[i].id) == rows.remove(i),
    decreases rows.len(),
{
    reveal(Seq::filter);
    let id = rows[i].id;
    let front = rows.drop_last();
    if i == rows.len() - 1 {
        assert(!has_id(front, id)) by {
            if has_id(front, id) {
                let k = choose|k: int| 0 <= k < front.len() && front[k].id == id;
                assert(rows[k].id == id);
            }
        }
        lemma_filter_keeps_all(front, id);
        assert(rows.remove(i) =~= front);
    } else {
        assert(ids_distinct(front));
        lemma_remove_is_filter(front, i);
        assert(rows.remove(i) =~= front.remove(i).push(rows.last()));
    }
}

} // verus!
