use vstd::prelude::*;

verus! {

/// Stage of a task. Any stage may follow any other.
#[derive(PartialEq, Eq, Structural, Clone, Copy, Debug)]
pub enum Status {
    Todo,
    Doing,
    Done,
}

/// The stored text of each status.
pub open spec fn status_text(s: Status) -> Seq<char> {
    match s {
        Status::Todo => "Todo"@,
        Status::Doing => "Doing"@,
        Status::Done => "Done"@,
    }
}

/// The status whose stored text is `t`, if any.
pub open spec fn status_of_text(t: Seq<char>) -> Option<Status> {
    if t == status_text(Status::Todo) {
        Some(Status::Todo)
    } else if t == status_text(Status::Doing) {
        Some(Status::Doing)
    } else if t == status_text(Status::Done) {
        Some(Status::Done)
    } else {
        None
    }
}

/// Character-wise equality of two strings.
fn same_text(a: &str, b: &str) -> (r: bool)
    ensures
        r == (a@ == b@),
{
    let n = a.unicode_len();
    if n != b.unicode_len() {
        return false;
    }
    let mut i: usize = 0;
    while i < n
        invariant
            n == a@.len(),
            n == b@.len(),
            i <= n,
            forall|j: int| 0 <= j < i ==> a@[j] == b@[j],
        decreases n - i,
    {
        if a.get_char(i) != b.get_char(i) {
            return false;
        }
        i = i + 1;
    }
    assert(a@ =~= b@);
    true
}

impl Status {
    /// The text under which the status is stored.
    pub fn as_text(&self) -> (r: &'static str)
        ensures
            r@ == status_text(*self),
    {
        match self {
            Status::Todo => "Todo",
            Status::Doing => "Doing",
            Status::Done => "Done",
        }
    }

    /// Reads a stored status back; any other text is rejected.
    pub fn from_text(t: &str) -> (r: Option<Status>)
        ensures
            r == status_of_text(t@),
    {
        if same_text(t, "Todo") {
            Some(Status::Todo)
        } else if same_text(t, "Doing") {
            Some(Status::Doing)
        } else if same_text(t, "Done") {
            Some(Status::Done)
        } else {
            None
        }
    }
}

/// Reading back the text of a status gives that status, and only the
/// text of a status reads back as it.
pub proof fn lemma_status_text_round_trip(s: Status, t: Seq<char>)
    ensures
        status_of_text(status_text(s)) == Some(s),
        status_of_text(t) == Some(s) ==> t == status_text(s),
{
    reveal_strlit("Todo");
    reveal_strlit("Doing");
    reveal_strlit("Done");
    assert(status_text(Status::Todo).len() != status_text(Status::Doing).len());
    assert(status_text(Status::Done).len() != status_text(Status::Doing).len());
    assert(status_text(Status::Todo)[0] != status_text(Status::Done)[0]);
}

/// The body of a create or update request.
pub struct CreateTask {
    pub title: String,
    pub description: String,
}

impl CreateTask {
    pub fn new(title: String, description: String) -> (r: CreateTask)
        ensures
            r.title@ == title@,
            r.description@ == description@,
    {
        CreateTask { title, description }
    }
}

/// A stored task. Timestamps are microseconds since the Unix epoch, UTC.
pub struct Task {
    pub id: u128,
    pub title: String,
    pub description: String,
    pub status: Status,
    pub created_at: i64,
    pub updated_at: i64,
}

/// What a task holds, as plain values.
pub struct TaskView {
    pub id: u128,
    pub title: Seq<char>,
    pub description: Seq<char>,
    pub status: Status,
    pub created_at: i64,
    pub updated_at: i64,
}

impl View for Task {
    type V = TaskView;

    open spec fn view(&self) -> TaskView {
        TaskView {
            id: self.id,
            title: self.title@,
            description: self.description@,
            status: self.status,
            created_at: self.created_at,
            updated_at: self.updated_at,
        }
    }
}

/// A task as the create operation makes it: status `Todo`, both stamps at `now`.
pub open spec fn fresh_task(id: u128, title: Seq<char>, description: Seq<char>, now: i64) -> TaskView {
    TaskView {
        id,
        title,
        description,
        status: Status::Todo,
        created_at: now,
        updated_at: now,
    }
}

/// A task after an update: new title and description, `updated_at` refreshed,
/// everything else kept.
pub open spec fn revised(t: TaskView, title: Seq<char>, description: Seq<char>, now: i64) -> TaskView {
    TaskView { title, description, updated_at: now, ..t }
}

/// Bits that mark a random (version 4, RFC 4122 variant) identifier.
pub open spec fn is_v4_id(id: u128) -> bool {
    id & 0xF000C000000000000000u128 == 0x40008000000000000000u128
}

/// Relies on uuid::Uuid::new_v4 (random bits with the version and variant bits
/// set) and Uuid::as_u128 (the 128 bits, big-endian).
#[verifier::external_body]
fn random_id() -> (r: u128)
    ensures
        is_v4_id(r),
{
    uuid::Uuid::new_v4().as_u128()
}

/// Relies on chrono::Utc::now and DateTime::timestamp_micros: the current time
/// as microseconds since the Unix epoch. Nothing is known of its value.
#[verifier::external_body]
fn now_micros() -> (r: i64) {
    chrono::Utc::now().timestamp_micros()
}

impl Task {
    /// A new task from its parts, as the create operation makes it.
    pub fn from_parts(id: u128, title: String, description: String, now: i64) -> (r: Task)
        ensures
            r@ == fresh_task(id, title@, description@, now),
    {
        Task { id, title, description, status: Status::Todo, created_at: now, updated_at: now }
    }

    /// A new task with a fresh random identifier, stamped with the current time.
    pub fn new(title: String, description: String) -> (r: Task)
        ensures
            is_v4_id(r.id),
            r@ == fresh_task(r.id, title@, description@, r.created_at),
    {
        let now = now_micros();
        let id = random_id();
        Task::from_parts(id, title, description, now)
    }

    /// A copy of the task.
    pub fn copied(&self) -> (r: Task)
        ensures
            r@ == self@,
    {
        Task {
            id: self.id,
            title: self.title.clone(),
            description: self.description.clone(),
            status: self.status,
            created_at: self.created_at,
            updated_at: self.updated_at,
        }
    }

    /// Sets title and description from `payload` and refreshes `updated_at`.
    pub fn revise(&mut self, payload: &CreateTask, now: i64)
        ensures
            final(self)@ == revised(old(self)@, payload.title@, payload.description@, now),
    {
        self.title = payload.title.clone();
        self.description = payload.description.clone();
        self.updated_at = now;
    }
}

/// A task just made carries equal stamps; after an update at a later time
/// `updated_at` is past `created_at`, and the identifier, status and
/// `created_at` are as they were.
pub proof fn lemma_stamps(id: u128, t0: Seq<char>, d0: Seq<char>, created: i64, t1: Seq<char>, d1: Seq<char>, now: i64)
    requires
        now > created,
    ensures
        fresh_task(id, t0, d0, created).created_at == fresh_task(id, t0, d0, created).updated_at,
        ({
            let u = revised(fresh_task(id, t0, d0, created), t1, d1, now);
            &&& u.updated_at > u.created_at
            &&& u.id == id
            &&& u.status == Status::Todo
            &&& u.created_at == created
            &&& u.title == t1
            &&& u.description == d1
        }),
{
}

} // verus!
