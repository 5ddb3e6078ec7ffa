use vstd::prelude::*;

use crate::table::{
    delete_rows, has_id, lemma_delete_missing, lemma_update_missing_changes_nothing, matched,
    update_rows,
};
use crate::task::{Task, TaskView};

verus! {

pub const OK: u16 = 200;
pub const CREATED: u16 = 201;
pub const NO_CONTENT: u16 = 204;
pub const NOT_FOUND: u16 = 404;
pub const INTERNAL_SERVER_ERROR: u16 = 500;

/// A failed database statement. Every cause is treated alike.
#[derive(PartialEq, Eq, Structural, Clone, Copy, Debug)]
pub struct StoreError;

/// The response code for a statement matched by identifier: `found` when
/// it matched a row, NOT_FOUND when it matched none, INTERNAL_SERVER_ERROR
/// when it failed.
pub open spec fn matched_code(outcome: Result<u64, StoreError>, found: u16) -> u16 {
    match outcome {
        Ok(n) => if n == 0 { NOT_FOUND } else { found },
        Err(_) => INTERNAL_SERVER_ERROR,
    }
}

/// Liveness probe: always OK.
pub fn health_check() -> (r: u16)
    ensures
        r == OK,
{
    OK
}

/// The response to a create request, once the insert of `task` has run:
/// the task with CREATED, or INTERNAL_SERVER_ERROR if the insert failed.
pub fn create_task(task: Task, outcome: Result<u64, StoreError>) -> (r: Result<(u16, Task), u16>)
    ensures
        outcome.is_ok() ==> r.is_ok() && r.unwrap().0 == CREATED && r.unwrap().1@ == task@,
        outcome.is_err() ==> r == Err::<(u16, Task), u16>(INTERNAL_SERVER_ERROR),
{
    match outcome {
        Ok(_) => Ok((CREATED, task)),
        Err(_) => Err(INTERNAL_SERVER_ERROR),
    }
}

/// The response to a list request, once the select has run: the rows as
/// they came, or INTERNAL_SERVER_ERROR if the select failed.
pub fn read_tasks(outcome: Result<Vec<Task>, StoreError>) -> (r: Result<Vec<Task>, u16>)
    ensures
        match outcome {
            Ok(v) => r.is_ok() && r.unwrap()@ == v@,
            Err(_) => r == Err::<Vec<Task>, u16>(INTERNAL_SERVER_ERROR),
        },
{
    match outcome {
        Ok(v) => Ok(v),
        Err(_) => Err(INTERNAL_SERVER_ERROR),
    }
}

/// The response to an update request from the number of rows it matched:
/// OK, NOT_FOUND when none matched, INTERNAL_SERVER_ERROR on failure.
pub fn update_task(outcome: Result<u64, StoreError>) -> (r: u16)
    ensures
        r == matched_code(outcome, OK),
{
    match outcome {
        Ok(n) => if n == 0 { NOT_FOUND } else { OK },
        Err(_) => INTERNAL_SERVER_ERROR,
    }
}

/// The response to a delete request from the number of rows it matched:
/// NO_CONTENT, NOT_FOUND when none matched, INTERNAL_SERVER_ERROR on failure.
pub fn delete_task(outcome: Result<u64, StoreError>) -> (r: u16)
    ensures
        r == matched_code(outcome, NO_CONTENT),
{
    match outcome {
        Ok(n) => if n == 0 { NOT_FOUND } else { NO_CONTENT },
        Err(_) => INTERNAL_SERVER_ERROR,
    }
}

/// Updating or deleting an identifier that no row carries answers
/// NOT_FOUND and leaves the rows as they were.
pub proof fn lemma_missing_is_not_found(rows: Seq<TaskView>, id: u128, title: Seq<char>, description: Seq<char>, now: i64)
    requires
        !has_id(rows, id),
    ensures
        matched_code(Ok(matched(rows, id)), OK) == NOT_FOUND,
        matched_code(Ok(matched(rows, id)), NO_CONTENT) == NOT_FOUND,
        update_rows(rows, id, title, description, now) == rows,
        delete_rows(rows, id) == rows,
{
    lemma_update_missing_changes_nothing(rows, id, title, description, now);
    lemma_delete_missing(rows, id);
}

/// Updating or deleting an identifier that a row carries answers OK and
/// NO_CONTENT.
pub proof fn lemma_existing_is_found(rows: Seq<TaskView>, id: u128)
    requires
        has_id(rows, id),
    ensures
        matched_code(Ok(matched(rows, id)), OK) == OK,
        matched_code(Ok(matched(rows, id)), NO_CONTENT) == NO_CONTENT,
{
}

} // verus!
