//! The resource server's handlers' replies.

use vstd::prelude::*;
use crate::shared::json::Json;
use crate::shared::responses::{ApiSuccess, STATUS_OK};

verus! {

/// The health check: `200` with an empty object.
pub fn get_health() -> (res: ApiSuccess)
    ensures
        res.code == STATUS_OK,
        res.data matches Json::Object(m) && m@.len() == 0,
{
    ApiSuccess::empty()
}

/// `j` is `{"name": <name>, "completed": <completed>}`.
pub open spec fn is_todo_json(j: Json, name: Seq<char>, completed: bool) -> bool {
    match j {
        Json::Object(m) => m@.len() == 2 && m@[0].0@ == "name"@ && (m@[0].1 matches Json::Str(t) && t@
            == name) && m@[1].0@ == "completed"@ && m@[1].1 == Json::Bool(completed),
        _ => false,
    }
}

/// The todo list of a session's user: `200` with one open todo, "Clean garage".
pub fn get_todos() -> (res: ApiSuccess)
    ensures
        res.code == STATUS_OK,
        res.data matches Json::Object(m) && m@.len() == 1 && m@[0].0@ == "todos"@ && (m@[0].1 matches Json::Array(a)
            && a@.len() == 1 && is_todo_json(a@[0], "Clean garage"@, false)),
{
    let todo = Json::pair("name", Json::text("Clean garage"), "completed", Json::Bool(false));
    let mut list: Vec<Json> = Vec::new();
    list.push(todo);
    ApiSuccess::ok(Json::single("todos", Json::Array(list)))
}

} // verus!
