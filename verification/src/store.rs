use crate::error::StoreError;
use crate::object::Object;
use crate::take::XTakeVal;
use crate::thing::{is_plain, parse_thing, thing_text};
use crate::value::{first_row, Array, Value};
use crate::W;
use vstd::prelude::*;

verus! {

/// The statement that inserts a record with the default title and body.
pub const CREATE_SQL: &'static str =
    "CREATE todo SET title = 'Hello, world!', body = 'Hello, SurrealDB with Rust!'";

/// The statement that selects the record whose identifier is bound to `$id`.
pub const GET_SQL: &'static str = "SELECT * FROM todo WHERE id = $id";

/// The statement that merges the replacement title and body into the record
/// bound to `$th` and returns its identifier.
pub const UPDATE_SQL: &'static str =
    "UPDATE $th MERGE { body: 'An Updated message!', title: 'Updated!' } RETURN id";

/// The statement that deletes the record bound to `$th`.
pub const DELETE_SQL: &'static str = "DELETE $th";

/// The statement that selects every record of the collection.
pub const LIST_SQL: &'static str = "SELECT * FROM todo";

/// One statement for the engine: its text, the values bound to its
/// variables, and whether the engine is to run it in strict mode.
pub struct Query {
    pub sql: &'static str,
    pub vars: Vec<(String, Value)>,
    pub strict: bool,
}

impl Query {
    /// Whether the query is the statement `sql` with nothing bound.
    pub open spec fn is_bare(&self, sql: &str, strict: bool) -> bool {
        &&& self.sql@ == sql@
        &&& self.vars@.len() == 0
        &&& self.strict == strict
    }

    /// Whether the query is the statement `sql` with the record identifier
    /// of canonical text `id` bound to the variable `name`, and nothing else.
    pub open spec fn binds(&self, sql: &str, name: Seq<char>, id: Seq<char>, strict: bool) -> bool {
        &&& self.sql@ == sql@
        &&& self.vars@.len() == 1
        &&& self.vars@[0].0@ == name
        &&& self.vars@[0].1 matches Value::Thing(t)
        &&& t@ == id
        &&& self.strict == strict
    }
}

/// What the engine answered to one statement: its result value, or its error.
pub type Reply = Result<Value, surrealdb::Error>;

/// The statement `sql` with the identifier `id` bound to `name`.
fn bound(sql: &'static str, name: &str, id: String, strict: bool) -> (q: Query)
    ensures
        q.binds(sql, name@, id@, strict),
{
    let mut vars: Vec<(String, Value)> = Vec::new();
    vars.push((name.to_owned(), Value::Thing(id)));
    Query { sql, vars, strict }
}

/// Whether `r` is the identifier that a write handed back in `reply`: the
/// engine's error where it reported one; else, where the first row is an
/// object, the text of its `id` field, be it a string or a record identifier,
/// the wrong-type error where `id` holds anything else, and the
/// missing-property error where the row has no `id`; else, where there is no
/// first row or it is no object, the failure that carries `nothing`.
pub open spec fn written_id(reply: Reply, nothing: Seq<char>, r: Result<String, StoreError>) -> bool {
    match reply {
        Err(e) => r == Err::<String, StoreError>(StoreError::SurrealError(e)),
        Ok(v) => match first_row(v) {
            Some(Value::Object(row)) => match row@.get("id"@) {
                Some(Value::Strand(text)) => r == Ok::<String, StoreError>(text),
                Some(Value::Thing(text)) => r == Ok::<String, StoreError>(text),
                Some(_) => r == Err::<String, StoreError>(StoreError::XValueNotOfType("String")),
                None => r matches Err(StoreError::XPropertyNotFound(name)) && name@ == "id"@,
            },
            _ => r matches Err(StoreError::StoreFailToCreate(msg)) && msg@ == nothing,
        },
    }
}

/// Reads the identifier out of what a write handed back.
fn read_written_id(reply: Reply, nothing: String) -> (r: Result<String, StoreError>)
    ensures
        written_id(reply, nothing@, r),
{
    match reply {
        Err(e) => Err(StoreError::SurrealError(e)),
        Ok(v) => match v.first() {
            Some(Value::Object(mut row)) => row.x_take_val::<String>("id"),
            _ => Err(StoreError::StoreFailToCreate(nothing)),
        },
    }
}

/// Whether every element of `items` is an object.
pub open spec fn all_objects(items: Seq<Value>) -> bool {
    forall|i: int| 0 <= i < items.len() ==> items[i] is Object
}

/// The objects that `items` holds, in order.
pub open spec fn objects_of(items: Seq<Value>) -> Seq<Object> {
    items.map_values(|v: Value| v->Object_0)
}

/// The settings of the single session that every operation runs in, and the
/// rules by which each operation asks the engine and reads its answer.
pub struct Store {
    /// Where the engine keeps its data.
    pub path: &'static str,
    /// The namespace of the session.
    pub ns: &'static str,
    /// The database of the session.
    pub db: &'static str,
}

impl Store {
    /// The store in memory, in namespace `test` and database `test`.
    pub fn new() -> (s: Store)
        ensures
            s.path@ == "memory"@,
            s.ns@ == "test"@,
            s.db@ == "test"@,
    {
        Store { path: "memory", ns: "test", db: "test" }
    }

    /// The query that creates a record.
    pub fn create_query(&self) -> (q: Query)
        ensures
            q.is_bare(CREATE_SQL, false),
    {
        Query { sql: CREATE_SQL, vars: Vec::new(), strict: false }
    }

    /// Reads the engine's answer to `create_query`: the new record's
    /// identifier.
    pub fn create(&self, replies: Vec<Reply>) -> (r: Result<String, StoreError>)
        requires
            replies@.len() > 0,
        ensures
            written_id(replies@[0], "exec_create, nothing returned."@, r),
    {
        let mut rest = replies;
        let first = rest.swap_remove(0);
        read_written_id(first, "exec_create, nothing returned.".to_owned())
    }

    /// The query that fetches the record of canonical identifier `id`.
    pub fn get_by(&self, id: String) -> (q: Query)
        ensures
            q.binds(GET_SQL, "id"@, id@, true),
    {
        bound(GET_SQL, "id", id, true)
    }

    /// The query that fetches the record that `uid` names, or the engine's
    /// error where `uid` does not parse as a record identifier.
    pub fn get_query(&self, uid: &str) -> (r: Result<Query, StoreError>)
        requires
            is_plain(uid@),
        ensures
            (match r {
                Ok(q) => thing_text(uid@) matches Some(id) && q.binds(GET_SQL, "id"@, id, true),
                Err(e) => thing_text(uid@).is_none() && e is SurrealError,
            }),
    {
        match parse_thing(uid) {
            Ok(id) => Ok(self.get_by(id)),
            Err(e) => Err(StoreError::SurrealError(e)),
        }
    }

    /// Reads the engine's answer to a `get` query: the first row, which must
    /// be an object.
    pub fn get(&self, replies: Vec<Reply>) -> (r: Result<Object, StoreError>)
        requires
            replies@.len() > 0,
        ensures
            (match replies@[0] {
                Err(e) => r == Err::<Object, StoreError>(StoreError::SurrealError(e)),
                Ok(v) => match first_row(v) {
                    Some(Value::Object(row)) => r == Ok::<Object, StoreError>(row),
                    _ => r == Err::<Object, StoreError>(StoreError::XValueNotOfType("Object")),
                },
            }),
    {
        let mut rest = replies;
        match rest.swap_remove(0) {
            Err(e) => Err(StoreError::SurrealError(e)),
            Ok(v) => match v.first() {
                Some(row) => Object::try_from(W(row)),
                None => Err(StoreError::XValueNotOfType("Object")),
            },
        }
    }

    /// The query that updates the record of canonical identifier `id`.
    pub fn update_by(&self, id: String) -> (q: Query)
        ensures
            q.binds(UPDATE_SQL, "th"@, id@, true),
    {
        bound(UPDATE_SQL, "th", id, true)
    }

    /// The query that updates the record that `tid` names, or the engine's
    /// error where `tid` does not parse as a record identifier.
    pub fn update_query(&self, tid: &str) -> (r: Result<Query, StoreError>)
        requires
            is_plain(tid@),
        ensures
            (match r {
                Ok(q) => thing_text(tid@) matches Some(id) && q.binds(UPDATE_SQL, "th"@, id, true),
                Err(e) => thing_text(tid@).is_none() && e is SurrealError,
            }),
    {
        match parse_thing(tid) {
            Ok(id) => Ok(self.update_by(id)),
            Err(e) => Err(StoreError::SurrealError(e)),
        }
    }

    /// Reads the engine's answer to the update of `tid`: the identifier that
    /// the engine handed back.
    pub fn update(&self, tid: &str, replies: Vec<Reply>) -> (r: Result<String, StoreError>)
        requires
            replies@.len() > 0,
        ensures
            written_id(replies@[0], "exec_merge "@ + tid@ + ", nothing returned."@, r),
    {
        let mut rest = replies;
        let first = rest.swap_remove(0);
        let nothing = String::from_str("exec_merge ").concat(tid).concat(", nothing returned.");
        read_written_id(first, nothing)
    }

    /// The query that deletes the record of canonical identifier `id`.
    pub fn delete_by(&self, id: String) -> (q: Query)
        ensures
            q.binds(DELETE_SQL, "th"@, id@, false),
    {
        bound(DELETE_SQL, "th", id, false)
    }

    /// The query that deletes the record that `tid` names, or the engine's
    /// error where `tid` does not parse as a record identifier.
    pub fn delete_query(&self, tid: &str) -> (r: Result<Query, StoreError>)
        requires
            is_plain(tid@),
        ensures
            (match r {
                Ok(q) => thing_text(tid@) matches Some(id) && q.binds(DELETE_SQL, "th"@, id, false),
                Err(e) => thing_text(tid@).is_none() && e is SurrealError,
            }),
    {
        match parse_thing(tid) {
            Ok(id) => Ok(self.delete_by(id)),
            Err(e) => Err(StoreError::SurrealError(e)),
        }
    }

    /// Reads the engine's answer to the deletion of `tid`: `tid` itself,
    /// unless the engine reported an error. What the engine's result holds
    /// is not looked at.
    pub fn delete(&self, tid: &str, replies: Vec<Reply>) -> (r: Result<String, StoreError>)
        requires
            replies@.len() > 0,
        ensures
            (match replies@[0] {
                Err(e) => r == Err::<String, StoreError>(StoreError::SurrealError(e)),
                Ok(_) => r matches Ok(id) && id@ == tid@,
            }),
    {
        let mut rest = replies;
        match rest.swap_remove(0) {
            Err(e) => Err(StoreError::SurrealError(e)),
            Ok(_) => Ok(tid.to_owned()),
        }
    }

    /// The query that lists every record.
    pub fn get_list_query(&self) -> (q: Query)
        ensures
            q.is_bare(LIST_SQL, true),
    {
        Query { sql: LIST_SQL, vars: Vec::new(), strict: true }
    }

    /// Reads the engine's answer to `get_list_query`: the result must be an
    /// array, and each of its elements an object.
    pub fn get_list(&self, replies: Vec<Reply>) -> (r: Result<Vec<Object>, StoreError>)
        requires
            replies@.len() > 0,
        ensures
            (match replies@[0] {
                Err(e) => r == Err::<Vec<Object>, StoreError>(StoreError::SurrealError(e)),
                Ok(Value::Array(a)) => if all_objects(a@) {
                    r matches Ok(rows) && rows@ == objects_of(a@)
                } else {
                    r == Err::<Vec<Object>, StoreError>(StoreError::XValueNotOfType("Object"))
                },
                Ok(_) => r == Err::<Vec<Object>, StoreError>(StoreError::XValueNotOfType("Array")),
            }),
    {
        let mut rest = replies;
        let value = match rest.swap_remove(0) {
            Err(e) => {
                return Err(StoreError::SurrealError(e));
            },
            Ok(v) => v,
        };
        let array = match Array::try_from(W(value)) {
            Err(e) => {
                return Err(e);
            },
            Ok(a) => a,
        };
        let mut items = array.0;
        let ghost all = items@;
        let mut rows: Vec<Object> = Vec::new();
        let mut i: usize = 0;
        while i < items.len()
            invariant
                i <= items.len(),
                items@.len() == all.len(),
                replies@.len() > 0,
                replies@[0] matches Ok(Value::Array(a)) && a@ == all,
                forall|j: int| i <= j < all.len() ==> items@[j] == all[j],
                forall|j: int| 0 <= j < i ==> all[j] is Object,
                rows@ == objects_of(all.subrange(0, i as int)),
            decreases items.len() - i,
        {
            let mut item = Value::Null;
            items.set_and_swap(i, &mut item);
            match Object::try_from(W(item)) {
                Err(e) => {
                    assert(!(all[i as int] is Object));
                    return Err(e);
                },
                Ok(row) => {
                    rows.push(row);
                },
            }
            assert(all.subrange(0, i + 1) == all.subrange(0, i as int).push(all[i as int]));
            i += 1;
        }
        assert(all.subrange(0, i as int) == all);
        Ok(rows)
    }
}

} // verus!
