use std::collections::BTreeMap;
use std::future::Future;

use surrealdb::sql;
use surrealdb::{Datastore, Session};
use todo_store::error::StoreError;
use todo_store::store::{Query, Reply, Store};
use todo_store::take::XTakeVal;
use todo_store::object::Object;
use todo_store::value::{Array, Value};

fn from_engine(v: sql::Value) -> Value {
    match v {
        sql::Value::True => Value::Bool(true),
        sql::Value::False => Value::Bool(false),
        sql::Value::Number(n) => Value::Number(n.as_int()),
        sql::Value::Strand(s) => Value::Strand(s.as_string()),
        sql::Value::Thing(t) => Value::Thing(t.to_string()),
        sql::Value::Array(a) => Value::Array(Array(a.0.into_iter().map(from_engine).collect())),
        sql::Value::Object(o) => {
            let mut out = Object::new();
            for (k, v) in o.0 {
                out.insert(k, from_engine(v));
            }
            Value::Object(out)
        }
        _ => Value::Null,
    }
}

fn to_engine(v: Value) -> sql::Value {
    match v {
        Value::Null => sql::Value::Null,
        Value::Bool(true) => sql::Value::True,
        Value::Bool(false) => sql::Value::False,
        Value::Number(n) => sql::Value::from(n),
        Value::Strand(s) => sql::Value::from(s),
        Value::Thing(t) => sql::Value::from(sql::thing(&t).unwrap()),
        Value::Array(a) => {
            sql::Value::from(a.0.into_iter().map(to_engine).collect::<Vec<sql::Value>>())
        }
        Value::Object(o) => {
            let mut map = BTreeMap::new();
            for (k, v) in o.into_entries() {
                map.insert(k, to_engine(v));
            }
            sql::Value::from(map)
        }
    }
}

struct Engine {
    store: Store,
    ds: Datastore,
    ses: Session,
}

impl Engine {
    async fn open() -> Engine {
        let store = Store::new();
        let ds = Datastore::new(store.path).await.unwrap();
        let ses = Session::for_db(store.ns, store.db);
        Engine { store, ds, ses }
    }

    async fn run(&self, q: Query) -> Vec<Reply> {
        let vars = if q.vars.is_empty() {
            None
        } else {
            let mut map = BTreeMap::new();
            for (k, v) in q.vars {
                map.insert(k, to_engine(v));
            }
            Some(map)
        };
        let res = self.ds.execute(q.sql, &self.ses, vars, q.strict).await.unwrap();
        res.into_iter().map(|r| r.result.map(from_engine)).collect()
    }

    async fn create(&self) -> Result<String, StoreError> {
        let replies = self.run(self.store.create_query()).await;
        self.store.create(replies)
    }

    async fn get(&self, uid: &str) -> Result<Object, StoreError> {
        let replies = self.run(self.store.get_query(uid)?).await;
        self.store.get(replies)
    }

    async fn update(&self, tid: &str) -> Result<String, StoreError> {
        let replies = self.run(self.store.update_query(tid)?).await;
        self.store.update(tid, replies)
    }

    async fn delete(&self, tid: &str) -> Result<String, StoreError> {
        let replies = self.run(self.store.delete_query(tid)?).await;
        self.store.delete(tid, replies)
    }

    async fn list(&self) -> Result<Vec<Object>, StoreError> {
        let replies = self.run(self.store.get_list_query()).await;
        self.store.get_list(replies)
    }
}

fn block_on<F: Future>(f: F) -> F::Output {
    tokio::runtime::Builder::new_current_thread().enable_all().build().unwrap().block_on(f)
}

fn ids_of(rows: Vec<Object>) -> Vec<String> {
    let mut ids = Vec::new();
    for mut row in rows {
        ids.push(row.x_take_val::<String>("id").unwrap());
    }
    ids.sort();
    ids
}

#[test]
fn create_then_get_yields_the_same_identifier() {
    block_on(async {
        let db = Engine::open().await;
        let id = db.create().await.unwrap();
        assert!(id.starts_with("todo:"));
        let mut record = db.get(&id).await.unwrap();
        assert_eq!(record.x_take_val::<String>("id").unwrap(), id);
        assert_eq!(record.x_take_val::<String>("title").unwrap(), "Hello, world!");
        assert_eq!(record.x_take_val::<String>("body").unwrap(), "Hello, SurrealDB with Rust!");
        assert_eq!(record.len(), 0);
    });
}

#[test]
fn update_replaces_title_and_body() {
    block_on(async {
        let db = Engine::open().await;
        let x = db.create().await.unwrap();
        assert_eq!(db.update(&x).await.unwrap(), x);
        let mut record = db.get(&x).await.unwrap();
        assert_eq!(record.x_take_val::<String>("title").unwrap(), "Updated!");
        assert_eq!(record.x_take_val::<String>("body").unwrap(), "An Updated message!");
        assert_eq!(record.x_take_val::<String>("id").unwrap(), x);
    });
}

#[test]
fn delete_echoes_and_removes_the_record() {
    block_on(async {
        let db = Engine::open().await;
        let keep = db.create().await.unwrap();
        let y = db.create().await.unwrap();
        assert_eq!(db.delete(&y).await.unwrap(), y);
        let ids = ids_of(db.list().await.unwrap());
        assert!(!ids.contains(&y));
        assert_eq!(ids, vec![keep]);
    });
}

#[test]
fn list_holds_exactly_the_created_records() {
    block_on(async {
        let db = Engine::open().await;
        let a = db.create().await.unwrap();
        let b = db.create().await.unwrap();
        let c = db.create().await.unwrap();
        let mut expected = vec![a, b, c];
        expected.sort();
        assert_eq!(ids_of(db.list().await.unwrap()), expected);
    });
}

#[test]
fn get_of_an_unknown_record_is_not_an_object() {
    block_on(async {
        let db = Engine::open().await;
        db.create().await.unwrap();
        let r = db.get("todo:nosuchrecord").await;
        assert!(matches!(r, Err(StoreError::XValueNotOfType("Object"))));
    });
}

#[test]
fn update_of_an_unknown_record_creates_it() {
    block_on(async {
        let db = Engine::open().await;
        db.create().await.unwrap();
        assert_eq!(db.update("todo:fresh").await.unwrap(), "todo:fresh");
        let mut record = db.get("todo:fresh").await.unwrap();
        assert_eq!(record.x_take_val::<String>("title").unwrap(), "Updated!");
    });
}

#[test]
fn delete_twice_echoes_twice() {
    block_on(async {
        let db = Engine::open().await;
        let id = db.create().await.unwrap();
        assert_eq!(db.delete(&id).await.unwrap(), id);
        assert_eq!(db.delete(&id).await.unwrap(), id);
        assert!(db.list().await.unwrap().is_empty());
    });
}

#[test]
fn strict_query_before_any_write_is_the_engines_error() {
    block_on(async {
        let db = Engine::open().await;
        assert!(matches!(db.list().await, Err(StoreError::SurrealError(_))));
    });
}

#[test]
fn the_whole_run() {
    block_on(async {
        let db = Engine::open().await;
        let first = db.create().await.unwrap();
        let fetched = db.get(&first).await.unwrap();
        assert_eq!(fetched.get("id"), Some(&Value::Thing(first.clone())));
        let second = db.create().await.unwrap();
        assert_eq!(db.update(&second).await.unwrap(), second);
        let third = db.create().await.unwrap();
        assert_eq!(db.delete(&third).await.unwrap(), third);
        let mut expected = vec![first, second];
        expected.sort();
        assert_eq!(ids_of(db.list().await.unwrap()), expected);
    });
}
