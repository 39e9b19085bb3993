use store::EngineError;
use store::Engine;
use store::Entity;
use store::Error;
use store::Store;
use store::StoreConnection;
use store::StoreError;
use store::TaggedValue;
use store::ToInner;
use store::ToTypedValue;
use store::Variable;

/// A small in-memory engine. Transactions are lines of `define <attr>` or
/// `add <attr> <value>`; a query is `find <attr> <value>`, where the value may
/// be a bound variable.
struct MemoryEngine {
    attributes: Vec<String>,
    datoms: Vec<(i64, String, String)>,
    next_id: i64,
}

impl Engine for MemoryEngine {
    type Raw = String;
    type QueryOutput = Vec<TaggedValue>;
    type Report = Vec<i64>;
    type Schema = Vec<String>;

    fn open_raw(location: &str) -> Result<String, EngineError> {
        if location.ends_with('/') {
            Err(EngineError::new("location is a directory"))
        } else {
            Ok(location.to_string())
        }
    }

    fn connect(raw: &mut String) -> Result<MemoryEngine, EngineError> {
        if raw.starts_with("readonly:") {
            return Err(EngineError::new("cannot create metadata tables"));
        }
        Ok(MemoryEngine { attributes: Vec::new(), datoms: Vec::new(), next_id: 65536 })
    }

    fn query_once(
        &self,
        _raw: &String,
        query: &str,
        inputs: Option<Vec<(Variable, TaggedValue)>>,
    ) -> Result<Vec<TaggedValue>, EngineError> {
        let words: Vec<&str> = query.split_whitespace().collect();
        if words.len() != 3 || words[0] != "find" {
            return Err(EngineError::new("malformed query"));
        }
        let mut value = words[2].to_string();
        if value.starts_with('?') {
            let bound = inputs
                .unwrap_or_default()
                .into_iter()
                .find(|(v, _)| v.name == value)
                .ok_or_else(|| EngineError::new("unbound variable"))?;
            value = bound.1.to_inner();
        }
        Ok(self
            .datoms
            .iter()
            .filter(|(_, a, v)| a == words[1] && *v == value)
            .map(|(e, _, _)| Entity::new(*e).to_typed_value())
            .collect())
    }

    fn transact(&mut self, _raw: &mut String, transaction: &str) -> Result<Vec<i64>, EngineError> {
        let mut attributes = self.attributes.clone();
        let mut datoms = self.datoms.clone();
        let mut next_id = self.next_id;
        let mut created = Vec::new();
        for line in transaction.lines() {
            let words: Vec<&str> = line.split_whitespace().collect();
            match words.as_slice() {
                ["define", attr] => attributes.push(attr.to_string()),
                ["add", attr, value] => {
                    if !attributes.iter().any(|a| a == attr) {
                        return Err(EngineError::new("unknown attribute"));
                    }
                    datoms.push((next_id, attr.to_string(), value.to_string()));
                    created.push(next_id);
                    next_id += 1;
                }
                _ => return Err(EngineError::new("malformed transaction")),
            }
        }
        self.attributes = attributes;
        self.datoms = datoms;
        self.next_id = next_id;
        Ok(created)
    }

    fn current_schema(&self) -> Vec<String> {
        self.attributes.clone()
    }
}

fn ephemeral() -> StoreConnection<MemoryEngine> {
    Store::<MemoryEngine>::new_store(None).unwrap()
}

fn ids(found: Vec<TaggedValue>) -> Vec<i64> {
    found
        .into_iter()
        .map(|v| {
            let e: Option<Entity> = v.to_inner();
            e.unwrap().into_id()
        })
        .collect()
}

#[test]
fn ephemeral_store_transact_then_query() {
    let mut conn = ephemeral();
    assert_eq!(conn.store.uri(), "");
    conn.transact("define :person/name").unwrap();
    let report = conn.transact("add :person/name Alice").unwrap();
    assert_eq!(report.len(), 1);
    let found = ids(conn.query("find :person/name Alice").unwrap());
    assert_eq!(found, vec![report[0]]);
    assert_eq!(conn.fetch_schema().unwrap(), vec![":person/name".to_string()]);
}

#[test]
fn query_with_bound_value() {
    let mut conn = ephemeral();
    conn.transact("define :person/name\nadd :person/name Bob\nadd :person/name Carol").unwrap();
    let inputs = vec![(Variable::new("?name"), "Carol".to_typed_value())];
    let found = ids(conn.query_args("find :person/name ?name", inputs).unwrap());
    assert_eq!(found, vec![65537]);
}

#[test]
fn new_connection_shares_schema_and_data() {
    let mut first = Store::<MemoryEngine>::new_store(Some("people.db".to_string())).unwrap();
    first.transact("define :person/name\nadd :person/name Dana").unwrap();
    let mut second = first.new_connection().unwrap();
    assert_eq!(second.store.uri(), "people.db");
    assert_eq!(second.fetch_schema().unwrap(), first.fetch_schema().unwrap());
    assert_eq!(
        ids(second.query("find :person/name Dana").unwrap()),
        ids(first.query("find :person/name Dana").unwrap())
    );
    // A write through either handle is seen by the other once it completes.
    second.transact("add :person/name Eve").unwrap();
    assert_eq!(ids(first.query("find :person/name Eve").unwrap()), vec![65537]);
}

#[test]
fn engine_failures_are_wrapped() {
    let mut conn = ephemeral();
    match conn.query("nonsense") {
        Err(Error::EngineError(e)) => assert_eq!(e.message, "malformed query"),
        other => panic!("unexpected: {:?}", other),
    }
    match conn.transact("add :person/name Zed") {
        Err(Error::EngineError(e)) => assert_eq!(e.message, "unknown attribute"),
        other => panic!("unexpected: {:?}", other),
    }
    // The failed transaction left nothing behind.
    conn.transact("define :person/name").unwrap();
    assert_eq!(conn.query("find :person/name Zed").unwrap().len(), 0);
}

#[test]
fn open_failures_are_store_errors() {
    match Store::<MemoryEngine>::new_store(Some("/tmp/".to_string())) {
        Err(Error::StoreError(StoreError::OpenFailed(e))) => {
            assert_eq!(e.message, "location is a directory")
        }
        _ => panic!("expected an open failure"),
    }
    match Store::<MemoryEngine>::new_store(Some("readonly:x".to_string())) {
        Err(e) => {
            assert!(matches!(e, Error::StoreError(StoreError::OpenFailed(_))));
            assert!(!e.is_fatal());
        }
        _ => panic!("expected a connect failure"),
    }
}

#[test]
fn only_poisoning_is_fatal() {
    assert!(Error::StoreError(StoreError::LockPoisoned).is_fatal());
    assert!(!Error::EngineError(EngineError::new("x")).is_fatal());
    assert!(!Error::UnexpectedResultType("x".to_string()).is_fatal());
}

#[test]
fn store_description_quotes_location() {
    let conn = Store::<MemoryEngine>::new_store(Some("people.db".to_string())).unwrap();
    assert_eq!(conn.store.debug_string(), "Store at \"people.db\"");
    let odd = Store::<MemoryEngine>::new_store(Some("a\"b".to_string())).unwrap();
    assert_eq!(odd.store.debug_string(), "Store at \"a\\\"b\"");
    assert_eq!(store::store::store_description("\"x\""), "Store at \"x\"");
}
