use std::sync::Arc;
use std::sync::RwLock;
use std::sync::RwLockReadGuard;
use std::sync::RwLockWriteGuard;

use vstd::prelude::*;

use crate::errors::from_engine;
use crate::errors::from_open;
use crate::errors::or_poisoned;
use crate::errors::EngineError;
use crate::errors::Error;
use crate::errors::StoreError;
use crate::value::TaggedValue;

verus! {

#[verifier::external_type_specification]
#[verifier::external_body]
#[verifier::reject_recursive_types(T)]
pub struct ExRwLock<T: ?Sized>(std::sync::RwLock<T>);

#[verifier::external_type_specification]
#[verifier::external_body]
#[verifier::reject_recursive_types(T)]
pub struct ExRwLockReadGuard<'a, T: ?Sized>(std::sync::RwLockReadGuard<'a, T>);

#[verifier::external_type_specification]
#[verifier::external_body]
#[verifier::reject_recursive_types(T)]
pub struct ExRwLockWriteGuard<'a, T: ?Sized + 'a>(std::sync::RwLockWriteGuard<'a, T>);

/// Relies on `RwLock::new`: an unlocked, unpoisoned lock around the value.
#[verifier::external_body]
fn new_lock<T>(value: T) -> RwLock<T> {
    RwLock::new(value)
}

/// Relies on `RwLock::read`: blocks until no writer holds the lock, then holds
/// it shared; `None` when the lock is poisoned.
#[verifier::external_body]
fn lock_shared<T>(lock: &RwLock<T>) -> Option<RwLockReadGuard<'_, T>> {
    lock.read().ok()
}

/// Relies on `RwLock::write`: blocks until no one else holds the lock, then
/// holds it alone; `None` when the lock is poisoned.
#[verifier::external_body]
fn lock_exclusive<T>(lock: &RwLock<T>) -> Option<RwLockWriteGuard<'_, T>> {
    lock.write().ok()
}

/// Relies on `RwLockReadGuard`'s `Deref`: the value that the lock guards.
#[verifier::external_body]
fn shared_value<'a, 'b, T>(guard: &'b RwLockReadGuard<'a, T>) -> &'b T {
    &*guard
}

/// Relies on `RwLockWriteGuard`'s `DerefMut`: the value that the lock guards.
#[verifier::external_body]
fn exclusive_value<'a, 'b, T>(guard: &'b mut RwLockWriteGuard<'a, T>) -> &'b mut T {
    &mut *guard
}

/// Relies on `Arc::clone`: another pointer to the same allocation.
#[verifier::external_body]
fn share_pointer<T>(a: &Arc<T>) -> (r: Arc<T>)
    ensures
        r == *a,
{
    Arc::clone(a)
}

/// What `str`'s `Debug` writes for a text: the text in double quotes, with
/// escapes.
pub uninterp spec fn debug_quoted(s: Seq<char>) -> Seq<char>;

/// Relies on `str`'s `Debug` (through `format!("{:?}")`): the result depends on
/// the text alone.
#[verifier::external_body]
fn quoted(s: &str) -> (r: String)
    ensures
        r@ == debug_quoted(s@),
{
    format!("{:?}", s)
}

/// `Store at` followed by an already quoted location.
pub fn store_description(quoted_location: &str) -> (r: String)
    ensures
        r@ == "Store at "@ + quoted_location@,
{
    let mut text = String::from_str("Store at ");
    text.append(quoted_location);
    proof {
        reveal_strlit("Store at ");
    }
    text
}

/// A query variable, such as `?name`.
#[derive(Debug)]
pub struct Variable {
    pub name: String,
}

impl Variable {
    pub fn new(name: &str) -> (r: Variable)
        ensures
            r.name@ == name@,
    {
        Variable { name: name.to_owned() }
    }
}

/// A raw handle that knows the location it was opened at.
pub trait Located {
    spec fn opened_at(&self) -> Seq<char>;
}

/// A handle that is its location, as for an engine that keeps its data in
/// memory and names it by location.
impl Located for String {
    open spec fn opened_at(&self) -> Seq<char> {
        self@
    }
}

/// The embedded engine that the store forwards to. An implementation is the
/// engine's managed connection (which tracks schema and metadata); it works
/// over raw handles to the backing file.
pub trait Engine: Sized {
    /// An unmanaged connection to the backing file.
    type Raw: Located;

    type QueryOutput;

    /// What a successful transaction applied.
    type Report;

    /// The current schema, as a structured value.
    type Schema;

    /// Opens, or creates, the file at `location`; an empty location gives an
    /// ephemeral store.
    fn open_raw(location: &str) -> (r: Result<Self::Raw, EngineError>)
        ensures
            r matches Ok(raw) ==> raw.opened_at() == location@,
    ;

    /// Establishes a managed connection over a raw handle, which stays at its
    /// location.
    fn connect(raw: &mut Self::Raw) -> (r: Result<Self, EngineError>)
        ensures
            final(raw).opened_at() == old(raw).opened_at(),
    ;

    fn query_once(
        &self,
        raw: &Self::Raw,
        query: &str,
        inputs: Option<Vec<(Variable, TaggedValue)>>,
    ) -> Result<Self::QueryOutput, EngineError>;

    /// Applies a transaction, all of it or nothing.
    fn transact(&mut self, raw: &mut Self::Raw, transaction: &str) -> (r: Result<
        Self::Report,
        EngineError,
    >)
        ensures
            final(raw).opened_at() == old(raw).opened_at(),
    ;

    fn current_schema(&self) -> Self::Schema;
}

/// The location that an optional location string stands for: none is the
/// empty location.
pub open spec fn resolved_location(uri: Option<String>) -> Seq<char> {
    match uri {
        Some(s) => s@,
        None => Seq::empty(),
    }
}

/// The failures of opening a location.
pub open spec fn is_open_failure(e: Error) -> bool {
    e matches Error::StoreError(StoreError::OpenFailed(_))
}

/// The failures of a read or a write through an open store: the engine's, or a
/// poisoned lock.
pub open spec fn is_access_failure(e: Error) -> bool {
    ||| e matches Error::EngineError(_)
    ||| e matches Error::StoreError(StoreError::LockPoisoned)
}

/// One logical database: the engine's managed connection, behind a
/// reader/writer lock and shared by counted reference, with the location it
/// was opened at.
#[verifier::reject_recursive_types(E)]
pub struct Store<E> {
    conn: Arc<RwLock<E>>,
    uri: String,
}

/// A handle for queries and transactions: a raw connection of its own and a
/// share of the store.
#[verifier::reject_recursive_types(E)]
pub struct StoreConnection<E: Engine> {
    pub handle: E::Raw,
    pub store: Store<E>,
}

impl<E: Engine> Store<E> {
    pub closed spec fn location(&self) -> Seq<char> {
        self.uri@
    }

    /// Whether `other` reaches the same guarded connection.
    pub closed spec fn shares_with(&self, other: &Store<E>) -> bool {
        self.conn == other.conn
    }

    /// A description for diagnostics: `Store at` and the quoted location.
    pub fn debug_string(&self) -> (r: String)
        ensures
            r@ == "Store at "@ + debug_quoted(self.location()),
    {
        let location = quoted(self.uri.as_str());
        store_description(location.as_str())
    }

    /// Sharing is an equivalence: handles derived from one another, through
    /// any chain of `new_connection` calls, all reach the same guarded
    /// connection, and so see the same schema and data.
    pub proof fn lemma_sharing_is_equivalence(a: &Store<E>, b: &Store<E>, c: &Store<E>)
        ensures
            a.shares_with(a),
            a.shares_with(b) ==> b.shares_with(a),
            a.shares_with(b) && b.shares_with(c) ==> a.shares_with(c),
    {
    }

    pub fn uri(&self) -> (r: &String)
        ensures
            r@ == self.location(),
    {
        &self.uri
    }

    /// Opens the store at `uri` (none: an ephemeral store) and returns its
    /// first connection.
    pub fn new_store(uri: Option<String>) -> (r: Result<StoreConnection<E>, Error>)
        ensures
            r matches Ok(c) ==> c.location() == resolved_location(uri),
            r matches Ok(c) ==> c.handle.opened_at() == c.location(),
            r matches Err(e) ==> is_open_failure(e),
    {
        let uri_string = match uri {
            Some(s) => s,
            None => String::new(),
        };
        let mut connection = from_open(E::open_raw(uri_string.as_str()))?;
        let store = Store::new(uri_string, &mut connection)?;
        Ok(StoreConnection { handle: connection, store })
    }

    fn new(uri: String, connection: &mut E::Raw) -> (r: Result<Self, Error>)
        ensures
            r matches Ok(s) ==> s.location() == uri@,
            final(connection).opened_at() == old(connection).opened_at(),
            r matches Err(e) ==> is_open_failure(e),
    {
        let c = from_open(E::connect(connection))?;
        Ok(Store { conn: Arc::new(new_lock(c)), uri })
    }

    /// Another reference to the same store.
    fn share(&self) -> (r: Self)
        ensures
            r.location() == self.location(),
            r.shares_with(self),
    {
        Store { conn: share_pointer(&self.conn), uri: self.uri.clone() }
    }
}

impl<E: Engine> StoreConnection<E> {
    pub open spec fn location(&self) -> Seq<char> {
        self.store.location()
    }

    fn query_inputs(
        &self,
        query: &str,
        inputs: Option<Vec<(Variable, TaggedValue)>>,
    ) -> (r: Result<E::QueryOutput, Error>)
        ensures
            r matches Err(e) ==> is_access_failure(e),
    {
        let guard = or_poisoned(lock_shared(&*self.store.conn))?;
        from_engine(shared_value(&guard).query_once(&self.handle, query, inputs))
    }

    /// Runs a query, holding the store's lock shared while it runs.
    pub fn query(&self, query: &str) -> (r: Result<E::QueryOutput, Error>)
        ensures
            r matches Err(e) ==> is_access_failure(e),
    {
        self.query_inputs(query, None)
    }

    /// Runs a query with values bound to its variables, holding the store's
    /// lock shared while it runs.
    pub fn query_args(&self, query: &str, inputs: Vec<(Variable, TaggedValue)>) -> (r: Result<
        E::QueryOutput,
        Error,
    >)
        ensures
            r matches Err(e) ==> is_access_failure(e),
    {
        self.query_inputs(query, Some(inputs))
    }

    /// Applies a transaction, holding the store's lock alone while it runs.
    pub fn transact(&mut self, transaction: &str) -> (r: Result<E::Report, Error>)
        ensures
            final(self).location() == old(self).location(),
            final(self).store.shares_with(&old(self).store),
            final(self).handle.opened_at() == old(self).handle.opened_at(),
            r matches Err(e) ==> is_access_failure(e),
    {
        let mut guard = or_poisoned(lock_exclusive(&*self.store.conn))?;
        from_engine(exclusive_value(&mut guard).transact(&mut self.handle, transaction))
    }

    /// The current schema, read under the store's lock held shared.
    pub fn fetch_schema(&self) -> (r: Result<E::Schema, Error>)
        ensures
            r matches Err(e) ==> e matches Error::StoreError(StoreError::LockPoisoned),
    {
        let guard = or_poisoned(lock_shared(&*self.store.conn))?;
        Ok(shared_value(&guard).current_schema())
    }

    /// A new handle on the same store, with a raw connection of its own opened
    /// at the store's location.
    pub fn new_connection(&self) -> (r: Result<StoreConnection<E>, Error>)
        ensures
            r matches Ok(c) ==> c.location() == self.location() && c.store.shares_with(&self.store),
            r matches Ok(c) ==> c.handle.opened_at() == self.location(),
            r matches Err(e) ==> is_open_failure(e),
    {
        let handle = from_open(E::open_raw(self.store.uri.as_str()))?;
        Ok(StoreConnection { handle, store: self.store.share() })
    }
}

} // verus!
