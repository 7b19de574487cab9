//! The vocabulary of a service operation: what it asks of the cache and of
//! the store, what can come back, and how it ends.
//!
//! The cache is never the system of record. A read consults it first and
//! fills it after a miss; a write stores what the store answered and drops
//! every list that could now be stale; a delete that the store carried out
//! drops the entry and those lists. A failing cache fails the operation.

use vstd::prelude::*;
use crate::shared::crud_repository::{ProcedureCall, ProcedureCallView};
use crate::shared::db::mysql::FromSqlRow;
use crate::shared::db::row::{ColumnView, MappingError, MappingErrorView, Row, outcome};

verus! {

/// The number of seconds a cache entry lives.
pub const CACHE_TTL_SECONDS: u64 = 3600;

/// A response shape that a service hands out and caches.
pub trait Response: Sized + DeepView {
    /// The entity the response is made from.
    type Entity: FromSqlRow;

    /// The response that shows `entity`, or the column that keeps it from
    /// being shown: a stored entity has an identity of sixteen bytes.
    spec fn of_entity(entity: <Self::Entity as DeepView>::V) -> Result<Self::V, MappingErrorView>;

    /// The cache key of the single entity.
    spec fn key_of(response: Self::V) -> Seq<char>;

    /// The cache keys of the lists that hold the entity.
    spec fn list_keys_of(response: Self::V) -> Seq<Seq<char>>;

    /// Makes the response that shows `entity`.
    fn from_entity(entity: &Self::Entity) -> (r: Result<Self, MappingError>)
        ensures
            outcome(r) == Self::of_entity(entity.deep_view()),
    ;

    /// A copy of the response.
    fn duplicate(&self) -> (r: Self)
        ensures
            r.deep_view() == self.deep_view(),
    ;

    /// The cache key of the single entity.
    fn cache_key(&self) -> (key: String)
        ensures
            key@ == Self::key_of(self.deep_view()),
    ;

    /// The cache keys of the lists that hold the entity.
    fn list_cache_keys(&self) -> (keys: Vec<String>)
        ensures
            keys.deep_view() == Self::list_keys_of(self.deep_view()),
    ;
}

/// Why a service operation failed.
#[derive(Debug, Clone, PartialEq, Eq)]
pub enum ServiceError {
    /// The repository failed. The text names the operation only, never the
    /// cause.
    Repository(String),
    /// The cache failed. The text names the operation only, never the
    /// cause.
    Cache(String),
    /// The request was turned down before anything was written; the text
    /// says why.
    Validation(String),
    /// An event arrived that does not answer the action that was asked for.
    Protocol,
}

/// What a [`ServiceError`] stands for.
pub enum ServiceErrorView {
    Repository(Seq<char>),
    Cache(Seq<char>),
    Validation(Seq<char>),
    Protocol,
}

impl DeepView for ServiceError {
    type V = ServiceErrorView;

    open spec fn deep_view(&self) -> ServiceErrorView {
        match *self {
            ServiceError::Repository(m) => ServiceErrorView::Repository(m@),
            ServiceError::Cache(m) => ServiceErrorView::Cache(m@),
            ServiceError::Validation(m) => ServiceErrorView::Validation(m@),
            ServiceError::Protocol => ServiceErrorView::Protocol,
        }
    }
}

impl View for ServiceError {
    type V = ServiceErrorView;

    open spec fn view(&self) -> ServiceErrorView {
        self.deep_view()
    }
}

/// How a service operation ended.
#[derive(Debug, Clone, PartialEq, Eq)]
pub enum Outcome<R> {
    /// The entity asked for, created or updated.
    Found(R),
    /// The entities of a listing, in the store's order.
    Listed(Vec<R>),
    /// Nothing has the identity asked for. This is no failure.
    NotFound,
    /// The effect took place; there is nothing to show.
    Done,
    Failed(ServiceError),
}

/// What an [`Outcome`] stands for.
pub enum OutcomeView<V> {
    Found(V),
    Listed(Seq<V>),
    NotFound,
    Done,
    Failed(ServiceErrorView),
}

impl<R: DeepView> DeepView for Outcome<R> {
    type V = OutcomeView<R::V>;

    open spec fn deep_view(&self) -> OutcomeView<R::V> {
        match *self {
            Outcome::Found(r) => OutcomeView::Found(r.deep_view()),
            Outcome::Listed(rs) => OutcomeView::Listed(rs.deep_view()),
            Outcome::NotFound => OutcomeView::NotFound,
            Outcome::Done => OutcomeView::Done,
            Outcome::Failed(e) => OutcomeView::Failed(e@),
        }
    }
}

/// The HTTP status that answers a request whose operation ended well.
pub const STATUS_OK: u16 = 200;

/// The HTTP status that answers a request for what does not exist.
pub const STATUS_NOT_FOUND: u16 = 404;

/// The HTTP status that answers a request whose operation failed.
pub const STATUS_INTERNAL_SERVER_ERROR: u16 = 500;

impl<R> Outcome<R> {
    /// The HTTP status that reports the outcome. Not found is told apart
    /// from a failure, and no failure shows its cause.
    pub fn status(&self) -> (status: u16)
        ensures
            status == match *self {
                Outcome::Found(_) | Outcome::Listed(_) | Outcome::Done => STATUS_OK,
                Outcome::NotFound => STATUS_NOT_FOUND,
                Outcome::Failed(_) => STATUS_INTERNAL_SERVER_ERROR,
            },
    {
        match self {
            Outcome::Found(_) => STATUS_OK,
            Outcome::Listed(_) => STATUS_OK,
            Outcome::Done => STATUS_OK,
            Outcome::NotFound => STATUS_NOT_FOUND,
            Outcome::Failed(_) => STATUS_INTERNAL_SERVER_ERROR,
        }
    }
}

/// A cached value: one response or a whole listing.
#[derive(Debug, Clone, PartialEq, Eq)]
pub enum Cached<R> {
    One(R),
    Many(Vec<R>),
}

/// What a [`Cached`] value stands for.
pub enum CachedView<V> {
    One(V),
    Many(Seq<V>),
}

impl<R: DeepView> DeepView for Cached<R> {
    type V = CachedView<R::V>;

    open spec fn deep_view(&self) -> CachedView<R::V> {
        match *self {
            Cached::One(r) => CachedView::One(r.deep_view()),
            Cached::Many(rs) => CachedView::Many(rs.deep_view()),
        }
    }
}

/// What the caller must do next.
#[derive(Debug, Clone, PartialEq, Eq)]
pub enum Action<R> {
    /// Read `key` from the cache and decode one response, or a listing where
    /// `many` is set.
    CacheGet { key: String, many: bool },
    /// Write `value` under `key`, to expire after `ttl` seconds.
    CacheSet { key: String, value: Cached<R>, ttl: Option<u64> },
    /// Delete `key` from the cache.
    CacheDelete { key: String },
    /// Run the procedure call against the store.
    Call(ProcedureCall),
    /// Nothing more: the operation ended.
    Finish(Outcome<R>),
}

/// What an [`Action`] stands for.
pub enum ActionView<V> {
    CacheGet { key: Seq<char>, many: bool },
    CacheSet { key: Seq<char>, value: CachedView<V>, ttl: Option<u64> },
    CacheDelete { key: Seq<char> },
    Call(ProcedureCallView),
    Finish(OutcomeView<V>),
}

impl<R: DeepView> DeepView for Action<R> {
    type V = ActionView<R::V>;

    open spec fn deep_view(&self) -> ActionView<R::V> {
        match *self {
            Action::CacheGet { key, many } => ActionView::CacheGet { key: key@, many },
            Action::CacheSet { key, value, ttl } => ActionView::CacheSet {
                key: key@,
                value: value.deep_view(),
                ttl,
            },
            Action::CacheDelete { key } => ActionView::CacheDelete { key: key@ },
            Action::Call(call) => ActionView::Call(call@),
            Action::Finish(outcome) => ActionView::Finish(outcome.deep_view()),
        }
    }
}

/// What came back from the action that was asked for. A failure carries the
/// message of the client that failed; the message is for the log and never
/// reaches the outcome.
#[derive(Debug, PartialEq, Eq)]
pub enum Event<R> {
    /// The answer to [`Action::CacheGet`]: the decoded value, or none on a
    /// miss.
    Cached(Result<Option<Cached<R>>, String>),
    /// The answer to [`Action::CacheSet`].
    Stored(Result<(), String>),
    /// The answer to [`Action::CacheDelete`].
    Dropped(Result<(), String>),
    /// The answer to a call that only has an effect.
    Executed(Result<(), String>),
    /// The answer to a call for at most one row.
    Row(Result<Option<Row>, String>),
    /// The answer to a call for exactly one row.
    One(Result<Row, String>),
    /// The answer to a call for any number of rows.
    Rows(Result<Vec<Row>, String>),
}

/// What an [`Event`] stands for.
pub enum EventView<V> {
    Cached(Result<Option<CachedView<V>>, Seq<char>>),
    Stored(Result<(), Seq<char>>),
    Dropped(Result<(), Seq<char>>),
    Executed(Result<(), Seq<char>>),
    Row(Result<Option<Seq<ColumnView>>, Seq<char>>),
    One(Result<Seq<ColumnView>, Seq<char>>),
    Rows(Result<Seq<Seq<ColumnView>>, Seq<char>>),
}

impl<R: DeepView> DeepView for Event<R> {
    type V = EventView<R::V>;

    open spec fn deep_view(&self) -> EventView<R::V> {
        match *self {
            Event::Cached(r) => EventView::Cached(outcome(r)),
            Event::Stored(r) => EventView::Stored(outcome(r)),
            Event::Dropped(r) => EventView::Dropped(outcome(r)),
            Event::Executed(r) => EventView::Executed(outcome(r)),
            Event::Row(r) => EventView::Row(outcome(r)),
            Event::One(r) => EventView::One(outcome(r)),
            Event::Rows(r) => EventView::Rows(outcome(r)),
        }
    }
}

/// How the cache takes part in an operation.
#[derive(Debug, Clone, PartialEq, Eq)]
pub enum Policy {
    /// The cache takes no part.
    Bypass,
    /// A read: `key` is looked up first and filled after a miss.
    ReadThrough { key: String },
    /// A create or an update: what the store answered is written under the
    /// entity's own key, and the lists that hold the entity are dropped.
    WriteThrough,
    /// A delete: `keys` are dropped once the store has carried it out.
    Invalidate { keys: Vec<String> },
}

/// What a [`Policy`] stands for.
pub enum PolicyView {
    Bypass,
    ReadThrough { key: Seq<char> },
    WriteThrough,
    Invalidate { keys: Seq<Seq<char>> },
}

impl DeepView for Policy {
    type V = PolicyView;

    open spec fn deep_view(&self) -> PolicyView {
        match *self {
            Policy::Bypass => PolicyView::Bypass,
            Policy::ReadThrough { key } => PolicyView::ReadThrough { key: key@ },
            Policy::WriteThrough => PolicyView::WriteThrough,
            Policy::Invalidate { keys } => PolicyView::Invalidate { keys: keys.deep_view() },
        }
    }
}

impl View for Policy {
    type V = PolicyView;

    open spec fn view(&self) -> PolicyView {
        self.deep_view()
    }
}

/// Everything that is fixed when an operation starts: the store call, the
/// part the cache plays, the lifetime of what is cached, and the text that
/// reports a repository failure.
#[derive(Debug, Clone, PartialEq, Eq)]
pub struct Plan {
    pub call: ProcedureCall,
    pub policy: Policy,
    pub ttl: Option<u64>,
    pub failure: String,
}

/// What a [`Plan`] stands for.
pub struct PlanView {
    pub call: ProcedureCallView,
    pub policy: PolicyView,
    pub ttl: Option<u64>,
    pub failure: Seq<char>,
}

impl DeepView for Plan {
    type V = PlanView;

    open spec fn deep_view(&self) -> PlanView {
        PlanView { call: self.call@, policy: self.policy@, ttl: self.ttl, failure: self.failure@ }
    }
}

impl View for Plan {
    type V = PlanView;

    open spec fn view(&self) -> PlanView {
        self.deep_view()
    }
}

/// The plan of a read: with a cache, `key` is looked up first and filled
/// after a miss.
pub open spec fn read_plan(call: ProcedureCallView, key: Seq<char>, cached: bool, failure: Seq<char>)
    -> PlanView {
    PlanView {
        call,
        policy: if cached {
            PolicyView::ReadThrough { key }
        } else {
            PolicyView::Bypass
        },
        ttl: Some(CACHE_TTL_SECONDS),
        failure,
    }
}

/// The plan of a read that never goes through the cache, such as a search.
pub open spec fn uncached_plan(call: ProcedureCallView, failure: Seq<char>) -> PlanView {
    PlanView { call, policy: PolicyView::Bypass, ttl: Some(CACHE_TTL_SECONDS), failure }
}

/// The plan of a create or an update: with a cache, what the store answers
/// is kept under the entity's own key and the lists that hold the entity are
/// dropped.
pub open spec fn write_plan(call: ProcedureCallView, cached: bool, failure: Seq<char>) -> PlanView {
    PlanView {
        call,
        policy: if cached {
            PolicyView::WriteThrough
        } else {
            PolicyView::Bypass
        },
        ttl: Some(CACHE_TTL_SECONDS),
        failure,
    }
}

/// The plan of a delete: with a cache, `keys` are dropped once the store has
/// carried the delete out.
pub open spec fn delete_plan(
    call: ProcedureCallView,
    keys: Seq<Seq<char>>,
    cached: bool,
    failure: Seq<char>,
) -> PlanView {
    PlanView {
        call,
        policy: if cached {
            PolicyView::Invalidate { keys }
        } else {
            PolicyView::Bypass
        },
        ttl: Some(CACHE_TTL_SECONDS),
        failure,
    }
}

impl Plan {
    /// The plan of a read.
    pub fn read(call: ProcedureCall, key: String, cached: bool, failure: &str) -> (plan: Plan)
        ensures
            plan@ == read_plan(call@, key@, cached, failure@),
    {
        let policy = if cached {
            Policy::ReadThrough { key }
        } else {
            Policy::Bypass
        };
        Plan { call, policy, ttl: Some(CACHE_TTL_SECONDS), failure: failure.to_string() }
    }

    /// The plan of a read that never goes through the cache.
    pub fn uncached(call: ProcedureCall, failure: &str) -> (plan: Plan)
        ensures
            plan@ == uncached_plan(call@, failure@),
    {
        Plan {
            call,
            policy: Policy::Bypass,
            ttl: Some(CACHE_TTL_SECONDS),
            failure: failure.to_string(),
        }
    }

    /// The plan of a create or an update.
    pub fn write(call: ProcedureCall, cached: bool, failure: &str) -> (plan: Plan)
        ensures
            plan@ == write_plan(call@, cached, failure@),
    {
        let policy = if cached {
            Policy::WriteThrough
        } else {
            Policy::Bypass
        };
        Plan { call, policy, ttl: Some(CACHE_TTL_SECONDS), failure: failure.to_string() }
    }

    /// The plan of a delete.
    pub fn delete(call: ProcedureCall, keys: Vec<String>, cached: bool, failure: &str) -> (plan:
        Plan)
        ensures
            plan@ == delete_plan(call@, keys.deep_view(), cached, failure@),
    {
        let policy = if cached {
            Policy::Invalidate { keys }
        } else {
            Policy::Bypass
        };
        Plan { call, policy, ttl: Some(CACHE_TTL_SECONDS), failure: failure.to_string() }
    }
}

} // verus!
