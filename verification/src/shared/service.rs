//! A service operation as a machine.
//!
//! An operation starts from a [`Plan`] and asks for one action at a time.
//! The caller performs the action and hands back what happened; the machine
//! answers with the next action, until it asks to finish. It holds every
//! decision of the operation: when the cache is read, what a row means, what
//! is cached under which key, what is dropped, and how a failure is
//! reported.

use vstd::prelude::*;
use crate::shared::cache_aside::{
    Action,
    ActionView,
    Cached,
    CachedView,
    Event,
    EventView,
    Outcome,
    OutcomeView,
    Plan,
    PlanView,
    Policy,
    PolicyView,
    Response,
    ServiceError,
    ServiceErrorView,
};
use crate::shared::crud_repository::CallShape;
use crate::shared::db::mysql::{
    FromSqlRow,
    GenericRepository,
    list_model,
    one_model,
    optional_model,
};

verus! {

/// Where an operation stands.
#[derive(Debug, PartialEq, Eq)]
pub enum Stage<R> {
    /// The cache was asked for the value.
    Lookup,
    /// The store was called.
    Call,
    /// The cache was asked to keep the result; `stale` is dropped next.
    Store { outcome: Outcome<R>, stale: Vec<String> },
    /// The cache was asked to drop a key; `stale` is dropped next.
    Drop { outcome: Outcome<R>, stale: Vec<String> },
    /// The operation ended.
    Finished,
}

/// What a [`Stage`] stands for.
pub enum StageView<V> {
    Lookup,
    Call,
    Store { outcome: OutcomeView<V>, stale: Seq<Seq<char>> },
    Drop { outcome: OutcomeView<V>, stale: Seq<Seq<char>> },
    Finished,
}

impl<R: DeepView> DeepView for Stage<R> {
    type V = StageView<R::V>;

    open spec fn deep_view(&self) -> StageView<R::V> {
        match *self {
            Stage::Lookup => StageView::Lookup,
            Stage::Call => StageView::Call,
            Stage::Store { outcome, stale } => StageView::Store {
                outcome: outcome.deep_view(),
                stale: stale.deep_view(),
            },
            Stage::Drop { outcome, stale } => StageView::Drop {
                outcome: outcome.deep_view(),
                stale: stale.deep_view(),
            },
            Stage::Finished => StageView::Finished,
        }
    }
}

/// A running operation: its plan and where it stands.
#[derive(Debug, PartialEq, Eq)]
pub struct Flow<R> {
    pub plan: Plan,
    pub stage: Stage<R>,
}

/// What a [`Flow`] stands for.
pub struct FlowView<V> {
    pub plan: PlanView,
    pub stage: StageView<V>,
}

impl<R: DeepView> DeepView for Flow<R> {
    type V = FlowView<R::V>;

    open spec fn deep_view(&self) -> FlowView<R::V> {
        FlowView { plan: self.plan@, stage: self.stage.deep_view() }
    }
}

/// One step of an operation: the operation after the step and the action it
/// now asks for.
#[derive(Debug, PartialEq, Eq)]
pub struct Step<R> {
    pub flow: Flow<R>,
    pub action: Action<R>,
}

/// What a [`Step`] stands for.
pub struct StepView<V> {
    pub flow: FlowView<V>,
    pub action: ActionView<V>,
}

impl<R: DeepView> DeepView for Step<R> {
    type V = StepView<R::V>;

    open spec fn deep_view(&self) -> StepView<R::V> {
        StepView { flow: self.flow.deep_view(), action: self.action.deep_view() }
    }
}

/// The step that ends the operation with `outcome`.
pub open spec fn finish<V>(plan: PlanView, outcome: OutcomeView<V>) -> StepView<V> {
    StepView {
        flow: FlowView { plan, stage: StageView::Finished },
        action: ActionView::Finish(outcome),
    }
}

/// The step that ends the operation because the caller broke the protocol.
pub open spec fn refuse<V>(plan: PlanView) -> StepView<V> {
    finish(plan, OutcomeView::Failed(ServiceErrorView::Protocol))
}

/// The step that ends the operation because the cache failed. The failure
/// carries the plan's own text: what the cache client said is for the
/// caller's log and never reaches the outcome.
pub open spec fn cache_failure<V>(plan: PlanView) -> StepView<V> {
    finish(plan, OutcomeView::Failed(ServiceErrorView::Cache(plan.failure)))
}

/// The step that calls the store.
pub open spec fn call_store<V>(plan: PlanView) -> StepView<V> {
    StepView {
        flow: FlowView { plan, stage: StageView::Call },
        action: ActionView::Call(plan.call),
    }
}

/// The step that drops the first of the `stale` keys, or ends the operation
/// with `outcome` when none is left.
pub open spec fn drop_next<V>(plan: PlanView, stale: Seq<Seq<char>>, outcome: OutcomeView<V>)
    -> StepView<V> {
    if stale.len() == 0 {
        finish(plan, outcome)
    } else {
        StepView {
            flow: FlowView { plan, stage: StageView::Drop { outcome, stale: stale.skip(1) } },
            action: ActionView::CacheDelete { key: stale[0] },
        }
    }
}

/// The step that writes `value` under `key`; the `stale` keys are dropped
/// afterwards and the operation then ends with `outcome`.
pub open spec fn store<V>(
    plan: PlanView,
    key: Seq<char>,
    value: CachedView<V>,
    outcome: OutcomeView<V>,
    stale: Seq<Seq<char>>,
) -> StepView<V> {
    StepView {
        flow: FlowView { plan, stage: StageView::Store { outcome, stale } },
        action: ActionView::CacheSet { key, value, ttl: plan.ttl },
    }
}

/// The failure that reports a failing repository: the plan's own text, which
/// names the operation and not the cause.
pub open spec fn repository_failure<V>(plan: PlanView) -> OutcomeView<V> {
    OutcomeView::Failed(ServiceErrorView::Repository(plan.failure))
}

/// The first step of an operation: a read asks the cache, everything else
/// calls the store.
pub open spec fn begin<V>(plan: PlanView) -> StepView<V> {
    match plan.policy {
        PolicyView::ReadThrough { key } => StepView {
            flow: FlowView { plan, stage: StageView::Lookup },
            action: ActionView::CacheGet { key, many: plan.call.shape == CallShape::FetchList },
        },
        _ => call_store(plan),
    }
}

/// The responses that show the first `n` of `entities`; none where one of
/// them cannot be shown.
pub open spec fn shown_all<R: Response>(entities: Seq<<R::Entity as DeepView>::V>, n: nat)
    -> Option<Seq<R::V>>
    decreases n,
{
    if n == 0 {
        Some(Seq::empty())
    } else {
        match shown_all::<R>(entities, (n - 1) as nat) {
            None => None,
            Some(responses) => match R::of_entity(entities[n - 1]) {
                Ok(response) => Some(responses.push(response)),
                Err(_) => None,
            },
        }
    }
}

/// How the operation ends once `entity` came back from the store.
pub open spec fn shown<R: Response>(plan: PlanView, entity: <R::Entity as DeepView>::V)
    -> OutcomeView<R::V> {
    match R::of_entity(entity) {
        Ok(response) => OutcomeView::Found(response),
        Err(_) => repository_failure(plan),
    }
}

/// What the store's answer means for the operation; none where the event
/// does not answer the plan's call.
pub open spec fn answered<R: Response>(plan: PlanView, event: EventView<R::V>) -> Option<
    OutcomeView<R::V>,
> {
    match (plan.call.shape, event) {
        (CallShape::Execute, EventView::Executed(Ok(_))) => Some(OutcomeView::Done),
        (CallShape::Execute, EventView::Executed(Err(_))) => Some(repository_failure(plan)),
        (CallShape::FetchOptional, EventView::Row(answer)) => Some(
            match optional_model::<R::Entity>(answer) {
                Ok(Some(entity)) => shown::<R>(plan, entity),
                Ok(None) => OutcomeView::NotFound,
                Err(_) => repository_failure(plan),
            },
        ),
        (CallShape::FetchOne, EventView::One(answer)) => Some(
            match one_model::<R::Entity>(answer) {
                Ok(entity) => shown::<R>(plan, entity),
                Err(_) => repository_failure(plan),
            },
        ),
        (CallShape::FetchList, EventView::Rows(answer)) => Some(
            match list_model::<R::Entity>(answer) {
                Ok(entities) => match shown_all::<R>(entities, entities.len()) {
                    Some(responses) => OutcomeView::Listed(responses),
                    None => repository_failure(plan),
                },
                Err(_) => repository_failure(plan),
            },
        ),
        _ => None,
    }
}

/// The cache work that follows the store's answer.
///
/// A read keeps what it found under the key it looked up. A create or an
/// update keeps the entity under the entity's own key and drops the lists
/// that hold it. A delete drops its keys once the store has carried it out;
/// a delete that failed leaves the cache as it is.
pub open spec fn settle<R: Response>(plan: PlanView, outcome: OutcomeView<R::V>) -> StepView<
    R::V,
> {
    match plan.policy {
        PolicyView::Bypass => finish(plan, outcome),
        PolicyView::ReadThrough { key } => match outcome {
            OutcomeView::Found(response) => store(
                plan,
                key,
                CachedView::One(response),
                outcome,
                Seq::empty(),
            ),
            OutcomeView::Listed(responses) => store(
                plan,
                key,
                CachedView::Many(responses),
                outcome,
                Seq::empty(),
            ),
            _ => finish(plan, outcome),
        },
        PolicyView::WriteThrough => match outcome {
            OutcomeView::Found(response) => store(
                plan,
                R::key_of(response),
                CachedView::One(response),
                outcome,
                R::list_keys_of(response),
            ),
            _ => finish(plan, outcome),
        },
        PolicyView::Invalidate { keys } => match outcome {
            OutcomeView::Done => drop_next(plan, keys, outcome),
            _ => finish(plan, outcome),
        },
    }
}

/// The step an operation takes when `event` arrives.
pub open spec fn advance<R: Response>(flow: FlowView<R::V>, event: EventView<R::V>) -> StepView<
    R::V,
> {
    let plan = flow.plan;
    match flow.stage {
        StageView::Lookup => match event {
            EventView::Cached(Err(_)) => cache_failure(plan),
            EventView::Cached(Ok(None)) => call_store(plan),
            EventView::Cached(Ok(Some(CachedView::One(response)))) => if plan.call.shape
                != CallShape::FetchList {
                finish(plan, OutcomeView::Found(response))
            } else {
                refuse(plan)
            },
            EventView::Cached(Ok(Some(CachedView::Many(responses)))) => if plan.call.shape
                == CallShape::FetchList {
                finish(plan, OutcomeView::Listed(responses))
            } else {
                refuse(plan)
            },
            _ => refuse(plan),
        },
        StageView::Call => match answered::<R>(plan, event) {
            Some(outcome) => settle::<R>(plan, outcome),
            None => refuse(plan),
        },
        StageView::Store { outcome, stale } => match event {
            EventView::Stored(Ok(_)) => drop_next(plan, stale, outcome),
            EventView::Stored(Err(_)) => cache_failure(plan),
            _ => refuse(plan),
        },
        StageView::Drop { outcome, stale } => match event {
            EventView::Dropped(Ok(_)) => drop_next(plan, stale, outcome),
            EventView::Dropped(Err(_)) => cache_failure(plan),
            _ => refuse(plan),
        },
        StageView::Finished => refuse(plan),
    }
}

/// Reads any entity from rows.
pub struct RowReader;

impl<T: FromSqlRow> GenericRepository<T> for RowReader {
}

/// Copies of `responses`, in order.
pub fn duplicate_all<R: Response>(responses: &Vec<R>) -> (copies: Vec<R>)
    ensures
        copies.deep_view() == responses.deep_view(),
{
    let mut copies: Vec<R> = Vec::with_capacity(responses.len());
    let mut i: usize = 0;
    while i < responses.len()
        invariant
            i <= responses.len(),
            copies.len() == i,
            forall|j: int| 0 <= j < i ==> copies[j].deep_view() == responses[j].deep_view(),
        decreases responses.len() - i,
    {
        copies.push(responses[i].duplicate());
        i += 1;
    }
    assert(copies.deep_view() =~= responses.deep_view());
    copies
}

/// Copies of `keys`, in order.
pub fn duplicate_keys(keys: &Vec<String>) -> (copies: Vec<String>)
    ensures
        copies.deep_view() == keys.deep_view(),
{
    let mut copies: Vec<String> = Vec::with_capacity(keys.len());
    let mut i: usize = 0;
    while i < keys.len()
        invariant
            i <= keys.len(),
            copies.len() == i,
            forall|j: int| 0 <= j < i ==> copies[j]@ == keys[j]@,
        decreases keys.len() - i,
    {
        copies.push(keys[i].clone());
        i += 1;
    }
    assert(copies.deep_view() =~= keys.deep_view());
    copies
}

/// The responses that show `entities`, in order; none where one of them
/// cannot be shown.
pub fn show_all<R: Response>(entities: &Vec<R::Entity>) -> (r: Option<Vec<R>>)
    ensures
        r.deep_view() == shown_all::<R>(entities.deep_view(), entities.len() as nat),
{
    let mut responses: Vec<R> = Vec::with_capacity(entities.len());
    let mut i: usize = 0;
    assert(responses.deep_view() =~= Seq::empty());
    while i < entities.len()
        invariant
            i <= entities.len(),
            shown_all::<R>(entities.deep_view(), i as nat) == Some(responses.deep_view()),
        decreases entities.len() - i,
    {
        assert(entities.deep_view()[i as int] == entities[i as int].deep_view());
        match R::from_entity(&entities[i]) {
            Ok(response) => {
                let ghost before = responses.deep_view();
                let ghost model = response.deep_view();
                responses.push(response);
                assert(responses.deep_view() =~= before.push(model));
            },
            Err(_) => {
                proof {
                    lemma_shown_all_fails::<R>(
                        entities.deep_view(),
                        (i + 1) as nat,
                        entities.len() as nat,
                    );
                }
                return None;
            },
        }
        i += 1;
    }
    Some(responses)
}

/// Once a prefix of the entities cannot be shown, no longer prefix can.
pub proof fn lemma_shown_all_fails<R: Response>(
    entities: Seq<<R::Entity as DeepView>::V>,
    n: nat,
    m: nat,
)
    requires
        n <= m,
        shown_all::<R>(entities, n) is None,
    ensures
        shown_all::<R>(entities, m) is None,
    decreases m,
{
    if n < m {
        lemma_shown_all_fails::<R>(entities, n, (m - 1) as nat);
    }
}

impl<R: Response> Flow<R> {
    /// The step that ends the operation with `outcome`.
    fn finish(plan: Plan, outcome: Outcome<R>) -> (step: Step<R>)
        ensures
            step.deep_view() == finish(plan@, outcome.deep_view()),
    {
        Step { flow: Flow { plan, stage: Stage::Finished }, action: Action::Finish(outcome) }
    }

    /// The step that ends the operation because the cache failed.
    fn cache_failure(plan: Plan) -> (step: Step<R>)
        ensures
            step.deep_view() == cache_failure::<R::V>(plan@),
    {
        let text = plan.failure.clone();
        Self::finish(plan, Outcome::Failed(ServiceError::Cache(text)))
    }

    /// The step that calls the store.
    fn call_store(plan: Plan) -> (step: Step<R>)
        ensures
            step.deep_view() == call_store::<R::V>(plan@),
    {
        let call = plan.call.replicate();
        Step { flow: Flow { plan, stage: Stage::Call }, action: Action::Call(call) }
    }

    /// The step that drops the first stale key, or ends the operation.
    fn drop_next(plan: Plan, stale: Vec<String>, outcome: Outcome<R>) -> (step: Step<R>)
        ensures
            step.deep_view() == drop_next(plan@, stale.deep_view(), outcome.deep_view()),
    {
        let mut stale = stale;
        if stale.len() == 0 {
            Self::finish(plan, outcome)
        } else {
            let ghost before = stale.deep_view();
            let key = stale.remove(0);
            assert(stale.deep_view() =~= before.skip(1));
            Step {
                flow: Flow { plan, stage: Stage::Drop { outcome, stale } },
                action: Action::CacheDelete { key },
            }
        }
    }

    /// The failure that reports a failing repository.
    fn repository_failure(plan: &Plan) -> (outcome: Outcome<R>)
        ensures
            outcome.deep_view() == repository_failure::<R::V>(plan@),
    {
        Outcome::Failed(ServiceError::Repository(plan.failure.clone()))
    }

    /// How the operation ends once `entity` came back from the store.
    fn shown(plan: &Plan, entity: &R::Entity) -> (outcome: Outcome<R>)
        ensures
            outcome.deep_view() == shown::<R>(plan@, entity.deep_view()),
    {
        match R::from_entity(entity) {
            Ok(response) => Outcome::Found(response),
            Err(_) => Self::repository_failure(plan),
        }
    }

    /// What the store's answer means for the operation.
    fn answered(plan: &Plan, event: Event<R>) -> (r: Option<Outcome<R>>)
        ensures
            r.deep_view() == answered::<R>(plan@, event.deep_view()),
    {
        let reader = RowReader;
        match (plan.call.shape, event) {
            (CallShape::Execute, Event::Executed(Ok(_))) => Some(Outcome::Done),
            (CallShape::Execute, Event::Executed(Err(_))) => Some(Self::repository_failure(plan)),
            (CallShape::FetchOptional, Event::Row(answer)) => {
                let parsed: Result<Option<R::Entity>, _> =
                    reader.parse_entity_from_option_result_sql(answer);
                Some(
                    match parsed {
                        Ok(Some(entity)) => Self::shown(plan, &entity),
                        Ok(None) => Outcome::NotFound,
                        Err(_) => Self::repository_failure(plan),
                    },
                )
            },
            (CallShape::FetchOne, Event::One(answer)) => {
                let parsed: Result<R::Entity, _> = reader.parse_entity_from_result_sql(answer);
                Some(
                    match parsed {
                        Ok(entity) => Self::shown(plan, &entity),
                        Err(_) => Self::repository_failure(plan),
                    },
                )
            },
            (CallShape::FetchList, Event::Rows(answer)) => {
                let parsed: Result<Vec<R::Entity>, _> =
                    reader.parse_entity_from_result_sql_list(answer);
                Some(
                    match parsed {
                        Ok(entities) => match show_all::<R>(&entities) {
                            Some(responses) => Outcome::Listed(responses),
                            None => Self::repository_failure(plan),
                        },
                        Err(_) => Self::repository_failure(plan),
                    },
                )
            },
            _ => None,
        }
    }

    /// The cache work that follows the store's answer.
    fn settle(plan: Plan, outcome: Outcome<R>) -> (step: Step<R>)
        ensures
            step.deep_view() == settle::<R>(plan@, outcome.deep_view()),
    {
        match &plan.policy {
            Policy::Bypass => Self::finish(plan, outcome),
            Policy::ReadThrough { key } => {
                let key = key.clone();
                let value = match &outcome {
                    Outcome::Found(response) => Some(Cached::One(response.duplicate())),
                    Outcome::Listed(responses) => Some(Cached::Many(duplicate_all(responses))),
                    _ => None,
                };
                match value {
                    Some(value) => {
                        let ttl = plan.ttl;
                        let stale: Vec<String> = Vec::new();
                        assert(stale.deep_view() =~= Seq::empty());
                        Step {
                            flow: Flow { plan, stage: Stage::Store { outcome, stale } },
                            action: Action::CacheSet { key, value, ttl },
                        }
                    },
                    None => Self::finish(plan, outcome),
                }
            },
            Policy::WriteThrough => {
                let kept = match &outcome {
                    Outcome::Found(response) => Some(
                        (response.cache_key(), response.duplicate(), response.list_cache_keys()),
                    ),
                    _ => None,
                };
                match kept {
                    Some((key, copy, stale)) => {
                        let ttl = plan.ttl;
                        Step {
                            flow: Flow { plan, stage: Stage::Store { outcome, stale } },
                            action: Action::CacheSet { key, value: Cached::One(copy), ttl },
                        }
                    },
                    None => Self::finish(plan, outcome),
                }
            },
            Policy::Invalidate { keys } => {
                let carried_out = match &outcome {
                    Outcome::Done => true,
                    _ => false,
                };
                if carried_out {
                    let stale = duplicate_keys(keys);
                    Self::drop_next(plan, stale, outcome)
                } else {
                    Self::finish(plan, outcome)
                }
            },
        }
    }

    /// Starts the operation that `plan` describes.
    pub fn start(plan: Plan) -> (step: Step<R>)
        ensures
            step.deep_view() == begin::<R::V>(plan@),
    {
        match &plan.policy {
            Policy::ReadThrough { key } => {
                let key = key.clone();
                let many = match plan.call.shape {
                    CallShape::FetchList => true,
                    _ => false,
                };
                Step {
                    flow: Flow { plan, stage: Stage::Lookup },
                    action: Action::CacheGet { key, many },
                }
            },
            _ => Self::call_store(plan),
        }
    }

    /// Takes the step that `event` calls for.
    pub fn resume(self, event: Event<R>) -> (step: Step<R>)
        ensures
            step.deep_view() == advance::<R>(self.deep_view(), event.deep_view()),
    {
        let plan = self.plan;
        match self.stage {
            Stage::Lookup => {
                let listing = match plan.call.shape {
                    CallShape::FetchList => true,
                    _ => false,
                };
                match event {
                    Event::Cached(Err(_)) => Self::cache_failure(plan),
                    Event::Cached(Ok(None)) => Self::call_store(plan),
                    Event::Cached(Ok(Some(Cached::One(response)))) => if !listing {
                        Self::finish(plan, Outcome::Found(response))
                    } else {
                        Self::finish(plan, Outcome::Failed(ServiceError::Protocol))
                    },
                    Event::Cached(Ok(Some(Cached::Many(responses)))) => if listing {
                        Self::finish(plan, Outcome::Listed(responses))
                    } else {
                        Self::finish(plan, Outcome::Failed(ServiceError::Protocol))
                    },
                    _ => Self::finish(plan, Outcome::Failed(ServiceError::Protocol)),
                }
            },
            Stage::Call => match Self::answered(&plan, event) {
                Some(outcome) => Self::settle(plan, outcome),
                None => Self::finish(plan, Outcome::Failed(ServiceError::Protocol)),
            },
            Stage::Store { outcome, stale } => match event {
                Event::Stored(Ok(_)) => Self::drop_next(plan, stale, outcome),
                Event::Stored(Err(_)) => Self::cache_failure(plan),
                _ => Self::finish(plan, Outcome::Failed(ServiceError::Protocol)),
            },
            Stage::Drop { outcome, stale } => match event {
                Event::Dropped(Ok(_)) => Self::drop_next(plan, stale, outcome),
                Event::Dropped(Err(_)) => Self::cache_failure(plan),
                _ => Self::finish(plan, Outcome::Failed(ServiceError::Protocol)),
            },
            Stage::Finished => Self::finish(plan, Outcome::Failed(ServiceError::Protocol)),
        }
    }
}

} // verus!
