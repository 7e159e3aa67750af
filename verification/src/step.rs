//! How a request is worked off: it asks for one action after the other and
//! ends with a reply.
use vstd::prelude::*;

use crate::error::{AppError, Refusal};

verus! {

/// Where a request stands: it asks for the action `A` and waits in the state
/// `M` for what comes of it, or it ends with the reply `R` or the refusal `E`.
#[derive(Debug, PartialEq, Eq)]
pub enum Step<M, A, R, E> {
    Ask(M, A),
    Reply(R),
    Refuse(E),
}

impl<M: DeepView, A: DeepView, R: DeepView> DeepView for Step<M, A, R, AppError> {
    type V = Step<M::V, A::V, R::V, Refusal>;

    open spec fn deep_view(&self) -> Self::V {
        match self {
            Step::Ask(state, action) => Step::Ask(state.deep_view(), action.deep_view()),
            Step::Reply(reply) => Step::Reply(reply.deep_view()),
            Step::Refuse(error) => Step::Refuse(error.deep_view()),
        }
    }
}

/// A result as a mathematical value.
pub open spec fn outcome<T: DeepView>(r: Result<T, AppError>) -> Result<T::V, Refusal> {
    match r {
        Ok(value) => Ok(value.deep_view()),
        Err(error) => Err(error.deep_view()),
    }
}

/// Where a request that stands at `step` ends, and what its surroundings are
/// then; `perform` says what an action does to them and what comes back, `next`
/// how the request goes on. At most `fuel` actions are performed.
pub open spec fn run<E, M, A, V, R>(
    env: E,
    step: Step<M, A, R, Refusal>,
    perform: spec_fn(E, A) -> (E, V),
    next: spec_fn(M, V) -> Step<M, A, R, Refusal>,
    fuel: nat,
) -> (E, Step<M, A, R, Refusal>)
    decreases fuel,
{
    match step {
        Step::Ask(state, action) => if fuel == 0 {
            (env, step)
        } else {
            let (after, event) = perform(env, action);
            run(after, next(state, event), perform, next, (fuel - 1) as nat)
        },
        _ => (env, step),
    }
}

/// The request ends after at most `fuel` actions, and every event that it meets
/// on its way is one that it waits for.
pub open spec fn accepted<E, M, A, V, R>(
    env: E,
    step: Step<M, A, R, Refusal>,
    perform: spec_fn(E, A) -> (E, V),
    next: spec_fn(M, V) -> Step<M, A, R, Refusal>,
    accepts: spec_fn(M, V) -> bool,
    fuel: nat,
) -> bool
    decreases fuel,
{
    match step {
        Step::Ask(state, action) => fuel > 0 && {
            let (after, event) = perform(env, action);
            accepts(state, event) && accepted(
                after,
                next(state, event),
                perform,
                next,
                accepts,
                (fuel - 1) as nat,
            )
        },
        _ => true,
    }
}

/// A request ends with the surroundings and the answer that `effect` names.
pub open spec fn ends_as<E, M, A, R>(
    end: (E, Step<M, A, R, Refusal>),
    effect: (E, Result<R, Refusal>),
) -> bool {
    end.0 == effect.0 && match effect.1 {
        Ok(reply) => end.1 == Step::<M, A, R, Refusal>::Reply(reply),
        Err(refused) => end.1 == Step::<M, A, R, Refusal>::Refuse(refused),
    }
}

/// The request ends with the refusal of that status and that message.
pub open spec fn refuses_with<M, A, R>(
    end: Step<M, A, R, Refusal>,
    status: u16,
    message: Seq<char>,
) -> bool {
    end matches Step::Refuse(refused) && refused.status == status && refused.message == message
}

} // verus!
