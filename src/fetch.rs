//! The observable lifecycle of one client request.

use vstd::prelude::*;

verus! {

/// Where a client request stands: not issued, in flight, or resolved.
///
/// Equality compares the state only, never the carried value or error: a
/// watcher of the cell is told when the state changes.
#[derive(Debug, Clone)]
pub enum Fetch<T: Clone, E: Clone> {
    Waiting,
    Loading,
    Finished(T),
    Error(E),
}

/// Why `Fetch::result` produced no value.
#[derive(Debug, Clone)]
pub enum FetchError<E> {
    /// The request was never issued.
    NotStarted,
    /// The request is still in flight.
    InProgress,
    /// The request resolved to this error.
    Failed(E),
}

impl<T: Clone, E: Clone> Fetch<T, E> {
    /// The resolved states: nothing moves a cell out of them.
    pub open spec fn is_terminal(self) -> bool {
        self is Finished || self is Error
    }

    /// A number for each state, in the order in which a request passes them.
    pub open spec fn rank(self) -> nat {
        match self {
            Fetch::Waiting => 0,
            Fetch::Loading => 1,
            Fetch::Finished(_) => 2,
            Fetch::Error(_) => 2,
        }
    }

    /// The state of a cell that was started and has now seen `outcome`.
    pub open spec fn resolved(outcome: Result<T, E>) -> Fetch<T, E> {
        match outcome {
            Ok(v) => Fetch::Finished(v),
            Err(e) => Fetch::Error(e),
        }
    }

    /// What a cell holds after `outcome` arrives for the invocation in flight.
    pub open spec fn settle_spec(self, outcome: Result<T, E>) -> Fetch<T, E> {
        if self is Loading {
            Self::resolved(outcome)
        } else {
            self
        }
    }

    /// Same state, whatever the payloads.
    pub open spec fn same_state(self, other: Self) -> bool {
        self.rank() == other.rank() && (self is Finished <==> other is Finished)
    }

    /// The value of a finished request, and nothing otherwise.
    pub fn as_opt(self) -> (r: Option<T>)
        ensures
            r == (match self {
                Fetch::Finished(v) => Some(v),
                _ => None,
            }),
    {
        match self {
            Fetch::Waiting => None,
            Fetch::Loading => None,
            Fetch::Finished(v) => Some(v),
            Fetch::Error(_) => None,
        }
    }

    /// The value of a finished request; a distinct error for each other state.
    pub fn result(self) -> (r: Result<T, FetchError<E>>)
        ensures
            self is Waiting ==> r == Err::<T, FetchError<E>>(FetchError::NotStarted),
            self is Loading ==> r == Err::<T, FetchError<E>>(FetchError::InProgress),
            self is Finished ==> r == Ok::<T, FetchError<E>>(self->Finished_0),
            self is Error ==> r == Err::<T, FetchError<E>>(FetchError::Failed(self->Error_0)),
    {
        match self {
            Fetch::Waiting => Err(FetchError::NotStarted),
            Fetch::Loading => Err(FetchError::InProgress),
            Fetch::Finished(v) => Ok(v),
            Fetch::Error(e) => Err(FetchError::Failed(e)),
        }
    }

    /// The value of a finished request, or `T::default()` in every other state.
    pub fn unwrap_or_default(self) -> (r: T)
        where
            T: Default,
        ensures
            self is Finished ==> r == self->Finished_0,
            !(self is Finished) ==> T::default.ensures((), r),
    {
        match self {
            Fetch::Waiting => T::default(),
            Fetch::Loading => T::default(),
            Fetch::Error(_) => T::default(),
            Fetch::Finished(v) => v,
        }
    }

    /// Issues a fresh invocation: the cell is in flight again.
    pub fn begin(&mut self)
        ensures
            *final(self) is Loading,
    {
        *self = Fetch::Loading;
    }

    /// Delivers the outcome of the invocation in flight. A cell that is not in
    /// flight keeps its state: a resolved request stays resolved.
    pub fn settle(&mut self, outcome: Result<T, E>)
        ensures
            *final(self) == old(self).settle_spec(outcome),
    {
        if let Fetch::Loading = self {
            *self = match outcome {
                Ok(v) => Fetch::Finished(v),
                Err(e) => Fetch::Error(e),
            };
        }
    }
}

impl<T: Clone, E: Clone> Default for Fetch<T, E> {
    fn default() -> (r: Self)
        ensures
            r is Waiting,
    {
        Fetch::Waiting
    }
}

impl<T: Clone, E: Clone> PartialEq for Fetch<T, E> {
    fn eq(&self, other: &Self) -> (r: bool) {
        match (self, other) {
            (Fetch::Waiting, Fetch::Waiting) => true,
            (Fetch::Loading, Fetch::Loading) => true,
            (Fetch::Finished(_), Fetch::Finished(_)) => true,
            (Fetch::Error(_), Fetch::Error(_)) => true,
            _ => false,
        }
    }
}

impl<T: Clone, E: Clone> vstd::std_specs::cmp::PartialEqSpecImpl for Fetch<T, E> {
    open spec fn obeys_eq_spec() -> bool {
        true
    }

    open spec fn eq_spec(&self, other: &Self) -> bool {
        self.same_state(*other)
    }
}

impl<T: Clone, E: Clone> Eq for Fetch<T, E> {}

/// Once a cell is resolved, no later outcome changes its state, and its state
/// never moves back toward `Waiting`.
pub proof fn lemma_settle_monotonic<T: Clone, E: Clone>(cell: Fetch<T, E>, outcome: Result<T, E>)
    ensures
        cell.is_terminal() ==> cell.settle_spec(outcome) == cell,
        cell.settle_spec(outcome).rank() >= cell.rank(),
{
}

/// A fresh invocation resolves exactly once: from `Loading` the first outcome
/// fixes the state, and any later outcome leaves it as it is.
pub proof fn lemma_fresh_invocation<T: Clone, E: Clone>(
    first: Result<T, E>,
    later: Result<T, E>,
)
    ensures
        Fetch::<T, E>::Loading.settle_spec(first) == Fetch::<T, E>::resolved(first),
        Fetch::<T, E>::resolved(first).is_terminal(),
        Fetch::<T, E>::resolved(first).settle_spec(later) == Fetch::<T, E>::resolved(first),
{
}

/// Folds the completion channel into one result: a channel closed before it
/// carried anything is an error too, built by `dropped`.
pub fn collapse<T, E>(received: Option<Result<T, E>>, dropped: E) -> (r: Result<T, E>)
    ensures
        r == (match received {
            Some(outcome) => outcome,
            None => Err(dropped),
        }),
{
    match received {
        Some(Ok(v)) => Ok(v),
        Some(Err(e)) => Err(e),
        None => Err(dropped),
    }
}

} // verus!
