use vstd::prelude::*;

verus! {

/// Outcome of one test body as the isolation boundary reports it: the body
/// either returned normally, or terminated abnormally, possibly with a
/// textual message kept for diagnostics. The message affects only what is
/// logged, never the pass/fail classification.
pub enum BodyOutcome {
    Passed,
    Failed,
    FailedWithMessage(String),
}

/// A body outcome counts as a pass exactly when the body returned normally.
pub open spec fn outcome_passed(o: BodyOutcome) -> bool {
    o is Passed
}

impl BodyOutcome {
    /// Executable form of `outcome_passed`.
    pub fn is_passed(&self) -> (r: bool)
        ensures
            r == outcome_passed(*self),
    {
        match self {
            BodyOutcome::Passed => true,
            BodyOutcome::Failed => false,
            BodyOutcome::FailedWithMessage(_) => false,
        }
    }
}

/// One registered test: a human-readable name and exactly one body, either a
/// synchronous callable or a factory of suspend-capable computations. The two
/// slots are generic because the runner never invokes them itself: running a
/// body (and catching its abnormal termination) is the executor's job, and
/// the executor is supplied by the caller together with the registry.
pub struct IntegrationTestMeta<S, A> {
    pub name: String,
    pub sync_fn: Option<S>,
    pub async_fn: Option<A>,
}

impl<S, A> IntegrationTestMeta<S, A> {
    /// Exactly one of the two body slots is set, and the name is non-empty.
    pub open spec fn wf(&self) -> bool {
        &&& (self.sync_fn is Some) <==> (self.async_fn is None)
        &&& self.name@.len() > 0
    }

    /// Describe a synchronous test.
    pub fn for_sync_fn(name: String, function: S) -> (r: IntegrationTestMeta<S, A>)
        requires
            name@.len() > 0,
        ensures
            r.wf(),
            r.name == name,
            r.sync_fn == Some(function),
            r.async_fn is None,
    {
        IntegrationTestMeta { name, sync_fn: Some(function), async_fn: None }
    }

    /// Describe an asynchronous test; `function` must yield a fresh
    /// computation on each call, since a run invokes it anew.
    pub fn for_async_fn(name: String, function: A) -> (r: IntegrationTestMeta<S, A>)
        requires
            name@.len() > 0,
        ensures
            r.wf(),
            r.name == name,
            r.sync_fn is None,
            r.async_fn == Some(function),
    {
        IntegrationTestMeta { name, sync_fn: None, async_fn: Some(function) }
    }
}

} // verus!
