//! Tasks: the futures that the root task is composed of, and the record of
//! which of them is being polled.
use vstd::prelude::*;

verus! {

/// The record of what the task machinery is doing: whether the task context
/// has been acquired, whether it is being polled, and which task is being
/// polled (0 for none).
pub struct TaskScope {
    in_runtime: bool,
    taskno: usize,
    context_acquired: bool,
}

/// What a `TaskScope` records.
pub struct TaskScopeView {
    /// Whether the task context is being polled.
    pub in_runtime: bool,
    /// The task that is being polled, 0 for none.
    pub taskno: usize,
    /// Whether the task context has been acquired.
    pub context_acquired: bool,
}

impl TaskScope {
    /// What the scope records.
    pub closed spec fn view(&self) -> TaskScopeView {
        TaskScopeView {
            in_runtime: self.in_runtime,
            taskno: self.taskno,
            context_acquired: self.context_acquired,
        }
    }

    /// The record at the start: nothing acquired, nothing being polled.
    pub fn new() -> (scope: Self)
        ensures
            scope@ == (TaskScopeView { in_runtime: false, taskno: 0, context_acquired: false }),
    {
        TaskScope { in_runtime: false, taskno: 0, context_acquired: false }
    }
}

/// Whether the task context has been acquired.
pub fn is_context_acquired(scope: &TaskScope) -> (acquired: bool)
    ensures
        acquired == scope@.context_acquired,
{
    scope.context_acquired
}

/// Whether the task context is being polled.
pub fn is_in_runtime(scope: &TaskScope) -> (inside: bool)
    ensures
        inside == scope@.in_runtime,
{
    scope.in_runtime
}

/// Stands where code may only run while the task context is being polled.
pub fn ensure_runtime(scope: &TaskScope)
    requires
        scope@.in_runtime,
{
}

/// The task that is being polled, 0 for none.
pub fn current(scope: &TaskScope) -> (id: usize)
    requires
        scope@.in_runtime,
    ensures
        id == scope@.taskno,
{
    ensure_runtime(scope);
    scope.taskno
}

/// A future with an identifier. The future is dropped as soon as it has
/// finished.
pub struct Task<F> {
    id: usize,
    future: Option<F>,
}

impl<F> Task<F> {
    /// The identifier of the task.
    pub closed spec fn id(&self) -> usize {
        self.id
    }

    /// The future of the task; `None` once it has finished.
    pub closed spec fn future(&self) -> Option<F> {
        self.future
    }

    /// A task that has not finished.
    pub fn new(id: usize, future: F) -> (task: Self)
        ensures
            task.id() == id,
            task.future() == Some(future),
    {
        Task { id, future: Some(future) }
    }

    /// Polls the task once and says whether it has finished.
    ///
    /// `poll_future` polls the future and says whether it has finished; while
    /// it runs, the task is on record as the one being polled. A task that
    /// has finished before is not polled again.
    pub fn poll<P: FnOnce(&mut F, &TaskScope) -> bool>(
        &mut self,
        scope: &mut TaskScope,
        poll_future: P,
    ) -> (finished: bool)
        requires
            old(scope)@.in_runtime,
            forall|future: &mut F, s: &TaskScope|
                s@ == (TaskScopeView { taskno: old(self).id(), ..old(scope)@ })
                    ==> poll_future.requires((future, s)),
        ensures
            final(self).id() == old(self).id(),
            finished <==> final(self).future() is None,
            old(self).future() is None ==> finished && *final(scope) == *old(scope),
            old(self).future() is Some ==> final(scope)@ == (TaskScopeView {
                taskno: 0,
                ..old(scope)@
            }),
            old(self).future() is Some ==> exists|future: &mut F, s: &TaskScope|
                {
                    &&& *future == old(self).future()->Some_0
                    &&& s@ == (TaskScopeView { taskno: old(self).id(), ..old(scope)@ })
                    &&& #[trigger] poll_future.ensures((future, s), finished)
                    &&& !finished ==> final(self).future() == Some(*final(future))
                },
    {
        ensure_runtime(scope);
        match self.future.take() {
            Some(future) => {
                let mut future = future;
                scope.taskno = self.id;
                let finished = poll_future(&mut future, scope);
                if !finished {
                    self.future = Some(future);
                }
                scope.taskno = 0;
                finished
            },
            None => true,
        }
    }
}

/// The root of the tasks: the future that polls them all. There is one, and
/// it is never polled from inside itself.
pub struct TaskContext<F> {
    inner: F,
}

impl<F> TaskContext<F> {
    /// The future that polls the tasks.
    pub closed spec fn inner(&self) -> F {
        self.inner
    }

    /// Makes `inner` the root of the tasks. This can be done once.
    pub fn acquire(scope: &mut TaskScope, inner: F) -> (context: Self)
        requires
            !old(scope)@.context_acquired,
        ensures
            context.inner() == inner,
            final(scope)@ == (TaskScopeView { context_acquired: true, ..old(scope)@ }),
    {
        scope.context_acquired = true;
        TaskContext { inner }
    }

    /// Polls the tasks once and says whether all of them have finished.
    ///
    /// `poll_inner` polls the future that polls the tasks; while it runs, the
    /// task context is on record as being polled.
    pub fn poll<P: FnOnce(&mut F, &mut TaskScope) -> bool>(
        &mut self,
        scope: &mut TaskScope,
        poll_inner: P,
    ) -> (finished: bool)
        requires
            !old(scope)@.in_runtime,
            forall|inner: &mut F, s: &mut TaskScope|
                s@ == (TaskScopeView { in_runtime: true, ..old(scope)@ }) ==> poll_inner.requires(
                    (inner, s),
                ),
        ensures
            !final(scope)@.in_runtime,
            exists|inner: &mut F, s: &mut TaskScope|
                {
                    &&& *inner == old(self).inner()
                    &&& *final(inner) == final(self).inner()
                    &&& s@ == (TaskScopeView { in_runtime: true, ..old(scope)@ })
                    &&& #[trigger] poll_inner.ensures((inner, s), finished)
                    &&& final(scope)@ == (TaskScopeView { in_runtime: false, ..final(s)@ })
                },
    {
        scope.in_runtime = true;
        let finished = poll_inner(&mut self.inner, scope);
        scope.in_runtime = false;
        finished
    }
}

} // verus!
