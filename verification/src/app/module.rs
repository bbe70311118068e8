use vstd::prelude::*;
use super::error::{runtime_error_text, runtime_text_fits, wrap_module_error, RuntimeError};

verus! {

/// The indices `count - 1, ..., 1, 0`.
pub open spec fn descending(count: nat) -> Seq<usize> {
    Seq::new(count, |i: int| (count - 1 - i) as usize)
}

/// Whether `w` is the failure `e` of module `module` in lifecycle step
/// `action`, as the orchestrator reports it.
pub open spec fn wrapped_as(w: RuntimeError, module: &'static str, action: &'static str, e: RuntimeError) -> bool {
    &&& w matches RuntimeError::ModuleLifecycle { module: m, action: a, message }
    &&& m == module
    &&& a == action
    &&& runtime_text_fits(e, message@)
}

/// What the orchestrator does next while it runs a step forward over the
/// modules in order (runtime start, context initialization).
#[derive(Debug)]
pub enum ForwardStep {
    /// Run the step on the module at this index.
    Call(usize),
    /// Undo the step on the module at this index; the error is reported
    /// once the undoing is over.
    Undo(usize, RuntimeError),
    /// The run is over, with this result.
    Finish(Result<(), RuntimeError>),
}

/// The first move of a forward run over `count` modules: the first module,
/// or success at once when there are none.
pub fn begin_forward(count: usize) -> (s: ForwardStep)
    ensures
        count == 0 ==> (s matches ForwardStep::Finish(r) && r is Ok),
        count > 0 ==> (s matches ForwardStep::Call(i) && i == 0),
{
    if count == 0 {
        ForwardStep::Finish(Ok(()))
    } else {
        ForwardStep::Call(0)
    }
}

/// The move after module `index` (named `module`) ran step `action` with
/// `outcome`. On success the next module runs, or the run succeeds after
/// the last one. On failure the modules before it are undone, the most
/// recent first, and the run then fails with the failure wrapped; when
/// there are none to undo, it fails at once.
pub fn after_forward(
    count: usize,
    index: usize,
    module: &'static str,
    action: &'static str,
    outcome: Result<(), RuntimeError>,
) -> (s: ForwardStep)
    requires
        index < count,
    ensures
        outcome is Ok && index + 1 < count ==> (s matches ForwardStep::Call(i) && i == index + 1),
        outcome is Ok && index + 1 == count ==> (s matches ForwardStep::Finish(r) && r is Ok),
        outcome matches Err(e) ==> (index == 0 ==> (s matches ForwardStep::Finish(r) && (r matches Err(
            w,
        ) && wrapped_as(w, module, action, e)))),
        outcome matches Err(e) ==> (index > 0 ==> (s matches ForwardStep::Undo(i, w) && i == index
            - 1 && wrapped_as(w, module, action, e))),
{
    match outcome {
        Ok(()) => {
            if index + 1 < count {
                ForwardStep::Call(index + 1)
            } else {
                ForwardStep::Finish(Ok(()))
            }
        },
        Err(e) => {
            let w = wrap_module_error(module, action, e);
            if index == 0 {
                ForwardStep::Finish(Err(w))
            } else {
                ForwardStep::Undo(index - 1, w)
            }
        },
    }
}

/// The move after module `index` was undone, whatever that gave: the
/// module before it is undone next, or, after the first module, the run
/// fails with `error`.
pub fn after_undo(index: usize, error: RuntimeError) -> (s: ForwardStep)
    ensures
        index == 0 ==> s == ForwardStep::Finish(Err(error)),
        index > 0 ==> s == ForwardStep::Undo((index - 1) as usize, error),
{
    if index == 0 {
        ForwardStep::Finish(Err(error))
    } else {
        ForwardStep::Undo(index - 1, error)
    }
}

/// The index of the `k`-th module undone after the module at `failed`
/// failed: the undoing starts just before it and goes down by one.
pub open spec fn undo_index(failed: nat, k: nat) -> int
    decreases k,
{
    if k == 0 {
        failed - 1
    } else {
        undo_index(failed, (k - 1) as nat) - 1
    }
}

/// What the orchestrator does next while it tears a step down over the
/// modules, the last one first (context teardown, runtime shutdown).
#[derive(Debug)]
pub enum TeardownStep {
    /// Run the step on the module at this index, keeping the failure
    /// recorded so far.
    Call(usize, Option<RuntimeError>),
    /// The teardown is over, with this result.
    Finish(Result<(), RuntimeError>),
}

/// The first move of a teardown over `count` modules: the last module, or
/// success at once when there are none.
pub fn begin_teardown(count: usize) -> (s: TeardownStep)
    ensures
        count == 0 ==> (s matches TeardownStep::Finish(r) && r is Ok),
        count > 0 ==> (s matches TeardownStep::Call(i, first) && i == count - 1 && first is None),
{
    if count == 0 {
        TeardownStep::Finish(Ok(()))
    } else {
        TeardownStep::Call(count - 1, None)
    }
}

/// Whether `kept` is what a teardown records after a module's outcome: the
/// earlier failure if there was one, else this module's failure wrapped,
/// else none.
pub open spec fn kept_after(
    first: Option<RuntimeError>,
    module: &'static str,
    action: &'static str,
    outcome: Result<(), RuntimeError>,
    kept: Option<RuntimeError>,
) -> bool {
    &&& first is Some ==> kept == first
    &&& first is None && outcome is Ok ==> kept is None
    &&& first is None ==> (outcome matches Err(e) ==> (kept matches Some(w) && wrapped_as(
        w,
        module,
        action,
        e,
    )))
}

/// The move after module `index` (named `module`) ran teardown step
/// `action` with `outcome`, `first` being the failure recorded before:
/// every module runs whatever the others gave, the one before next; after
/// the first module the teardown fails with the first failure, if any.
pub fn after_teardown(
    index: usize,
    first: Option<RuntimeError>,
    module: &'static str,
    action: &'static str,
    outcome: Result<(), RuntimeError>,
) -> (s: TeardownStep)
    ensures
        index > 0 ==> (s matches TeardownStep::Call(i, kept) && i == index - 1 && kept_after(
            first,
            module,
            action,
            outcome,
            kept,
        )),
        index == 0 ==> (s matches TeardownStep::Finish(r) && (exists|kept: Option<RuntimeError>|
            (kept_after(first, module, action, outcome, kept) && (kept is None ==> r is Ok) && (
            kept matches Some(e) ==> r == Err::<(), RuntimeError>(e))))),
{
    let kept = keep_first_error(first, module, action, outcome);
    if index == 0 {
        let ghost k = kept;
        let r = teardown_result(kept);
        assert(kept_after(first, module, action, outcome, k) && (k is None ==> r is Ok) && (
            k matches Some(e) ==> r == Err::<(), RuntimeError>(e)));
        TeardownStep::Finish(r)
    } else {
        TeardownStep::Call(index - 1, kept)
    }
}

/// Folds the outcome of one module's teardown step into the error kept for
/// the whole teardown: the first failure is kept, wrapped with the module's
/// name and the step; later ones are dropped.
pub fn keep_first_error(
    first: Option<RuntimeError>,
    module: &'static str,
    action: &'static str,
    outcome: Result<(), RuntimeError>,
) -> (kept: Option<RuntimeError>)
    ensures
        kept_after(first, module, action, outcome, kept),
{
    match first {
        Some(e) => Some(e),
        None => match outcome {
            Ok(()) => None,
            Err(e) => Some(wrap_module_error(module, action, e)),
        },
    }
}

/// The result of a whole teardown: success unless some step failed, in
/// which case the first failure.
pub fn teardown_result(first: Option<RuntimeError>) -> (r: Result<(), RuntimeError>)
    ensures
        first is None ==> r is Ok,
        first matches Some(e) ==> r == Err::<(), RuntimeError>(e),
{
    match first {
        Some(e) => Err(e),
        None => Ok(()),
    }
}

proof fn lemma_undo_index(failed: nat, k: nat)
    ensures
        undo_index(failed, k) == failed - 1 - k,
    decreases k,
{
    if k > 0 {
        lemma_undo_index(failed, (k - 1) as nat);
    }
}

/// Undoing after a failure at module `failed` reaches every module that
/// had succeeded, exactly once, the most recent first, and no other: the
/// `k`-th module undone (`after_forward`, then `after_undo`) is the
/// `k`-th of `descending(failed)`.
pub proof fn lemma_rollback_reverses_started(failed: nat)
    requires
        failed <= usize::MAX,
    ensures
        descending(failed).len() == failed,
        forall|i: int| 0 <= i < failed ==> #[trigger] descending(failed)[i] == failed - 1 - i,
        forall|i: int, j: int|
            0 <= i < j < failed ==> #[trigger] descending(failed)[i] > #[trigger] descending(failed)[j],
        forall|m: int| 0 <= m < failed ==> #[trigger] descending(failed).contains(m as usize),
        forall|k: nat| k < failed ==> #[trigger] undo_index(failed, k) == descending(failed)[k as int],
{
    assert forall|k: nat| k < failed implies #[trigger] undo_index(failed, k) == descending(
        failed,
    )[k as int] by {
        lemma_undo_index(failed, k);
    }
    assert forall|m: int| 0 <= m < failed implies #[trigger] descending(failed).contains(
        m as usize,
    ) by {
        assert(descending(failed)[failed - 1 - m] == m as usize);
    }
}

} // verus!
