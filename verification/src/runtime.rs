//! What the host sees of a route that ran.

use vstd::prelude::*;
use vstd::string::*;

use crate::exceptions::{
    bridge_exception, BridgeError, BridgeResult, PyException, PyExceptionView,
};

verus! {

/// The exception for a route whose task went away without a result.
pub open spec fn task_terminated() -> PyExceptionView {
    PyExceptionView::RuntimeError("native route task terminated"@)
}

/// The result of a route that the host waited for without an event loop: `received` is `None`
/// where the task went away without a result.
pub fn run_sync<T, E, F: Fn(E) -> PyException>(
    received: Option<Result<T, E>>,
    map_error: F,
) -> (r: Result<T, PyException>)
    requires
        received matches Some(Err(error)) ==> call_requires(map_error, (error,)),
    ensures
        received is None ==> (r matches Err(exception) && exception@ == task_terminated()),
        received matches Some(Ok(value)) ==> r == Ok::<T, PyException>(value),
        received matches Some(Err(error)) ==> (r matches Err(exception) && call_ensures(
            map_error,
            (error,),
            exception,
        )),
{
    match received {
        None => Err(PyException::RuntimeError("native route task terminated".to_owned())),
        Some(result) => run_async(result, map_error),
    }
}

/// The result of a route that the host awaits.
pub fn run_async<T, E, F: Fn(E) -> PyException>(result: Result<T, E>, map_error: F) -> (r: Result<
    T,
    PyException,
>)
    requires
        result matches Err(error) ==> call_requires(map_error, (error,)),
    ensures
        result matches Ok(value) ==> r == Ok::<T, PyException>(value),
        result matches Err(error) ==> (r matches Err(exception) && call_ensures(
            map_error,
            (error,),
            exception,
        )),
{
    match result {
        Ok(value) => Ok(value),
        Err(error) => Err(map_error(error)),
    }
}

/// What a bridge result is raised or returned as.
pub open spec fn seen_by_host<T>(result: BridgeResult<T>) -> Result<T, PyExceptionView> {
    match result {
        Ok(value) => Ok(value),
        Err(error) => Err(bridge_exception(error@)),
    }
}

/// The result of a bridge route that the host waited for: `received` is `None` where the task
/// went away without a result.
pub fn run_sync_with<T>(received: Option<BridgeResult<T>>) -> (r: Result<T, PyException>)
    ensures
        r matches Ok(value) ==> received == Some(Ok::<T, BridgeError>(value)),
        r matches Err(exception) ==> exception@ == (match received {
            None => task_terminated(),
            Some(result) => seen_by_host(result)->Err_0,
        }),
        r is Ok <==> received matches Some(Ok(_)),
{
    let raise = |error: BridgeError| -> (exception: PyException)
        ensures
            exception@ == bridge_exception(error@),
        { error.to_pyerr() };
    run_sync(received, raise)
}

/// The result of a bridge route that the host awaits.
pub fn run_async_with<T>(result: BridgeResult<T>) -> (r: Result<T, PyException>)
    ensures
        r matches Ok(value) ==> seen_by_host(result) == Ok::<T, PyExceptionView>(value),
        r matches Err(exception) ==> seen_by_host(result) == Err::<T, PyExceptionView>(exception@),
{
    match result {
        Ok(value) => Ok(value),
        Err(error) => Err(error.to_pyerr()),
    }
}

/// Whether the host waits for a route or awaits it, it sees the same result of a task that
/// finished.
pub proof fn waiting_and_awaiting_agree<T>(
    result: BridgeResult<T>,
    waited: Result<T, PyException>,
    awaited: Result<T, PyException>,
)
    requires
        call_ensures(run_sync_with::<T>, (Some(result),), waited),
        call_ensures(run_async_with::<T>, (result,), awaited),
    ensures
        waited is Ok <==> awaited is Ok,
        waited is Ok ==> waited->Ok_0 == awaited->Ok_0,
        waited is Err ==> waited->Err_0@ == awaited->Err_0@,
{
}

/// Whether two exceptions are of the same class and hold the same status and text.
pub open spec fn same_exception(a: PyException, b: PyException) -> bool {
    match a {
        PyException::ValueError(text) => b matches PyException::ValueError(other) && text@
            == other@,
        PyException::RuntimeError(text) => b matches PyException::RuntimeError(other) && text@
            == other@,
        PyException::Declined(text) => b matches PyException::Declined(other) && text@ == other@,
        PyException::Upstream { status, message } => b matches PyException::Upstream {
            status: code,
            message: other,
        } && status == code && message@ == other@,
    }
}

/// The host gets the value of a route that succeeded, unchanged, and for one that failed the
/// exception that its error is raised as, whether it waits or awaits. Where the task went away, a
/// host that waits gets a `RuntimeError` that says so.
pub proof fn host_gets_value_or_raised_error<T>(
    result: BridgeResult<T>,
    raised: PyException,
    waited: Result<T, PyException>,
    awaited: Result<T, PyException>,
    abandoned: Result<T, PyException>,
)
    requires
        call_ensures(run_sync_with::<T>, (Some(result),), waited),
        call_ensures(run_async_with::<T>, (result,), awaited),
        call_ensures(run_sync_with::<T>, (None::<BridgeResult<T>>,), abandoned),
        result matches Err(error) ==> call_ensures(BridgeError::to_pyerr, (error,), raised),
    ensures
        result matches Ok(value) ==> waited == Ok::<T, PyException>(value) && awaited == Ok::<
            T,
            PyException,
        >(value),
        result is Err ==> (waited matches Err(exception) && same_exception(exception, raised)) && (
        awaited matches Err(exception) && same_exception(exception, raised)),
        abandoned matches Err(PyException::RuntimeError(text)) && text@
            == "native route task terminated"@,
{
}

/// A route with its own mapping of errors is seen through that mapping: the value of one that
/// succeeded, what the mapping gives for one that failed, and a `RuntimeError` for one whose task
/// went away.
pub proof fn mapped_route_is_seen_through_mapping<T, E, F: Fn(E) -> PyException>(
    result: Result<T, E>,
    map_error: F,
    waited: Result<T, PyException>,
    awaited: Result<T, PyException>,
    abandoned: Result<T, PyException>,
)
    requires
        call_ensures(run_sync::<T, E, F>, (Some(result), map_error), waited),
        call_ensures(run_async::<T, E, F>, (result, map_error), awaited),
        call_ensures(run_sync::<T, E, F>, (None::<Result<T, E>>, map_error), abandoned),
    ensures
        match result {
            Ok(value) => waited == Ok::<T, PyException>(value) && awaited == Ok::<T, PyException>(
                value,
            ),
            Err(error) => (waited matches Err(exception) && call_ensures(
                map_error,
                (error,),
                exception,
            )) && (awaited matches Err(exception) && call_ensures(map_error, (error,), exception)),
        },
        abandoned matches Err(PyException::RuntimeError(text)) && text@
            == "native route task terminated"@,
{
}

} // verus!
