//! How a memory deletion ends: what its execution came to decides whether the lease
//! is used up or given back.

use vstd::prelude::*;

use crate::command_types::MemoryCommandResult;
use crate::forget_authorization::{
    complete_step, released, ForgetStateView, MemoryForgetCoordinator, MemoryForgetReservation,
};
use crate::memory_error::{MemoryError, MemoryErrorView};
use crate::rpc_memory::{MemoryForgetResult, MemoryForgetResultView};
use crate::tool_error::{tool_result, ToolCallError, ToolCallErrorView};

verus! {

/// Why a deletion did not end well.
#[derive(Debug, PartialEq, Eq)]
pub enum MemoryForgetExecutionError {
    /// The coordinator did not accept the end of the deletion.
    Coordinator(ToolCallError),
    /// The store refused the deletion.
    Storage(MemoryError),
    /// The deletion was performed, but the readable page was not refreshed.
    Projection(MemoryError),
    /// The execution returned something else than a deletion.
    UnexpectedResult,
}

/// The view of [`MemoryForgetExecutionError`].
pub enum MemoryForgetExecutionErrorView {
    Coordinator(ToolCallErrorView),
    Storage(MemoryErrorView),
    Projection(MemoryErrorView),
    UnexpectedResult,
}

impl View for MemoryForgetExecutionError {
    type V = MemoryForgetExecutionErrorView;

    open spec fn view(&self) -> MemoryForgetExecutionErrorView {
        match self {
            MemoryForgetExecutionError::Coordinator(error) => {
                MemoryForgetExecutionErrorView::Coordinator(error@)
            },
            MemoryForgetExecutionError::Storage(error) => {
                MemoryForgetExecutionErrorView::Storage(error@)
            },
            MemoryForgetExecutionError::Projection(error) => {
                MemoryForgetExecutionErrorView::Projection(error@)
            },
            MemoryForgetExecutionError::UnexpectedResult => {
                MemoryForgetExecutionErrorView::UnexpectedResult
            },
        }
    }
}

/// The end of a deletion: the state that it leaves, and what it returns.
pub struct ForgetEnd {
    pub state: ForgetStateView,
    pub result: Result<MemoryForgetResultView, MemoryForgetExecutionErrorView>,
}

/// The ID of the entry that a deletion forgot.
pub open spec fn forgotten_id(result: MemoryForgetResultView) -> Option<Seq<char>> {
    match result.forgotten {
        Some(entry) => Some(entry.entry_id),
        None => None,
    }
}

/// The end of a deletion that was performed. Where the coordinator does not accept
/// it, the lease is given back.
pub open spec fn performed(
    state: ForgetStateView,
    reservation_id: u64,
    forgotten: MemoryForgetResultView,
    result: Result<MemoryForgetResultView, MemoryForgetExecutionErrorView>,
) -> ForgetEnd {
    let step = complete_step(state, reservation_id, forgotten_id(forgotten));
    match step.result {
        Ok(_) => ForgetEnd { state: step.state, result },
        Err(error) => ForgetEnd {
            state: released(step.state, reservation_id),
            result: Err(MemoryForgetExecutionErrorView::Coordinator(error)),
        },
    }
}

/// The end of a deletion, whatever its execution came to.
pub open spec fn forget_end(
    state: ForgetStateView,
    reservation_id: u64,
    executed: Result<MemoryCommandResult, MemoryError>,
) -> ForgetEnd {
    match executed {
        Ok(MemoryCommandResult::Forget(result)) => performed(
            state,
            reservation_id,
            result@,
            Ok(result@),
        ),
        Ok(_) => ForgetEnd {
            state: released(state, reservation_id),
            result: Err(MemoryForgetExecutionErrorView::UnexpectedResult),
        },
        Err(MemoryError::ForgetCommitted { result, projection_error }) => performed(
            state,
            reservation_id,
            (*result)@,
            Err(MemoryForgetExecutionErrorView::Projection((*projection_error)@)),
        ),
        Err(error) => ForgetEnd {
            state: released(state, reservation_id),
            result: Err(MemoryForgetExecutionErrorView::Storage(error@)),
        },
    }
}

/// The view of what the end of a deletion returns.
pub open spec fn end_result(
    result: Result<MemoryForgetResult, MemoryForgetExecutionError>,
) -> Result<MemoryForgetResultView, MemoryForgetExecutionErrorView> {
    match result {
        Ok(result) => Ok(result@),
        Err(error) => Err(error@),
    }
}

fn complete_or_release(
    coordinator: &mut MemoryForgetCoordinator,
    reservation: MemoryForgetReservation,
    forgotten: &MemoryForgetResult,
) -> (result: Result<(), ToolCallError>)
    requires
        old(coordinator).well_formed(),
    ensures
        final(coordinator).well_formed(),
        ({
            let step = complete_step(
                old(coordinator)@,
                reservation.reservation_id,
                forgotten_id(forgotten@),
            );
            &&& tool_result(result) == step.result
            &&& final(coordinator)@ == match step.result {
                Ok(_) => step.state,
                Err(_) => released(step.state, reservation.reservation_id),
            }
        }),
{
    let entry = match &forgotten.forgotten {
        Some(entry) => Some(entry),
        None => None,
    };
    let lease = MemoryForgetReservation { reservation_id: reservation.reservation_id };
    let completed = coordinator.complete(reservation, entry);
    if completed.is_err() {
        coordinator.release(lease);
    }
    completed
}

/// Ends a deletion whose execution came to something.
pub fn complete_forget_execution(
    coordinator: &mut MemoryForgetCoordinator,
    reservation: MemoryForgetReservation,
    executed: Result<MemoryCommandResult, MemoryError>,
) -> (result: Result<MemoryForgetResult, MemoryForgetExecutionError>)
    requires
        old(coordinator).well_formed(),
    ensures
        final(coordinator).well_formed(),
        forget_end(old(coordinator)@, reservation.reservation_id, executed) == (ForgetEnd {
            state: final(coordinator)@,
            result: end_result(result),
        }),
{
    match executed {
        Ok(MemoryCommandResult::Forget(forgotten)) => {
            match complete_or_release(coordinator, reservation, &forgotten) {
                Ok(_) => Ok(forgotten),
                Err(error) => Err(MemoryForgetExecutionError::Coordinator(error)),
            }
        },
        Ok(_) => {
            coordinator.release(reservation);
            Err(MemoryForgetExecutionError::UnexpectedResult)
        },
        Err(MemoryError::ForgetCommitted { result, projection_error }) => {
            match complete_or_release(coordinator, reservation, &*result) {
                Ok(_) => Err(MemoryForgetExecutionError::Projection(*projection_error)),
                Err(error) => Err(MemoryForgetExecutionError::Coordinator(error)),
            }
        },
        Err(error) => {
            coordinator.release(reservation);
            Err(MemoryForgetExecutionError::Storage(error))
        },
    }
}

/// However a deletion ends, its lease is free afterwards.
pub proof fn law_lease_is_free_after_the_end(
    state: ForgetStateView,
    reservation_id: u64,
    executed: Result<MemoryCommandResult, MemoryError>,
)
    ensures
        forget_end(state, reservation_id, executed).state.active matches Some(active)
            ==> active.reservation_id != reservation_id,
{
}

/// A deletion that was performed is told apart from one that was not: only where
/// the store performed it, and the coordinator accepted that, does a caller learn
/// of a forgotten entry or of a page that was not refreshed.
pub proof fn law_performed_deletion_is_reported(
    state: ForgetStateView,
    reservation_id: u64,
    executed: Result<MemoryCommandResult, MemoryError>,
)
    ensures
        forget_end(state, reservation_id, executed).result is Ok ==> executed matches Ok(
            MemoryCommandResult::Forget(_),
        ),
        forget_end(state, reservation_id, executed).result matches Err(
            MemoryForgetExecutionErrorView::Projection(_),
        ) ==> executed matches Err(MemoryError::ForgetCommitted { .. }),
{
}

} // verus!
