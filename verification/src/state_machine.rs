//! Booking lifecycle state machine: which status transitions are legal.

use vstd::prelude::*;

use crate::model::AppError;
use crate::model::BookingStatus;

verus! {

/// The complete transition table over the closed status set:
///
/// | current    | allowed next                  |
/// |------------|-------------------------------|
/// | Requested  | Accepted, Declined, Canceled  |
/// | Accepted   | Confirmed, Canceled           |
/// | Confirmed  | Completed, Canceled           |
/// | Declined, Canceled, Completed, Disputed | none (terminal) |
pub open spec fn transition_allowed(current: BookingStatus, next: BookingStatus) -> bool {
    match current {
        BookingStatus::Requested => next == BookingStatus::Accepted || next
            == BookingStatus::Declined || next == BookingStatus::Canceled,
        BookingStatus::Accepted => next == BookingStatus::Confirmed || next
            == BookingStatus::Canceled,
        BookingStatus::Confirmed => next == BookingStatus::Completed || next
            == BookingStatus::Canceled,
        BookingStatus::Declined => false,
        BookingStatus::Canceled => false,
        BookingStatus::Completed => false,
        BookingStatus::Disputed => false,
    }
}

/// Accepts a `(current, next)` status pair exactly when the pair appears in
/// the transition table; every other pair fails with a validation error.
pub fn validate_booking_status_transition(
    current_status: BookingStatus,
    new_status: BookingStatus,
) -> (r: Result<(), AppError>)
    ensures
        r is Ok <==> transition_allowed(current_status, new_status),
        r is Err ==> r == Err::<(), AppError>(AppError::InvalidStatusTransition),
{
    match current_status {
        BookingStatus::Requested => match new_status {
            BookingStatus::Accepted | BookingStatus::Declined | BookingStatus::Canceled => Ok(()),
            _ => Err(AppError::InvalidStatusTransition),
        },
        BookingStatus::Accepted => match new_status {
            BookingStatus::Confirmed | BookingStatus::Canceled => Ok(()),
            _ => Err(AppError::InvalidStatusTransition),
        },
        BookingStatus::Confirmed => match new_status {
            BookingStatus::Completed | BookingStatus::Canceled => Ok(()),
            _ => Err(AppError::InvalidStatusTransition),
        },
        BookingStatus::Declined
        | BookingStatus::Canceled
        | BookingStatus::Completed
        | BookingStatus::Disputed => Err(AppError::InvalidStatusTransition),
    }
}

} // verus!
