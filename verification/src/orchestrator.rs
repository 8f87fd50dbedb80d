//! Booking lifecycle orchestration: each operation validates, rechecks
//! availability where required, and decides the status write and the
//! settlement delegation. The decisions are pure; the caller performs the
//! collaborator calls (persistence, authorization, settlement) around them,
//! inside one atomic scope, and applies a write only when the decision
//! succeeded.

use vstd::prelude::*;

use crate::availability::MAX_RANGE_DAYS;
use crate::availability::MAX_SERIES_LEN;
use crate::availability::all_days_available;
use crate::availability::check_availability;
use crate::availability::self_recheck_query;
use crate::model::AppError;
use crate::model::Booking;
use crate::model::BookingHold;
use crate::model::BookingHoldStatus;
use crate::model::BookingStatus;
use crate::model::GetAvailabilityQuery;
use crate::model::RequestBooking;
use crate::model::TransactionType;
use crate::model::with_status;
use crate::state_machine::transition_allowed;
use crate::state_machine::validate_booking_status_transition;

verus! {

/// A settlement delegation that an operation decided on; the caller invokes
/// the matching settlement collaborator inside the same atomic scope.
#[derive(Clone, Copy, Debug, PartialEq, Eq)]
pub enum SettlementCall {
    /// Run the accept/decline aggregation of the parent transaction.
    AcceptDecline { transaction_id: u128 },
    /// Run the cancellation settlement (refund/notification policy), which
    /// may depend on how far the booking had progressed before the cancel.
    CancelBooking { transaction_id: u128, booking_id: u128, previous_status: BookingStatus },
    /// Run the payout settlement of the completed booking's transaction.
    Complete { transaction_id: u128, vendor_id: u128 },
}

/// Whether a booking request carries a coherent transaction-type/pricing
/// combination: external requests carry an explicit total and no pricing
/// reference; all other requests carry a pricing reference and no explicit
/// total.
pub open spec fn request_coherent(request: RequestBooking) -> bool {
    if request.transaction_type == TransactionType::External {
        request.pricing_id is None && request.total is Some
    } else {
        request.pricing_id is Some && request.total is None
    }
}

/// The availability query a booking request poses: its rental and range,
/// holds of its own transaction excluded, and only `Blocked` holds counted
/// (`Pending` holds do not block new requests).
pub open spec fn request_query(request: RequestBooking) -> GetAvailabilityQuery {
    GetAvailabilityQuery {
        rental_id: request.rental_id,
        start_date: request.start_date,
        end_date: request.end_date,
        exclude_transaction_id: request.transaction_id,
        exclude_booking_id: None,
        booking_hold_status: Some(BookingHoldStatus::Blocked),
    }
}

/// The booking a successful request creates: externally settled requests
/// start directly at `Confirmed` with their explicit total; all others
/// start at `Requested` with the total the pricing collaborator computed.
pub open spec fn requested_booking(
    request: RequestBooking,
    new_booking_id: u128,
    priced_total: i64,
) -> Booking {
    Booking {
        booking_id: new_booking_id,
        transaction_id: request.transaction_id.unwrap(),
        rental_id: request.rental_id,
        vendor_id: request.vendor_id,
        pricing_id: request.pricing_id,
        quantity: request.quantity,
        start_date: request.start_date,
        end_date: request.end_date,
        booking_status: if request.transaction_type == TransactionType::External {
            BookingStatus::Confirmed
        } else {
            BookingStatus::Requested
        },
        total: if request.transaction_type == TransactionType::External {
            request.total.unwrap()
        } else {
            priced_total
        },
        available: None,
    }
}

/// Validates a booking request and creates the booking record when the
/// requested quantity is available on every day of its range.
///
/// The booked-quantity series and the hold list are the activity fetched
/// for the requested rental over the requested range; only `Blocked` holds
/// of other transactions count against the request. `new_booking_id` is the
/// identity the caller allocated for the booking; `priced_total` is the
/// total the pricing collaborator computed, required for every non-external
/// request (external requests carry their own total).
pub fn request_booking(
    request: &RequestBooking,
    new_booking_id: u128,
    priced_total: Option<i64>,
    total_quantity: u32,
    booked_quantities: &Vec<(i64, u32)>,
    booking_holds: &Vec<BookingHold>,
) -> (r: Result<Booking, AppError>)
    requires
        request.start_date <= request.end_date,
        request.end_date - request.start_date + 1 <= MAX_RANGE_DAYS,
        booked_quantities@.len() <= MAX_SERIES_LEN,
        booking_holds@.len() <= MAX_SERIES_LEN,
        request.transaction_id is Some,
        request.transaction_type != TransactionType::External ==> priced_total is Some,
    ensures
        r is Ok <==> request_coherent(*request) && all_days_available(
            request.quantity,
            total_quantity,
            booked_quantities@,
            booking_holds@,
            request_query(*request),
        ),
        r matches Ok(b) ==> b == requested_booking(
            *request,
            new_booking_id,
            if priced_total is Some { priced_total.unwrap() } else { 0 },
        ),
        request.transaction_type == TransactionType::External && request.pricing_id is Some ==> r
            == Err::<Booking, AppError>(AppError::ExternalBookingWithPricingId),
        request.transaction_type == TransactionType::External && request.pricing_id is None
            && request.total is None ==> r == Err::<Booking, AppError>(
            AppError::ExternalBookingWithoutTotal,
        ),
        request.transaction_type != TransactionType::External && request.pricing_id is None ==> r
            == Err::<Booking, AppError>(AppError::NonExternalBookingWithoutPricingId),
        request.transaction_type != TransactionType::External && request.pricing_id is Some
            && request.total is Some ==> r == Err::<Booking, AppError>(
            AppError::NonExternalBookingWithTotal,
        ),
        request_coherent(*request) && !all_days_available(
            request.quantity,
            total_quantity,
            booked_quantities@,
            booking_holds@,
            request_query(*request),
        ) ==> r == Err::<Booking, AppError>(AppError::QuantityUnavailable),
{
    let external = match request.transaction_type {
        TransactionType::External => true,
        _ => false,
    };
    if external {
        if request.pricing_id.is_some() {
            return Err(AppError::ExternalBookingWithPricingId);
        }
        if request.total.is_none() {
            return Err(AppError::ExternalBookingWithoutTotal);
        }
    } else {
        if request.pricing_id.is_none() {
            return Err(AppError::NonExternalBookingWithoutPricingId);
        }
        if request.total.is_some() {
            return Err(AppError::NonExternalBookingWithTotal);
        }
    }
    let availability_query = GetAvailabilityQuery {
        rental_id: request.rental_id,
        start_date: request.start_date,
        end_date: request.end_date,
        exclude_transaction_id: request.transaction_id,
        exclude_booking_id: None,
        booking_hold_status: Some(BookingHoldStatus::Blocked),
    };
    match check_availability(
        request.quantity,
        &availability_query,
        total_quantity,
        booked_quantities,
        booking_holds,
    ) {
        Err(e) => {
            return Err(e);
        },
        Ok(_) => {},
    }
    let booking_status = if external {
        BookingStatus::Confirmed
    } else {
        BookingStatus::Requested
    };
    let total = if external {
        request.total.unwrap()
    } else {
        priced_total.unwrap()
    };
    Ok(
        Booking {
            booking_id: new_booking_id,
            transaction_id: request.transaction_id.unwrap(),
            rental_id: request.rental_id,
            vendor_id: request.vendor_id,
            pricing_id: request.pricing_id,
            quantity: request.quantity,
            start_date: request.start_date,
            end_date: request.end_date,
            booking_status,
            total,
            available: None,
        },
    )
}

/// Accepts a booking: validates the transition to `Accepted`, re-runs the
/// availability check for the booking's own quantity and range, and decides
/// the status write and the accept/decline settlement of the parent
/// transaction.
///
/// The booked-quantity series must have been fetched with this booking
/// excluded from its own count (`exclude_booking_id = booking.booking_id`),
/// as `self_recheck_query` states; `list_booked_quantities` realizes that
/// fetch in memory.
pub fn accept_booking(
    booking: &Booking,
    total_quantity: u32,
    booked_quantities: &Vec<(i64, u32)>,
    booking_holds: &Vec<BookingHold>,
) -> (r: Result<(Booking, SettlementCall), AppError>)
    requires
        booking.start_date <= booking.end_date,
        booking.end_date - booking.start_date + 1 <= MAX_RANGE_DAYS,
        booked_quantities@.len() <= MAX_SERIES_LEN,
        booking_holds@.len() <= MAX_SERIES_LEN,
    ensures
        r is Ok <==> transition_allowed(booking.booking_status, BookingStatus::Accepted)
            && all_days_available(
            booking.quantity,
            total_quantity,
            booked_quantities@,
            booking_holds@,
            self_recheck_query(*booking),
        ),
        !transition_allowed(booking.booking_status, BookingStatus::Accepted) ==> r == Err::<
            (Booking, SettlementCall),
            AppError,
        >(AppError::InvalidStatusTransition),
        transition_allowed(booking.booking_status, BookingStatus::Accepted)
            && !all_days_available(
            booking.quantity,
            total_quantity,
            booked_quantities@,
            booking_holds@,
            self_recheck_query(*booking),
        ) ==> r == Err::<(Booking, SettlementCall), AppError>(AppError::QuantityUnavailable),
        r matches Ok((b, s)) ==> b == with_status(*booking, BookingStatus::Accepted) && s
            == (SettlementCall::AcceptDecline { transaction_id: booking.transaction_id }),
{
    match validate_booking_status_transition(booking.booking_status, BookingStatus::Accepted) {
        Err(e) => {
            return Err(e);
        },
        Ok(_) => {},
    }
    let availability_query = GetAvailabilityQuery {
        rental_id: booking.rental_id,
        start_date: booking.start_date,
        end_date: booking.end_date,
        exclude_transaction_id: None,
        exclude_booking_id: Some(booking.booking_id),
        booking_hold_status: Some(BookingHoldStatus::Blocked),
    };
    match check_availability(
        booking.quantity,
        &availability_query,
        total_quantity,
        booked_quantities,
        booking_holds,
    ) {
        Err(e) => {
            return Err(e);
        },
        Ok(_) => {},
    }
    let updated = update_booking_status(booking, BookingStatus::Accepted);
    Ok((updated, SettlementCall::AcceptDecline { transaction_id: booking.transaction_id }))
}

/// Declines a booking: validates the transition to `Declined` and decides
/// the status write and the accept/decline settlement of the parent
/// transaction. Declining only frees capacity, so no availability recheck
/// is needed.
pub fn decline_booking(booking: &Booking) -> (r: Result<(Booking, SettlementCall), AppError>)
    ensures
        r is Ok <==> transition_allowed(booking.booking_status, BookingStatus::Declined),
        r is Err ==> r == Err::<(Booking, SettlementCall), AppError>(
            AppError::InvalidStatusTransition,
        ),
        r matches Ok((b, s)) ==> b == with_status(*booking, BookingStatus::Declined) && s
            == (SettlementCall::AcceptDecline { transaction_id: booking.transaction_id }),
{
    match validate_booking_status_transition(booking.booking_status, BookingStatus::Declined) {
        Err(e) => {
            return Err(e);
        },
        Ok(_) => {},
    }
    let updated = update_booking_status(booking, BookingStatus::Declined);
    Ok((updated, SettlementCall::AcceptDecline { transaction_id: booking.transaction_id }))
}

/// Whether a cancellation is authorized given the outcomes of its two
/// alternative authorization paths: the caller first attempts
/// vendor-employee authorization and, only if that fails, authorization as
/// the parent transaction's requesting user; only a failure of both denies
/// the cancellation.
pub fn cancel_authorized(employee_authorized: bool, user_authorized: bool) -> (r: bool)
    ensures
        r == (employee_authorized || user_authorized),
{
    employee_authorized || user_authorized
}

/// Cancels a booking: validates the transition to `Canceled` and decides
/// the status write and the settlement delegation. Bookings of external
/// transactions are settled outside the system, so they trigger no
/// refund/notification settlement; all others delegate with the booking's
/// pre-cancel status, on which the refund/notification policy may depend.
pub fn cancel_booking(booking: &Booking, transaction_type: TransactionType) -> (r: Result<
    (Booking, Option<SettlementCall>),
    AppError,
>)
    ensures
        r is Ok <==> transition_allowed(booking.booking_status, BookingStatus::Canceled),
        r is Err ==> r == Err::<(Booking, Option<SettlementCall>), AppError>(
            AppError::InvalidStatusTransition,
        ),
        r matches Ok((b, s)) ==> b == with_status(*booking, BookingStatus::Canceled) && s == (
        if transaction_type == TransactionType::External {
            None::<SettlementCall>
        } else {
            Some(
                SettlementCall::CancelBooking {
                    transaction_id: booking.transaction_id,
                    booking_id: booking.booking_id,
                    previous_status: booking.booking_status,
                },
            )
        }),
{
    match validate_booking_status_transition(booking.booking_status, BookingStatus::Canceled) {
        Err(e) => {
            return Err(e);
        },
        Ok(_) => {},
    }
    let previous_status = booking.booking_status;
    let updated = update_booking_status(booking, BookingStatus::Canceled);
    let settlement = match transaction_type {
        TransactionType::External => None,
        _ => Some(
            SettlementCall::CancelBooking {
                transaction_id: booking.transaction_id,
                booking_id: booking.booking_id,
                previous_status,
            },
        ),
    };
    Ok((updated, settlement))
}

/// Completes a booking: validates the transition to `Completed`, rejects
/// completion before the rental period has ended (the current day is still
/// on or before the booking's end date), and decides the status write and
/// the payout settlement. Bookings of external transactions trigger no
/// payout.
///
/// `current_date` is the current UTC calendar day, as a day number.
pub fn complete_booking(
    booking: &Booking,
    transaction_type: TransactionType,
    current_date: i64,
) -> (r: Result<(Booking, Option<SettlementCall>), AppError>)
    ensures
        r is Ok <==> transition_allowed(booking.booking_status, BookingStatus::Completed)
            && booking.end_date < current_date,
        !transition_allowed(booking.booking_status, BookingStatus::Completed) ==> r == Err::<
            (Booking, Option<SettlementCall>),
            AppError,
        >(AppError::InvalidStatusTransition),
        transition_allowed(booking.booking_status, BookingStatus::Completed) && booking.end_date
            >= current_date ==> r == Err::<(Booking, Option<SettlementCall>), AppError>(
            AppError::CompletionBeforeEndDate,
        ),
        r matches Ok((b, s)) ==> b == with_status(*booking, BookingStatus::Completed) && s == (
        if transaction_type == TransactionType::External {
            None::<SettlementCall>
        } else {
            Some(
                SettlementCall::Complete {
                    transaction_id: booking.transaction_id,
                    vendor_id: booking.vendor_id,
                },
            )
        }),
{
    match validate_booking_status_transition(booking.booking_status, BookingStatus::Completed) {
        Err(e) => {
            return Err(e);
        },
        Ok(_) => {},
    }
    if booking.end_date >= current_date {
        return Err(AppError::CompletionBeforeEndDate);
    }
    let updated = update_booking_status(booking, BookingStatus::Completed);
    let settlement = match transaction_type {
        TransactionType::External => None,
        _ => Some(
            SettlementCall::Complete {
                transaction_id: booking.transaction_id,
                vendor_id: booking.vendor_id,
            },
        ),
    };
    Ok((updated, settlement))
}

/// Applies the `Confirmed` status to one booking, leaving every other field
/// unchanged. Used once a parent transaction's accept/decline aggregation
/// decides its sub-bookings should be confirmed.
pub fn confirm_booking(booking: &Booking) -> (r: Booking)
    ensures
        r == with_status(*booking, BookingStatus::Confirmed),
{
    update_booking_status(booking, BookingStatus::Confirmed)
}

/// Applies the `Confirmed` status to many bookings sequentially, each
/// independently, keeping their order.
#[verifier::loop_isolation(false)]
pub fn confirm_bookings(bookings: &Vec<Booking>) -> (r: Vec<Booking>)
    ensures
        r@.len() == bookings@.len(),
        forall|i: int|
            0 <= i < bookings@.len() ==> #[trigger] r@[i] == with_status(
                bookings@[i],
                BookingStatus::Confirmed,
            ),
{
    let mut updated_bookings: Vec<Booking> = Vec::new();
    let mut k: usize = 0;
    while k < bookings.len()
        invariant
            k <= bookings@.len(),
            updated_bookings@.len() == k,
            forall|i: int|
                0 <= i < k ==> #[trigger] updated_bookings@[i] == with_status(
                    bookings@[i],
                    BookingStatus::Confirmed,
                ),
        decreases bookings@.len() - k,
    {
        let updated = confirm_booking(&bookings[k]);
        updated_bookings.push(updated);
        k = k + 1;
    }
    updated_bookings
}

/// The booking as it stands after a status write: the new status, every
/// other field unchanged.
pub fn update_booking_status(booking: &Booking, booking_status: BookingStatus) -> (r: Booking)
    ensures
        r == with_status(*booking, booking_status),
{
    Booking {
        booking_id: booking.booking_id,
        transaction_id: booking.transaction_id,
        rental_id: booking.rental_id,
        vendor_id: booking.vendor_id,
        pricing_id: booking.pricing_id,
        quantity: booking.quantity,
        start_date: booking.start_date,
        end_date: booking.end_date,
        booking_status,
        total: booking.total,
        available: booking.available,
    }
}

/// Applies a status write to the stored booking with the given identity
/// (the first match) and returns the updated record; fails exactly when no
/// stored booking carries the identity, leaving the store unchanged.
#[verifier::loop_isolation(false)]
pub fn update_booking_status_by_booking_id(
    bookings: &mut Vec<Booking>,
    booking_id: u128,
    booking_status: BookingStatus,
) -> (r: Result<Booking, AppError>)
    ensures
        r is Ok <==> exists|i: int|
            0 <= i < old(bookings)@.len() && (#[trigger] old(bookings)@[i]).booking_id
                == booking_id,
        r matches Ok(b) ==> exists|i: int|
            0 <= i < old(bookings)@.len() && (#[trigger] old(bookings)@[i]).booking_id
                == booking_id && (forall|j: int|
                0 <= j < i ==> old(bookings)@[j].booking_id != booking_id) && b == with_status(
                old(bookings)@[i],
                booking_status,
            ) && final(bookings)@ == old(bookings)@.update(i, b),
        r is Err ==> r == Err::<Booking, AppError>(AppError::BookingNotFound) && final(bookings)@
            == old(bookings)@,
{
    let mut k: usize = 0;
    while k < bookings.len()
        invariant
            k <= bookings@.len(),
            bookings@ == old(bookings)@,
            forall|j: int| 0 <= j < k ==> (#[trigger] bookings@[j]).booking_id != booking_id,
        decreases bookings@.len() - k,
    {
        if bookings[k].booking_id == booking_id {
            let current = bookings[k];
            let updated = update_booking_status(&current, booking_status);
            bookings[k] = updated;
            return Ok(updated);
        }
        k = k + 1;
    }
    Err(AppError::BookingNotFound)
}

/// Looks a booking up by identity in a list of bookings, returning the
/// first match; fails exactly when no booking in the list carries the
/// identity.
#[verifier::loop_isolation(false)]
pub fn get_booking_by_booking_id(booking_id: u128, bookings: &Vec<Booking>) -> (r: Result<
    Booking,
    AppError,
>)
    ensures
        r is Ok <==> exists|i: int|
            0 <= i < bookings@.len() && (#[trigger] bookings@[i]).booking_id == booking_id,
        r matches Ok(b) ==> exists|i: int|
            0 <= i < bookings@.len() && b == #[trigger] bookings@[i] && b.booking_id == booking_id
                && forall|j: int| 0 <= j < i ==> bookings@[j].booking_id != booking_id,
        r is Err ==> r == Err::<Booking, AppError>(AppError::BookingNotFound),
{
    let mut k: usize = 0;
    while k < bookings.len()
        invariant
            k <= bookings@.len(),
            forall|j: int| 0 <= j < k ==> (#[trigger] bookings@[j]).booking_id != booking_id,
        decreases bookings@.len() - k,
    {
        if bookings[k].booking_id == booking_id {
            return Ok(bookings[k]);
        }
        k = k + 1;
    }
    Err(AppError::BookingNotFound)
}

} // verus!
