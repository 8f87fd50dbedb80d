//! Data model: bookings, holds, availability records, queries, and errors.

use vstd::prelude::*;

verus! {

/// Closed set of lifecycle states for a booking.
#[derive(Clone, Copy, Debug, PartialEq, Eq, Structural)]
pub enum BookingStatus {
    Requested,
    Accepted,
    Declined,
    Canceled,
    Confirmed,
    Completed,
    Disputed,
}

/// How the parent transaction of a booking is settled. `External`
/// transactions are settled entirely outside the system: such bookings are
/// created directly at `Confirmed` and skip settlement delegation on cancel
/// and complete.
#[derive(Clone, Copy, Debug, PartialEq, Eq, Structural)]
pub enum TransactionType {
    Marketplace,
    Bid,
    Invoice,
    External,
}

/// State of a transient reservation created during checkout.
#[derive(Clone, Copy, Debug, PartialEq, Eq, Structural)]
pub enum BookingHoldStatus {
    Pending,
    Blocked,
}

/// A committed reservation of `quantity` units of one rental over an
/// inclusive range of calendar days. Never deleted; mutated only via status
/// transitions.
#[derive(Clone, Copy, Debug, PartialEq, Eq)]
pub struct Booking {
    pub booking_id: u128,
    pub transaction_id: u128,
    pub rental_id: u128,
    pub vendor_id: u128,
    pub pricing_id: Option<u128>,
    pub quantity: u32,
    /// First reserved day, as a day number (inclusive).
    pub start_date: i64,
    /// Last reserved day, as a day number (inclusive).
    pub end_date: i64,
    pub booking_status: BookingStatus,
    /// Total price in minor currency units.
    pub total: i64,
    /// Whether the booking's own quantity is still available over its range;
    /// filled in by detail building, never persisted.
    pub available: Option<bool>,
}

/// A transient reservation of quantity over a date range made during
/// checkout: temporarily reserved, not-yet-committed capacity.
#[derive(Clone, Copy, Debug, PartialEq, Eq)]
pub struct BookingHold {
    pub rental_id: u128,
    pub transaction_id: u128,
    pub quantity: u32,
    /// First held day, as a day number (inclusive).
    pub start_date: i64,
    /// Last held day, as a day number (inclusive).
    pub end_date: i64,
    pub booking_hold_status: BookingHoldStatus,
}

/// Remaining capacity of a rental on one calendar day. Computed, never
/// stored. A negative value signals an overbooked day and is propagated,
/// never clamped.
#[derive(Clone, Copy, Debug, PartialEq, Eq, Structural)]
pub struct Availability {
    pub date: i64,
    pub available_quantity: i64,
}

/// Per-rental availability, one entry per queried rental, in query order.
#[derive(Debug, PartialEq, Eq)]
pub struct RentalAvailability {
    pub rental_id: u128,
    pub availability: Vec<Availability>,
}

/// Availability for several rentals, each computed independently.
#[derive(Debug, PartialEq, Eq)]
pub struct Availabilities {
    pub availabilities: Vec<RentalAvailability>,
}

/// A request to create a booking. External transactions carry an explicit
/// `total` and no `pricing_id`; all other transaction types carry a
/// `pricing_id` and no explicit `total`.
#[derive(Clone, Copy, Debug, PartialEq, Eq)]
pub struct RequestBooking {
    pub transaction_id: Option<u128>,
    pub transaction_type: TransactionType,
    pub rental_id: u128,
    pub vendor_id: u128,
    pub pricing_id: Option<u128>,
    pub total: Option<i64>,
    pub quantity: u32,
    pub start_date: i64,
    pub end_date: i64,
}

/// Criteria of a booking listing query; every absent criterion selects
/// everything. Detail building (rental data, availability flags) is a
/// separate step over the returned page.
#[derive(Debug, PartialEq, Eq, Default)]
pub struct GetBookingsQuery {
    pub transaction_ids: Option<Vec<u128>>,
    pub rental_id: Option<u128>,
    pub vendor_id: Option<u128>,
    /// Selects bookings that end on or after this day.
    pub start_date: Option<i64>,
    /// Selects bookings that start on or before this day.
    pub end_date: Option<i64>,
    pub booking_status: Option<BookingStatus>,
    /// Page to return, numbered from 1; absent means the first page.
    pub page: Option<u32>,
    /// Page size; absent means 20 entries.
    pub per_page: Option<u32>,
}

/// How a returned page relates to the full result.
#[derive(Clone, Copy, Debug, PartialEq, Eq, Structural)]
pub struct PaginationMeta {
    /// How many bookings match the query in all, across every page.
    pub total_count: usize,
    pub page: u32,
    pub per_page: u32,
}

/// One page of a booking listing.
#[derive(Debug, PartialEq, Eq)]
pub struct PaginatedResponse {
    pub data: Vec<Booking>,
    pub meta: PaginationMeta,
}

/// Parameters of one availability query over a single rental.
#[derive(Clone, Copy, Debug, PartialEq, Eq)]
pub struct GetAvailabilityQuery {
    pub rental_id: u128,
    /// First queried day, as a day number (inclusive).
    pub start_date: i64,
    /// Last queried day, as a day number (inclusive).
    pub end_date: i64,
    /// Holds belonging to this transaction do not count against capacity.
    pub exclude_transaction_id: Option<u128>,
    /// This booking does not count against capacity (self-recheck).
    pub exclude_booking_id: Option<u128>,
    /// When set, only holds in this state count against capacity; when
    /// `None`, every hold counts.
    pub booking_hold_status: Option<BookingHoldStatus>,
}

/// Parameters of one availability query over a set of rentals.
#[derive(Debug, PartialEq, Eq)]
pub struct GetAvailabilitiesQuery {
    pub rental_ids: Vec<u128>,
    pub start_date: i64,
    pub end_date: i64,
    pub exclude_transaction_id: Option<u128>,
    pub booking_hold_status: Option<BookingHoldStatus>,
}

/// Everything known about one rental that an availability computation needs:
/// its total inventory and the activity fetched for it over the queried
/// range.
#[derive(Debug, PartialEq, Eq)]
pub struct RentalAvailabilityData {
    pub rental_id: u128,
    pub total_quantity: u32,
    /// Per-day booked quantities, as `(day number, booked quantity)` pairs.
    pub booked_quantities: Vec<(i64, u32)>,
    pub booking_holds: Vec<BookingHold>,
}

/// Every failure the engine itself can signal.
#[derive(Clone, Copy, Debug, PartialEq, Eq, Structural)]
pub enum AppError {
    /// The requested lifecycle transition is not in the transition table.
    InvalidStatusTransition,
    /// At least one day in the queried range has fewer units available than
    /// requested.
    QuantityUnavailable,
    /// An external-type request carried a pricing reference.
    ExternalBookingWithPricingId,
    /// An external-type request carried no explicit total.
    ExternalBookingWithoutTotal,
    /// A non-external request carried no pricing reference.
    NonExternalBookingWithoutPricingId,
    /// A non-external request carried an explicit total.
    NonExternalBookingWithTotal,
    /// A booking cannot be completed before its rental period has ended.
    CompletionBeforeEndDate,
    /// No booking with the given identity exists.
    BookingNotFound,
    /// A per-day booked-quantity sum exceeded the supported range.
    BookedQuantityOverflow,
}

impl AppError {
    /// Validation errors are surfaced to the caller and never retried; they
    /// cover bad transitions, insufficient availability, malformed
    /// transaction-type/pricing combinations, and premature completion.
    pub open spec fn spec_is_validation_error(self) -> bool {
        self != AppError::BookingNotFound && self != AppError::BookedQuantityOverflow
    }

    /// Whether this error belongs to the validation taxonomy (as opposed to
    /// a missing entity or an unexpected failure).
    pub fn is_validation_error(&self) -> (r: bool)
        ensures
            r == self.spec_is_validation_error(),
    {
        match self {
            AppError::BookingNotFound => false,
            AppError::BookedQuantityOverflow => false,
            _ => true,
        }
    }

    /// Human-readable description of the error.
    pub fn message(&self) -> (r: String)
        ensures
            *self == AppError::InvalidStatusTransition ==> r@ == "Invalid status transition"@,
            *self == AppError::QuantityUnavailable ==> r@ == "Requested quantity exceeds available quantity."@,
            *self == AppError::BookingNotFound ==> r@ == "Booking not found"@,
    {
        match self {
            AppError::InvalidStatusTransition => "Invalid status transition".to_owned(),
            AppError::QuantityUnavailable => {
                "Requested quantity exceeds available quantity.".to_owned()
            },
            AppError::ExternalBookingWithPricingId => {
                "External bookings cannot have a pricing id".to_owned()
            },
            AppError::ExternalBookingWithoutTotal => {
                "External bookings must have a total".to_owned()
            },
            AppError::NonExternalBookingWithoutPricingId => {
                "Non-external bookings must have a pricing id".to_owned()
            },
            AppError::NonExternalBookingWithTotal => {
                "Non-external bookings cannot have a total".to_owned()
            },
            AppError::CompletionBeforeEndDate => {
                "Booking cannot be completed before its end date.".to_owned()
            },
            AppError::BookingNotFound => "Booking not found".to_owned(),
            AppError::BookedQuantityOverflow => {
                "Booked quantity exceeds the supported range".to_owned()
            },
        }
    }
}

/// Statuses that still count against available inventory: every status
/// except the terminal-negative `Declined` and `Canceled`.
pub open spec fn is_active_status(status: BookingStatus) -> bool {
    match status {
        BookingStatus::Requested => true,
        BookingStatus::Accepted => true,
        BookingStatus::Confirmed => true,
        BookingStatus::Completed => true,
        BookingStatus::Disputed => true,
        BookingStatus::Declined => false,
        BookingStatus::Canceled => false,
    }
}

/// The booking as it stands after a status transition: every other field
/// unchanged.
pub open spec fn with_status(booking: Booking, status: BookingStatus) -> Booking {
    Booking { booking_status: status, ..booking }
}

} // verus!
