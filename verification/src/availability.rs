//! Availability engine: merges per-day booked quantities and holds into a
//! date-indexed series and derives per-day remaining capacity.

use vstd::prelude::*;

use crate::model::Availabilities;
use crate::model::Availability;
use crate::model::AppError;
use crate::model::Booking;
use crate::model::BookingHold;
use crate::model::GetAvailabilitiesQuery;
use crate::model::GetAvailabilityQuery;
use crate::model::RentalAvailability;
use crate::model::RentalAvailabilityData;
use crate::model::BookingHoldStatus;
use crate::model::BookingStatus;
use crate::model::is_active_status;

verus! {

/// Largest accepted number of entries in a booked-quantity series, a hold
/// list, or a booking list. Keeps every per-day sum within `i64`.
pub const MAX_SERIES_LEN: usize = 0x2000_0000;

/// Largest accepted number of calendar days in one queried date range.
pub const MAX_RANGE_DAYS: i64 = 0x1000_0000;

/// Largest per-day booked or held sum that the calculator accepts:
/// `MAX_SERIES_LEN` entries of at most `u32::MAX` each.
pub const MAX_DAY_TOTAL: i64 = 0x2000_0000i64 * 0xFFFF_FFFFi64;

/// One day of the aggregated series: how much of the rental is booked and
/// how much is held on that day.
#[derive(Clone, Copy, Debug, PartialEq, Eq, Structural)]
pub struct DayTotals {
    pub date: i64,
    pub booked: i64,
    pub held: i64,
}

/// Sum of the quantities of the first `n` series entries that fall on `day`.
pub open spec fn booked_on_prefix(booked: Seq<(i64, u32)>, day: int, n: int) -> int
    decreases n,
{
    if n <= 0 {
        0
    } else {
        booked_on_prefix(booked, day, n - 1) + if booked[n - 1].0 == day {
            booked[n - 1].1 as int
        } else {
            0
        }
    }
}

/// Total booked quantity that a series carries on `day`, duplicates summed.
pub open spec fn booked_on(booked: Seq<(i64, u32)>, day: int) -> int {
    booked_on_prefix(booked, day, booked.len() as int)
}

/// Whether a hold reserves capacity on `day`: its inclusive date range
/// covers the day.
pub open spec fn hold_covers(hold: BookingHold, day: int) -> bool {
    hold.start_date <= day <= hold.end_date
}

/// Sum of the quantities of the first `n` holds that cover `day`.
pub open spec fn held_on_prefix(holds: Seq<BookingHold>, day: int, n: int) -> int
    decreases n,
{
    if n <= 0 {
        0
    } else {
        held_on_prefix(holds, day, n - 1) + if hold_covers(holds[n - 1], day) {
            holds[n - 1].quantity as int
        } else {
            0
        }
    }
}

/// Total held quantity that a hold list carries on `day`.
pub open spec fn held_on(holds: Seq<BookingHold>, day: int) -> int {
    held_on_prefix(holds, day, holds.len() as int)
}

/// Whether a hold is selected by an availability query: it belongs to the
/// queried rental, matches the hold-status filter (when one is given), and
/// does not belong to the excluded transaction.
pub open spec fn hold_matches_query(hold: BookingHold, q: GetAvailabilityQuery) -> bool {
    hold.rental_id == q.rental_id && (match q.booking_hold_status {
        Some(status) => hold.booking_hold_status == status,
        None => true,
    }) && (match q.exclude_transaction_id {
        Some(transaction_id) => hold.transaction_id != transaction_id,
        None => true,
    })
}

/// The holds among the first `n` that a query selects, in input order.
pub open spec fn filtered_holds_prefix(
    holds: Seq<BookingHold>,
    q: GetAvailabilityQuery,
    n: int,
) -> Seq<BookingHold>
    decreases n,
{
    if n <= 0 {
        Seq::empty()
    } else {
        let rest = filtered_holds_prefix(holds, q, n - 1);
        if hold_matches_query(holds[n - 1], q) {
            rest.push(holds[n - 1])
        } else {
            rest
        }
    }
}

/// The holds that a query selects, in input order.
pub open spec fn filtered_holds(holds: Seq<BookingHold>, q: GetAvailabilityQuery) -> Seq<
    BookingHold,
> {
    filtered_holds_prefix(holds, q, holds.len() as int)
}

/// Total held quantity on `day` among the holds that the query selects.
pub open spec fn held_on_query(
    holds: Seq<BookingHold>,
    q: GetAvailabilityQuery,
    day: int,
) -> int {
    held_on(filtered_holds(holds, q), day)
}

/// Remaining capacity on `day`: total inventory minus the booked sum minus
/// the held sum of the holds the query selects. Not clamped: a negative
/// value signals an overbooked day.
pub open spec fn available_on(
    total_quantity: u32,
    booked: Seq<(i64, u32)>,
    holds: Seq<BookingHold>,
    q: GetAvailabilityQuery,
    day: int,
) -> int {
    total_quantity - booked_on(booked, day) - held_on_query(holds, q, day)
}

/// Whether every day of the queried range keeps at least `quantity` units
/// available.
pub open spec fn all_days_available(
    quantity: u32,
    total_quantity: u32,
    booked: Seq<(i64, u32)>,
    holds: Seq<BookingHold>,
    q: GetAvailabilityQuery,
) -> bool {
    forall|day: int|
        q.start_date <= day <= q.end_date ==> available_on(
            total_quantity,
            booked,
            holds,
            q,
            day,
        ) >= quantity
}

pub proof fn lemma_booked_on_prefix_bounds(booked: Seq<(i64, u32)>, day: int, n: int)
    requires
        0 <= n <= booked.len(),
    ensures
        0 <= booked_on_prefix(booked, day, n) <= n * 0xFFFF_FFFF,
    decreases n,
{
    if n > 0 {
        lemma_booked_on_prefix_bounds(booked, day, n - 1);
    }
}

pub proof fn lemma_held_on_prefix_bounds(holds: Seq<BookingHold>, day: int, n: int)
    requires
        0 <= n <= holds.len(),
    ensures
        0 <= held_on_prefix(holds, day, n) <= n * 0xFFFF_FFFF,
    decreases n,
{
    if n > 0 {
        lemma_held_on_prefix_bounds(holds, day, n - 1);
    }
}

proof fn lemma_booked_on_prefix_unique_date(series: Seq<(i64, u32)>, day: int, i: int, n: int)
    requires
        0 <= i < series.len(),
        series[i].0 == day,
        forall|j: int| 0 <= j < series.len() && j != i ==> (#[trigger] series[j]).0 != day,
        0 <= n <= series.len(),
    ensures
        booked_on_prefix(series, day, n) == if i < n {
            series[i].1 as int
        } else {
            0
        },
    decreases n,
{
    if n > 0 {
        lemma_booked_on_prefix_unique_date(series, day, i, n - 1);
    }
}

/// The merge law, stated over the bookings themselves: when the per-day
/// booked-quantity series is derived from a list of bookings (one entry per
/// day of the queried range, as `list_booked_quantities` produces), the
/// availability the engine computes on any day of the range is the total
/// inventory minus the quantity those bookings book on that day minus the
/// quantity held on that day by the holds the query selects — for every
/// combination of bookings and holds.
pub proof fn lemma_merge_law_from_bookings(
    bookings: Seq<Booking>,
    series: Seq<(i64, u32)>,
    holds: Seq<BookingHold>,
    q: GetAvailabilityQuery,
    total_quantity: u32,
    day: int,
)
    requires
        q.start_date <= day <= q.end_date,
        series.len() == q.end_date - q.start_date + 1,
        forall|i: int|
            0 <= i < series.len() ==> (#[trigger] series[i]).0 == q.start_date + i && series[i].1
                == booked_by(bookings, q.rental_id, q.exclude_booking_id, q.start_date + i),
    ensures
        available_on(total_quantity, series, holds, q, day) == total_quantity - booked_by(
            bookings,
            q.rental_id,
            q.exclude_booking_id,
            day,
        ) - held_on_query(holds, q, day),
{
    let i = day - q.start_date;
    assert(series[i].0 == day);
    assert forall|j: int| 0 <= j < series.len() && j != i implies (#[trigger] series[j]).0
        != day by {
        assert(series[j].0 == q.start_date + j);
    }
    lemma_booked_on_prefix_unique_date(series, day, i, series.len() as int);
}

/// Booked quantity that the series carries on one day.
#[verifier::loop_isolation(false)]
fn booked_quantity_on_day(booked_quantities: &Vec<(i64, u32)>, day: i64) -> (r: i64)
    requires
        booked_quantities@.len() <= MAX_SERIES_LEN,
    ensures
        r == booked_on(booked_quantities@, day as int),
        0 <= r <= MAX_DAY_TOTAL,
{
    proof {
        lemma_booked_on_prefix_bounds(booked_quantities@, day as int, booked_quantities@.len() as int);
    }
    let mut sum: i64 = 0;
    let mut k: usize = 0;
    while k < booked_quantities.len()
        invariant
            k <= booked_quantities@.len(),
            sum == booked_on_prefix(booked_quantities@, day as int, k as int),
            0 <= sum <= k * 0xFFFF_FFFF,
        decreases booked_quantities@.len() - k,
    {
        proof {
            lemma_booked_on_prefix_bounds(booked_quantities@, day as int, k + 1);
        }
        let (date, quantity) = booked_quantities[k];
        if date == day {
            sum = sum + quantity as i64;
        }
        k = k + 1;
    }
    sum
}

/// Held quantity that the hold list carries on one day.
#[verifier::loop_isolation(false)]
fn held_quantity_on_day(booking_holds: &Vec<BookingHold>, day: i64) -> (r: i64)
    requires
        booking_holds@.len() <= MAX_SERIES_LEN,
    ensures
        r == held_on(booking_holds@, day as int),
        0 <= r <= MAX_DAY_TOTAL,
{
    proof {
        lemma_held_on_prefix_bounds(booking_holds@, day as int, booking_holds@.len() as int);
    }
    let mut sum: i64 = 0;
    let mut k: usize = 0;
    while k < booking_holds.len()
        invariant
            k <= booking_holds@.len(),
            sum == held_on_prefix(booking_holds@, day as int, k as int),
            0 <= sum <= k * 0xFFFF_FFFF,
        decreases booking_holds@.len() - k,
    {
        proof {
            lemma_held_on_prefix_bounds(booking_holds@, day as int, k + 1);
        }
        let hold = booking_holds[k];
        if hold.start_date <= day && day <= hold.end_date {
            sum = sum + hold.quantity as i64;
        }
        k = k + 1;
    }
    sum
}

/// The holds that an availability query selects, in input order: holds of
/// the queried rental, matching the hold-status filter when one is given,
/// and not belonging to the excluded transaction.
#[verifier::loop_isolation(false)]
pub fn filter_booking_holds(
    booking_holds: &Vec<BookingHold>,
    query_params: &GetAvailabilityQuery,
) -> (r: Vec<BookingHold>)
    ensures
        r@ == filtered_holds(booking_holds@, *query_params),
        r@.len() <= booking_holds@.len(),
{
    let mut r: Vec<BookingHold> = Vec::new();
    let mut k: usize = 0;
    while k < booking_holds.len()
        invariant
            k <= booking_holds@.len(),
            r@ == filtered_holds_prefix(booking_holds@, *query_params, k as int),
            r@.len() <= k,
        decreases booking_holds@.len() - k,
    {
        let hold = booking_holds[k];
        let status_selected = match query_params.booking_hold_status {
            Some(status) => hold.booking_hold_status == status,
            None => true,
        };
        let transaction_selected = match query_params.exclude_transaction_id {
            Some(transaction_id) => hold.transaction_id != transaction_id,
            None => true,
        };
        if hold.rental_id == query_params.rental_id && status_selected && transaction_selected {
            r.push(hold);
        }
        k = k + 1;
    }
    r
}

/// Merges a per-day booked-quantity series and a hold list into one series
/// over the inclusive day range `[start_date, end_date]`: one entry per
/// calendar day, in ascending date order, each carrying the booked sum
/// (duplicate dates summed) and the held sum (every hold contributes its
/// quantity to each day its inclusive range covers) of that day. Days with
/// no activity carry `(0, 0)`.
#[verifier::loop_isolation(false)]
pub fn merge_booked_quantities_and_holds(
    booked_quantities: &Vec<(i64, u32)>,
    booking_holds: &Vec<BookingHold>,
    start_date: i64,
    end_date: i64,
) -> (r: Vec<DayTotals>)
    requires
        start_date <= end_date,
        end_date - start_date + 1 <= MAX_RANGE_DAYS,
        booked_quantities@.len() <= MAX_SERIES_LEN,
        booking_holds@.len() <= MAX_SERIES_LEN,
    ensures
        r@.len() == end_date - start_date + 1,
        forall|i: int|
            0 <= i < r@.len() ==> (#[trigger] r@[i]).date == start_date + i && r@[i].booked
                == booked_on(booked_quantities@, start_date + i) && r@[i].held == held_on(
                booking_holds@,
                start_date + i,
            ),
{
    let n_days: usize = ((end_date - start_date) as usize) + 1;
    let mut r: Vec<DayTotals> = Vec::new();
    let mut i: usize = 0;
    while i < n_days
        invariant
            i <= n_days,
            r@.len() == i,
            forall|j: int|
                0 <= j < i ==> (#[trigger] r@[j]).date == start_date + j && r@[j].booked
                    == booked_on(booked_quantities@, start_date + j) && r@[j].held == held_on(
                    booking_holds@,
                    start_date + j,
                ),
        decreases n_days - i,
    {
        let day: i64 = start_date + (i as i64);
        let booked = booked_quantity_on_day(booked_quantities, day);
        let held = held_quantity_on_day(booking_holds, day);
        r.push(DayTotals { date: day, booked, held });
        i = i + 1;
    }
    r
}

/// Derives per-day remaining capacity from an aggregated series: for each
/// entry, `available = total − booked − held`, the date kept as it stands.
/// The value is not clamped to zero; an overbooked day yields a negative
/// availability.
#[verifier::loop_isolation(false)]
pub fn calculate_availability_from_merged_bookings(
    merged_data: &Vec<DayTotals>,
    total_quantity: u32,
) -> (r: Vec<Availability>)
    requires
        forall|i: int|
            0 <= i < merged_data@.len() ==> 0 <= (#[trigger] merged_data@[i]).booked
                <= MAX_DAY_TOTAL && 0 <= merged_data@[i].held <= MAX_DAY_TOTAL,
    ensures
        r@.len() == merged_data@.len(),
        forall|i: int|
            0 <= i < r@.len() ==> (#[trigger] r@[i]).date == merged_data@[i].date
                && r@[i].available_quantity == total_quantity - merged_data@[i].booked
                - merged_data@[i].held,
{
    let mut r: Vec<Availability> = Vec::new();
    let mut k: usize = 0;
    while k < merged_data.len()
        invariant
            k <= merged_data@.len(),
            r@.len() == k,
            forall|j: int|
                0 <= j < k ==> (#[trigger] r@[j]).date == merged_data@[j].date
                    && r@[j].available_quantity == total_quantity - merged_data@[j].booked
                    - merged_data@[j].held,
        decreases merged_data@.len() - k,
    {
        let day = merged_data[k];
        let available_quantity: i64 = (total_quantity as i64) - day.booked - day.held;
        r.push(Availability { date: day.date, available_quantity });
        k = k + 1;
    }
    r
}

/// Per-day remaining capacity of one rental over the queried inclusive day
/// range: exactly one entry per calendar day, in ascending date order, each
/// carrying `total − booked − held` for that day, where only the holds the
/// query selects count. Days with no activity are present with the full
/// total.
///
/// The booked-quantity series is the per-day series fetched for the queried
/// rental over the range, with the query's excluded booking already left
/// out by the collaborator that produced it (`list_booked_quantities` is
/// the in-memory realization).
pub fn get_availability(
    query_params: &GetAvailabilityQuery,
    total_quantity: u32,
    booked_quantities: &Vec<(i64, u32)>,
    booking_holds: &Vec<BookingHold>,
) -> (r: Vec<Availability>)
    requires
        query_params.start_date <= query_params.end_date,
        query_params.end_date - query_params.start_date + 1 <= MAX_RANGE_DAYS,
        booked_quantities@.len() <= MAX_SERIES_LEN,
        booking_holds@.len() <= MAX_SERIES_LEN,
    ensures
        r@.len() == query_params.end_date - query_params.start_date + 1,
        forall|i: int|
            0 <= i < r@.len() ==> (#[trigger] r@[i]).date == query_params.start_date + i
                && r@[i].available_quantity == available_on(
                total_quantity,
                booked_quantities@,
                booking_holds@,
                *query_params,
                query_params.start_date + i,
            ),
{
    let selected_holds = filter_booking_holds(booking_holds, query_params);
    let merged = merge_booked_quantities_and_holds(
        booked_quantities,
        &selected_holds,
        query_params.start_date,
        query_params.end_date,
    );
    proof {
        assert forall|i: int|
            0 <= i < merged@.len() implies 0 <= (#[trigger] merged@[i]).booked <= MAX_DAY_TOTAL
            && 0 <= merged@[i].held <= MAX_DAY_TOTAL by {
            lemma_booked_on_prefix_bounds(
                booked_quantities@,
                query_params.start_date + i,
                booked_quantities@.len() as int,
            );
            lemma_held_on_prefix_bounds(
                selected_holds@,
                query_params.start_date + i,
                selected_holds@.len() as int,
            );
        }
    }
    let r = calculate_availability_from_merged_bookings(&merged, total_quantity);
    r
}

/// Per-rental availability over one shared date range, each rental computed
/// independently with the same excludes and hold-status filter. Entries come
/// in the order of the queried rental data.
#[verifier::loop_isolation(false)]
pub fn get_availabilities(
    query_params: &GetAvailabilitiesQuery,
    rentals: &Vec<RentalAvailabilityData>,
) -> (r: Availabilities)
    requires
        query_params.start_date <= query_params.end_date,
        query_params.end_date - query_params.start_date + 1 <= MAX_RANGE_DAYS,
        forall|i: int|
            0 <= i < rentals@.len() ==> (#[trigger] rentals@[i]).booked_quantities@.len()
                <= MAX_SERIES_LEN && rentals@[i].booking_holds@.len() <= MAX_SERIES_LEN,
    ensures
        r.availabilities@.len() == rentals@.len(),
        forall|i: int|
            0 <= i < rentals@.len() ==> (#[trigger] r.availabilities@[i]).rental_id
                == rentals@[i].rental_id && r.availabilities@[i].availability@.len()
                == query_params.end_date - query_params.start_date + 1,
        forall|i: int, j: int|
            0 <= i < rentals@.len() && 0 <= j < r.availabilities@[i].availability@.len()
                ==> (#[trigger] r.availabilities@[i].availability@[j]).date
                == query_params.start_date + j
                && r.availabilities@[i].availability@[j].available_quantity == available_on(
                rentals@[i].total_quantity,
                rentals@[i].booked_quantities@,
                rentals@[i].booking_holds@,
                rental_query(*query_params, rentals@[i].rental_id),
                query_params.start_date + j,
            ),
{
    let mut availabilities: Vec<RentalAvailability> = Vec::new();
    let mut k: usize = 0;
    while k < rentals.len()
        invariant
            k <= rentals@.len(),
            availabilities@.len() == k,
            forall|i: int|
                0 <= i < k ==> (#[trigger] availabilities@[i]).rental_id == rentals@[i].rental_id
                    && availabilities@[i].availability@.len() == query_params.end_date
                    - query_params.start_date + 1,
            forall|i: int, j: int|
                0 <= i < k && 0 <= j < availabilities@[i].availability@.len()
                    ==> (#[trigger] availabilities@[i].availability@[j]).date
                    == query_params.start_date + j
                    && availabilities@[i].availability@[j].available_quantity == available_on(
                    rentals@[i].total_quantity,
                    rentals@[i].booked_quantities@,
                    rentals@[i].booking_holds@,
                    rental_query(*query_params, rentals@[i].rental_id),
                    query_params.start_date + j,
                ),
        decreases rentals@.len() - k,
    {
        let rental_data = &rentals[k];
        let availability_query = GetAvailabilityQuery {
            rental_id: rental_data.rental_id,
            start_date: query_params.start_date,
            end_date: query_params.end_date,
            exclude_transaction_id: query_params.exclude_transaction_id,
            exclude_booking_id: None,
            booking_hold_status: query_params.booking_hold_status,
        };
        let availability = get_availability(
            &availability_query,
            rental_data.total_quantity,
            &rental_data.booked_quantities,
            &rental_data.booking_holds,
        );
        availabilities.push(
            RentalAvailability { rental_id: rental_data.rental_id, availability },
        );
        k = k + 1;
    }
    Availabilities { availabilities }
}

/// The single-rental query that a multi-rental availability query poses for
/// one of its rentals: same range, same excluded transaction, same
/// hold-status filter, no excluded booking.
pub open spec fn rental_query(q: GetAvailabilitiesQuery, rental_id: u128) -> GetAvailabilityQuery {
    GetAvailabilityQuery {
        rental_id,
        start_date: q.start_date,
        end_date: q.end_date,
        exclude_transaction_id: q.exclude_transaction_id,
        exclude_booking_id: None,
        booking_hold_status: q.booking_hold_status,
    }
}

/// Requires `available ≥ quantity` on every day of the queried range;
/// returns the availability series on success and fails with a validation
/// error exactly when at least one day falls short.
#[verifier::loop_isolation(false)]
pub fn check_availability(
    quantity: u32,
    query_params: &GetAvailabilityQuery,
    total_quantity: u32,
    booked_quantities: &Vec<(i64, u32)>,
    booking_holds: &Vec<BookingHold>,
) -> (r: Result<Vec<Availability>, AppError>)
    requires
        query_params.start_date <= query_params.end_date,
        query_params.end_date - query_params.start_date + 1 <= MAX_RANGE_DAYS,
        booked_quantities@.len() <= MAX_SERIES_LEN,
        booking_holds@.len() <= MAX_SERIES_LEN,
    ensures
        r is Ok <==> all_days_available(
            quantity,
            total_quantity,
            booked_quantities@,
            booking_holds@,
            *query_params,
        ),
        r matches Ok(v) ==> v@.len() == query_params.end_date - query_params.start_date + 1
            && forall|i: int|
            0 <= i < v@.len() ==> (#[trigger] v@[i]).date == query_params.start_date + i
                && v@[i].available_quantity == available_on(
                total_quantity,
                booked_quantities@,
                booking_holds@,
                *query_params,
                query_params.start_date + i,
            ),
        r is Err ==> r == Err::<Vec<Availability>, AppError>(AppError::QuantityUnavailable),
{
    let availability = get_availability(
        query_params,
        total_quantity,
        booked_quantities,
        booking_holds,
    );
    let mut k: usize = 0;
    while k < availability.len()
        invariant
            k <= availability@.len(),
            forall|j: int|
                0 <= j < k ==> (#[trigger] availability@[j]).available_quantity >= quantity,
        decreases availability@.len() - k,
    {
        if availability[k].available_quantity < quantity as i64 {
            proof {
                let day = query_params.start_date + k as int;
                assert(available_on(
                    total_quantity,
                    booked_quantities@,
                    booking_holds@,
                    *query_params,
                    day,
                ) < quantity);
            }
            return Err(AppError::QuantityUnavailable);
        }
        k = k + 1;
    }
    proof {
        assert forall|day: int|
            query_params.start_date <= day <= query_params.end_date implies available_on(
            total_quantity,
            booked_quantities@,
            booking_holds@,
            *query_params,
            day,
        ) >= quantity by {
            let j = day - query_params.start_date;
            assert(availability@[j].available_quantity == available_on(
                total_quantity,
                booked_quantities@,
                booking_holds@,
                *query_params,
                day,
            ));
        }
    }
    Ok(availability)
}

/// The availability query of a booking's own recheck: its rental and range,
/// the booking excluded from its own count, and only `Blocked` holds
/// counted (`Pending` holds do not reserve capacity against it).
pub open spec fn self_recheck_query(booking: Booking) -> GetAvailabilityQuery {
    GetAvailabilityQuery {
        rental_id: booking.rental_id,
        start_date: booking.start_date,
        end_date: booking.end_date,
        exclude_transaction_id: None,
        exclude_booking_id: Some(booking.booking_id),
        booking_hold_status: Some(BookingHoldStatus::Blocked),
    }
}

/// Annotates each booking with whether its own quantity is still available
/// over its own range, judged against the activity fetched for its rental
/// with the booking excluded from its own count and only `Blocked` holds
/// counted. `rentals[i]` carries the activity fetched for `bookings[i]`.
/// Every other field is kept as it stands.
#[verifier::loop_isolation(false)]
pub fn build_booking_details(
    bookings: &Vec<Booking>,
    rentals: &Vec<RentalAvailabilityData>,
) -> (r: Vec<Booking>)
    requires
        rentals@.len() == bookings@.len(),
        forall|i: int|
            0 <= i < bookings@.len() ==> (#[trigger] rentals@[i]).rental_id
                == bookings@[i].rental_id && rentals@[i].booked_quantities@.len()
                <= MAX_SERIES_LEN && rentals@[i].booking_holds@.len() <= MAX_SERIES_LEN,
        forall|i: int|
            0 <= i < bookings@.len() ==> (#[trigger] bookings@[i]).start_date
                <= bookings@[i].end_date && bookings@[i].end_date - bookings@[i].start_date + 1
                <= MAX_RANGE_DAYS,
    ensures
        r@.len() == bookings@.len(),
        forall|i: int|
            0 <= i < r@.len() ==> #[trigger] r@[i] == (Booking {
                available: Some(
                    all_days_available(
                        bookings@[i].quantity,
                        rentals@[i].total_quantity,
                        rentals@[i].booked_quantities@,
                        rentals@[i].booking_holds@,
                        self_recheck_query(bookings@[i]),
                    ),
                ),
                ..bookings@[i]
            }),
{
    let mut r: Vec<Booking> = Vec::new();
    let mut k: usize = 0;
    while k < bookings.len()
        invariant
            k <= bookings@.len(),
            r@.len() == k,
            forall|j: int|
                0 <= j < k ==> #[trigger] r@[j] == (Booking {
                    available: Some(
                        all_days_available(
                            bookings@[j].quantity,
                            rentals@[j].total_quantity,
                            rentals@[j].booked_quantities@,
                            rentals@[j].booking_holds@,
                            self_recheck_query(bookings@[j]),
                        ),
                    ),
                    ..bookings@[j]
                }),
        decreases bookings@.len() - k,
    {
        let booking = bookings[k];
        let rental_data = &rentals[k];
        let availability_query = GetAvailabilityQuery {
            rental_id: booking.rental_id,
            start_date: booking.start_date,
            end_date: booking.end_date,
            exclude_transaction_id: None,
            exclude_booking_id: Some(booking.booking_id),
            booking_hold_status: Some(BookingHoldStatus::Blocked),
        };
        let available = match check_availability(
            booking.quantity,
            &availability_query,
            rental_data.total_quantity,
            &rental_data.booked_quantities,
            &rental_data.booking_holds,
        ) {
            Ok(_) => true,
            Err(_) => false,
        };
        let mut annotated = booking;
        annotated.available = Some(available);
        r.push(annotated);
        k = k + 1;
    }
    r
}

/// Whether a booking counts against the capacity of a rental on a day: it
/// belongs to the rental, its status still reserves inventory, its inclusive
/// date range covers the day, and it is not the booking excluded from its
/// own recheck.
pub open spec fn booking_counts(
    booking: Booking,
    rental_id: u128,
    exclude_booking_id: Option<u128>,
    day: int,
) -> bool {
    booking.rental_id == rental_id && is_active_status(booking.booking_status)
        && booking.start_date <= day <= booking.end_date && (match exclude_booking_id {
        Some(booking_id) => booking.booking_id != booking_id,
        None => true,
    })
}

/// Sum of the quantities of the first `n` bookings that count on `day`.
pub open spec fn booked_by_prefix(
    bookings: Seq<Booking>,
    rental_id: u128,
    exclude_booking_id: Option<u128>,
    day: int,
    n: int,
) -> int
    decreases n,
{
    if n <= 0 {
        0
    } else {
        booked_by_prefix(bookings, rental_id, exclude_booking_id, day, n - 1) + if booking_counts(
            bookings[n - 1],
            rental_id,
            exclude_booking_id,
            day,
        ) {
            bookings[n - 1].quantity as int
        } else {
            0
        }
    }
}

/// Total quantity booked against a rental on `day` by the given bookings,
/// excluding the booking under self-recheck when one is given.
pub open spec fn booked_by(
    bookings: Seq<Booking>,
    rental_id: u128,
    exclude_booking_id: Option<u128>,
    day: int,
) -> int {
    booked_by_prefix(bookings, rental_id, exclude_booking_id, day, bookings.len() as int)
}

pub proof fn lemma_booked_by_prefix_bounds(
    bookings: Seq<Booking>,
    rental_id: u128,
    exclude_booking_id: Option<u128>,
    day: int,
    n: int,
)
    requires
        0 <= n <= bookings.len(),
    ensures
        0 <= booked_by_prefix(bookings, rental_id, exclude_booking_id, day, n) <= n * 0xFFFF_FFFF,
    decreases n,
{
    if n > 0 {
        lemma_booked_by_prefix_bounds(bookings, rental_id, exclude_booking_id, day, n - 1);
    }
}

/// Whether a booking status still counts against available inventory.
pub fn is_active_booking_status(status: BookingStatus) -> (r: bool)
    ensures
        r == is_active_status(status),
{
    match status {
        BookingStatus::Declined | BookingStatus::Canceled => false,
        _ => true,
    }
}

/// Total quantity the given bookings book against the rental on one day.
#[verifier::loop_isolation(false)]
fn booked_by_on_day(
    bookings: &Vec<Booking>,
    rental_id: u128,
    exclude_booking_id: Option<u128>,
    day: i64,
) -> (r: i64)
    requires
        bookings@.len() <= MAX_SERIES_LEN,
    ensures
        r == booked_by(bookings@, rental_id, exclude_booking_id, day as int),
        0 <= r <= MAX_DAY_TOTAL,
{
    proof {
        lemma_booked_by_prefix_bounds(
            bookings@,
            rental_id,
            exclude_booking_id,
            day as int,
            bookings@.len() as int,
        );
    }
    let mut sum: i64 = 0;
    let mut k: usize = 0;
    while k < bookings.len()
        invariant
            k <= bookings@.len(),
            sum == booked_by_prefix(bookings@, rental_id, exclude_booking_id, day as int, k as int),
            0 <= sum <= k * 0xFFFF_FFFF,
        decreases bookings@.len() - k,
    {
        proof {
            lemma_booked_by_prefix_bounds(bookings@, rental_id, exclude_booking_id, day as int, k + 1);
        }
        let booking = bookings[k];
        let excluded = match exclude_booking_id {
            Some(booking_id) => booking.booking_id == booking_id,
            None => false,
        };
        if booking.rental_id == rental_id && is_active_booking_status(booking.booking_status)
            && booking.start_date <= day && day <= booking.end_date && !excluded {
            sum = sum + booking.quantity as i64;
        }
        k = k + 1;
    }
    sum
}

/// The per-day booked-quantity series of one rental over an inclusive day
/// range, derived from the bookings themselves: one `(day, quantity)` entry
/// per calendar day in ascending order, summing the quantities of the
/// bookings in inventory-reserving statuses that cover the day, excluding
/// the booking under self-recheck when one is given. Fails exactly when some
/// day's sum exceeds the range of one series entry.
#[verifier::loop_isolation(false)]
pub fn list_booked_quantities(
    bookings: &Vec<Booking>,
    rental_id: u128,
    exclude_booking_id: Option<u128>,
    start_date: i64,
    end_date: i64,
) -> (r: Result<Vec<(i64, u32)>, AppError>)
    requires
        start_date <= end_date,
        end_date - start_date + 1 <= MAX_RANGE_DAYS,
        bookings@.len() <= MAX_SERIES_LEN,
    ensures
        r is Ok <==> forall|day: int|
            start_date <= day <= end_date ==> booked_by(
                bookings@,
                rental_id,
                exclude_booking_id,
                day,
            ) <= u32::MAX,
        r matches Ok(v) ==> v@.len() == end_date - start_date + 1 && forall|i: int|
            0 <= i < v@.len() ==> (#[trigger] v@[i]).0 == start_date + i && v@[i].1 == booked_by(
                bookings@,
                rental_id,
                exclude_booking_id,
                start_date + i,
            ),
        r is Err ==> r == Err::<Vec<(i64, u32)>, AppError>(AppError::BookedQuantityOverflow),
{
    let n_days: usize = ((end_date - start_date) as usize) + 1;
    let mut r: Vec<(i64, u32)> = Vec::new();
    let mut i: usize = 0;
    while i < n_days
        invariant
            i <= n_days,
            r@.len() == i,
            forall|j: int|
                0 <= j < i ==> (#[trigger] r@[j]).0 == start_date + j && r@[j].1 == booked_by(
                    bookings@,
                    rental_id,
                    exclude_booking_id,
                    start_date + j,
                ),
        decreases n_days - i,
    {
        let day: i64 = start_date + (i as i64);
        let booked = booked_by_on_day(bookings, rental_id, exclude_booking_id, day);
        if booked > u32::MAX as i64 {
            return Err(AppError::BookedQuantityOverflow);
        }
        r.push((day, booked as u32));
        i = i + 1;
    }
    proof {
        assert forall|day: int|
            start_date <= day <= end_date implies booked_by(
            bookings@,
            rental_id,
            exclude_booking_id,
            day,
        ) <= u32::MAX by {
            let j = day - start_date;
            assert(r@[j].1 == booked_by(bookings@, rental_id, exclude_booking_id, day));
        }
    }
    Ok(r)
}

} // verus!
