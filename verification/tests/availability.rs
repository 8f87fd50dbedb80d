use booking_engine::availability::build_booking_details;
use booking_engine::availability::calculate_availability_from_merged_bookings;
use booking_engine::availability::check_availability;
use booking_engine::availability::filter_booking_holds;
use booking_engine::availability::get_availabilities;
use booking_engine::availability::get_availability;
use booking_engine::availability::is_active_booking_status;
use booking_engine::availability::list_booked_quantities;
use booking_engine::availability::merge_booked_quantities_and_holds;
use booking_engine::availability::DayTotals;
use booking_engine::model::AppError;
use booking_engine::model::Booking;
use booking_engine::model::BookingHold;
use booking_engine::model::BookingHoldStatus;
use booking_engine::model::BookingStatus;
use booking_engine::model::GetAvailabilitiesQuery;
use booking_engine::model::GetAvailabilityQuery;
use booking_engine::model::RentalAvailabilityData;

fn query(rental_id: u128, start_date: i64, end_date: i64) -> GetAvailabilityQuery {
    GetAvailabilityQuery {
        rental_id,
        start_date,
        end_date,
        exclude_transaction_id: None,
        exclude_booking_id: None,
        booking_hold_status: None,
    }
}

fn hold(
    rental_id: u128,
    transaction_id: u128,
    quantity: u32,
    start_date: i64,
    end_date: i64,
    status: BookingHoldStatus,
) -> BookingHold {
    BookingHold {
        rental_id,
        transaction_id,
        quantity,
        start_date,
        end_date,
        booking_hold_status: status,
    }
}

fn booking(
    booking_id: u128,
    rental_id: u128,
    quantity: u32,
    start_date: i64,
    end_date: i64,
    status: BookingStatus,
) -> Booking {
    Booking {
        booking_id,
        transaction_id: 900 + booking_id,
        rental_id,
        vendor_id: 7,
        pricing_id: Some(3),
        quantity,
        start_date,
        end_date,
        booking_status: status,
        total: 1000,
        available: None,
    }
}

#[test]
fn availability_has_one_entry_per_day_ascending() {
    let booked: Vec<(i64, u32)> = Vec::new();
    let holds: Vec<BookingHold> = Vec::new();
    let r = get_availability(&query(1, 100, 109), 4, &booked, &holds);
    assert_eq!(r.len(), 10);
    for (i, a) in r.iter().enumerate() {
        assert_eq!(a.date, 100 + i as i64);
        assert_eq!(a.available_quantity, 4);
    }
    // A zero-length range still produces its single day.
    let single = get_availability(&query(1, 100, 100), 4, &booked, &holds);
    assert_eq!(single.len(), 1);
    assert_eq!(single[0].date, 100);
}

#[test]
fn merge_law_over_bookings_and_holds() {
    // Zero, one, and many overlapping contributions on different days.
    let booked: Vec<(i64, u32)> = vec![(101, 2), (102, 1), (102, 4)];
    let holds = vec![
        hold(1, 50, 3, 100, 101, BookingHoldStatus::Blocked),
        hold(1, 51, 5, 101, 103, BookingHoldStatus::Pending),
    ];
    let total: u32 = 10;
    let r = get_availability(&query(1, 100, 103), total, &booked, &holds);
    let booked_per_day = [0, 2, 5, 0];
    let held_per_day = [3, 8, 5, 5];
    assert_eq!(r.len(), 4);
    for i in 0..4 {
        assert_eq!(r[i].date, 100 + i as i64);
        assert_eq!(
            r[i].available_quantity,
            total as i64 - booked_per_day[i] - held_per_day[i]
        );
    }
}

#[test]
fn merge_sums_duplicate_dates_and_expands_hold_ranges() {
    let booked: Vec<(i64, u32)> = vec![(200, 1), (200, 2), (202, 7)];
    let holds = vec![hold(1, 60, 4, 201, 203, BookingHoldStatus::Blocked)];
    let merged = merge_booked_quantities_and_holds(&booked, &holds, 200, 203);
    assert_eq!(
        merged,
        vec![
            DayTotals { date: 200, booked: 3, held: 0 },
            DayTotals { date: 201, booked: 0, held: 4 },
            DayTotals { date: 202, booked: 7, held: 4 },
            DayTotals { date: 203, booked: 0, held: 4 },
        ]
    );
}

#[test]
fn calculate_propagates_negative_availability() {
    let merged = vec![DayTotals { date: 300, booked: 9, held: 4 }];
    let r = calculate_availability_from_merged_bookings(&merged, 5);
    assert_eq!(r.len(), 1);
    assert_eq!(r[0].available_quantity, -8);
}

#[test]
fn filter_selects_rental_status_and_excluded_transaction() {
    let holds = vec![
        hold(1, 70, 1, 100, 101, BookingHoldStatus::Blocked),
        hold(1, 71, 2, 100, 101, BookingHoldStatus::Pending),
        hold(2, 72, 3, 100, 101, BookingHoldStatus::Blocked),
        hold(1, 73, 4, 100, 101, BookingHoldStatus::Blocked),
    ];
    let q = GetAvailabilityQuery {
        rental_id: 1,
        start_date: 100,
        end_date: 101,
        exclude_transaction_id: Some(73),
        exclude_booking_id: None,
        booking_hold_status: Some(BookingHoldStatus::Blocked),
    };
    let filtered = filter_booking_holds(&holds, &q);
    assert_eq!(filtered.len(), 1);
    assert_eq!(filtered[0].transaction_id, 70);

    // With no status filter, both statuses count.
    let q_all = GetAvailabilityQuery { booking_hold_status: None, ..q };
    let filtered_all = filter_booking_holds(&holds, &q_all);
    assert_eq!(filtered_all.len(), 2);
}

#[test]
fn check_availability_fails_iff_some_day_is_short() {
    let holds: Vec<BookingHold> = Vec::new();
    // Every day has 5 available: a request for 5 passes...
    let booked: Vec<(i64, u32)> = Vec::new();
    let q = query(1, 100, 102);
    let ok = check_availability(5, &q, 5, &booked, &holds);
    assert!(ok.is_ok());
    assert_eq!(ok.unwrap().len(), 3);
    // ...but one short day anywhere in the range fails the whole check.
    let booked_one_day: Vec<(i64, u32)> = vec![(101, 1)];
    let err = check_availability(5, &q, 5, &booked_one_day, &holds);
    assert_eq!(err, Err(AppError::QuantityUnavailable));
    // The short day only matters inside the queried range.
    let booked_outside: Vec<(i64, u32)> = vec![(99, 1), (103, 1)];
    assert!(check_availability(5, &q, 5, &booked_outside, &holds).is_ok());
}

#[test]
fn quantity_unavailable_message() {
    let booked: Vec<(i64, u32)> = vec![(100, 5)];
    let holds: Vec<BookingHold> = Vec::new();
    let e = check_availability(1, &query(1, 100, 100), 5, &booked, &holds).unwrap_err();
    assert_eq!(e.message(), "Requested quantity exceeds available quantity.");
    assert!(e.is_validation_error());
}

#[test]
fn scenario_accepted_booking_and_blocked_hold() {
    // total=5; one Accepted booking qty=3 over the first three days; one
    // Blocked hold qty=1 over the last three days of a four-day window.
    let d: i64 = 1000;
    let bookings = vec![booking(11, 1, 3, d, d + 2, BookingStatus::Accepted)];
    let booked = list_booked_quantities(&bookings, 1, None, d, d + 3).unwrap();
    let holds = vec![hold(1, 80, 1, d + 1, d + 3, BookingHoldStatus::Blocked)];
    let q = GetAvailabilityQuery {
        rental_id: 1,
        start_date: d,
        end_date: d + 3,
        exclude_transaction_id: None,
        exclude_booking_id: None,
        booking_hold_status: Some(BookingHoldStatus::Blocked),
    };
    let r = get_availability(&q, 5, &booked, &holds);
    let expected: Vec<(i64, i64)> = vec![(d, 2), (d + 1, 1), (d + 2, 1), (d + 3, 4)];
    assert_eq!(r.len(), 4);
    for (a, (date, available)) in r.iter().zip(expected) {
        assert_eq!(a.date, date);
        assert_eq!(a.available_quantity, available);
    }
}

#[test]
fn booked_quantities_count_only_active_statuses() {
    let d: i64 = 500;
    let bookings = vec![
        booking(1, 1, 1, d, d, BookingStatus::Requested),
        booking(2, 1, 2, d, d, BookingStatus::Accepted),
        booking(3, 1, 4, d, d, BookingStatus::Declined),
        booking(4, 1, 8, d, d, BookingStatus::Canceled),
        booking(5, 1, 16, d, d, BookingStatus::Confirmed),
        booking(6, 1, 32, d, d, BookingStatus::Completed),
        booking(7, 1, 64, d, d, BookingStatus::Disputed),
        booking(8, 2, 128, d, d, BookingStatus::Accepted),
    ];
    let series = list_booked_quantities(&bookings, 1, None, d, d).unwrap();
    assert_eq!(series, vec![(d, 1 + 2 + 16 + 32 + 64)]);
    assert!(is_active_booking_status(BookingStatus::Disputed));
    assert!(!is_active_booking_status(BookingStatus::Declined));
}

#[test]
fn booked_quantities_exclude_booking_under_recheck() {
    let d: i64 = 600;
    let bookings = vec![
        booking(21, 1, 3, d, d + 1, BookingStatus::Requested),
        booking(22, 1, 2, d, d + 1, BookingStatus::Accepted),
    ];
    let series = list_booked_quantities(&bookings, 1, Some(21), d, d + 1).unwrap();
    assert_eq!(series, vec![(d, 2), (d + 1, 2)]);
}

#[test]
fn booked_quantities_overflow_is_reported() {
    let d: i64 = 700;
    let bookings = vec![
        booking(31, 1, u32::MAX, d, d, BookingStatus::Accepted),
        booking(32, 1, u32::MAX, d, d, BookingStatus::Accepted),
    ];
    let r = list_booked_quantities(&bookings, 1, None, d, d);
    assert_eq!(r, Err(AppError::BookedQuantityOverflow));
    let e = r.unwrap_err();
    assert!(!e.is_validation_error());
}

#[test]
fn booking_details_flag_availability_excluding_self() {
    let d: i64 = 800;
    // Each booking fills the rental on its own: counted against itself it
    // would never fit, but the self-recheck excludes it.
    let fitting = booking(41, 1, 5, d, d + 1, BookingStatus::Accepted);
    let crowded = booking(42, 2, 3, d, d + 1, BookingStatus::Requested);
    let competitor = booking(43, 2, 3, d, d, BookingStatus::Accepted);
    let bookings = vec![fitting, crowded];
    let store = vec![fitting, crowded, competitor];
    let rentals = vec![
        booking_engine::model::RentalAvailabilityData {
            rental_id: 1,
            total_quantity: 5,
            booked_quantities: list_booked_quantities(&store, 1, Some(41), d, d + 1).unwrap(),
            booking_holds: vec![],
        },
        booking_engine::model::RentalAvailabilityData {
            rental_id: 2,
            total_quantity: 5,
            booked_quantities: list_booked_quantities(&store, 2, Some(42), d, d + 1).unwrap(),
            booking_holds: vec![],
        },
    ];
    let detailed = build_booking_details(&bookings, &rentals);
    assert_eq!(detailed.len(), 2);
    // Rental 1 has its 5 units free once booking 41 is excluded.
    assert_eq!(detailed[0].available, Some(true));
    // Rental 2 keeps only 2 units free on the competitor's day: too few
    // for booking 42's quantity of 3.
    assert_eq!(detailed[1].available, Some(false));
    // Everything else is untouched.
    assert_eq!(detailed[0].booking_status, fitting.booking_status);
    assert_eq!(detailed[1].total, crowded.total);
}

#[test]
fn availabilities_cover_each_rental_independently() {
    let q = GetAvailabilitiesQuery {
        rental_ids: vec![1, 2],
        start_date: 100,
        end_date: 101,
        exclude_transaction_id: None,
        booking_hold_status: Some(BookingHoldStatus::Blocked),
    };
    let rentals = vec![
        RentalAvailabilityData {
            rental_id: 1,
            total_quantity: 3,
            booked_quantities: vec![(100, 1)],
            booking_holds: vec![],
        },
        RentalAvailabilityData {
            rental_id: 2,
            total_quantity: 9,
            booked_quantities: vec![],
            booking_holds: vec![hold(2, 90, 4, 101, 101, BookingHoldStatus::Blocked)],
        },
    ];
    let r = get_availabilities(&q, &rentals);
    assert_eq!(r.availabilities.len(), 2);
    assert_eq!(r.availabilities[0].rental_id, 1);
    assert_eq!(r.availabilities[0].availability[0].available_quantity, 2);
    assert_eq!(r.availabilities[0].availability[1].available_quantity, 3);
    assert_eq!(r.availabilities[1].rental_id, 2);
    assert_eq!(r.availabilities[1].availability[0].available_quantity, 9);
    assert_eq!(r.availabilities[1].availability[1].available_quantity, 5);
}
