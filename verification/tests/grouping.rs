use booking_engine::grouping::count_booking_statuses;
use booking_engine::grouping::group_bookings_by_status;
use booking_engine::grouping::group_bookings_by_transaction;
use booking_engine::grouping::group_bookings_by_vendor;
use booking_engine::model::Booking;
use booking_engine::model::BookingStatus;

fn entry(
    booking_id: u128,
    transaction_id: u128,
    vendor_id: u128,
    status: BookingStatus,
) -> Booking {
    Booking {
        booking_id,
        transaction_id,
        rental_id: 1,
        vendor_id,
        pricing_id: None,
        quantity: 1,
        start_date: 100,
        end_date: 101,
        booking_status: status,
        total: 500,
        available: None,
    }
}

#[test]
fn groups_by_vendor_keep_input_order() {
    let bookings = vec![
        entry(1, 10, 7, BookingStatus::Requested),
        entry(2, 11, 8, BookingStatus::Requested),
        entry(3, 12, 7, BookingStatus::Accepted),
    ];
    let groups = group_bookings_by_vendor(&bookings);
    assert_eq!(groups.len(), 2);
    assert_eq!(groups[0].0, 7);
    assert_eq!(
        groups[0].1.iter().map(|b| b.booking_id).collect::<Vec<_>>(),
        vec![1, 3]
    );
    assert_eq!(groups[1].0, 8);
    assert_eq!(
        groups[1].1.iter().map(|b| b.booking_id).collect::<Vec<_>>(),
        vec![2]
    );
}

#[test]
fn groups_by_transaction_partition_every_booking() {
    let bookings = vec![
        entry(1, 10, 7, BookingStatus::Requested),
        entry(2, 10, 8, BookingStatus::Requested),
        entry(3, 11, 7, BookingStatus::Accepted),
    ];
    let groups = group_bookings_by_transaction(&bookings);
    assert_eq!(groups.len(), 2);
    let grouped_total: usize = groups.iter().map(|g| g.1.len()).sum();
    assert_eq!(grouped_total, bookings.len());
    assert_eq!(groups[0].0, 10);
    assert_eq!(groups[0].1.len(), 2);
}

#[test]
fn groups_by_status_split_on_status() {
    let bookings = vec![
        entry(1, 10, 7, BookingStatus::Requested),
        entry(2, 11, 7, BookingStatus::Canceled),
        entry(3, 12, 7, BookingStatus::Requested),
    ];
    let groups = group_bookings_by_status(&bookings);
    assert_eq!(groups.len(), 2);
    assert_eq!(groups[0].0, BookingStatus::Requested);
    assert_eq!(groups[0].1.len(), 2);
    assert_eq!(groups[1].0, BookingStatus::Canceled);
    assert_eq!(groups[1].1.len(), 1);
}

#[test]
fn status_counts_match_occurrences() {
    let bookings = vec![
        entry(1, 10, 7, BookingStatus::Requested),
        entry(2, 11, 7, BookingStatus::Canceled),
        entry(3, 12, 7, BookingStatus::Requested),
        entry(4, 13, 7, BookingStatus::Disputed),
    ];
    let counts = count_booking_statuses(&bookings);
    assert_eq!(
        counts,
        vec![
            (BookingStatus::Requested, 2),
            (BookingStatus::Canceled, 1),
            (BookingStatus::Disputed, 1),
        ]
    );
    assert!(count_booking_statuses(&Vec::new()).is_empty());
}
