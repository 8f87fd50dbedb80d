use booking_engine::listing::get_bookings_by_query;
use booking_engine::model::Booking;
use booking_engine::model::BookingStatus;
use booking_engine::model::GetBookingsQuery;

fn row(
    booking_id: u128,
    transaction_id: u128,
    vendor_id: u128,
    start_date: i64,
    end_date: i64,
    status: BookingStatus,
) -> Booking {
    Booking {
        booking_id,
        transaction_id,
        rental_id: 1,
        vendor_id,
        pricing_id: None,
        quantity: 1,
        start_date,
        end_date,
        booking_status: status,
        total: 100,
        available: None,
    }
}

fn sample() -> Vec<Booking> {
    vec![
        row(1, 10, 7, 100, 105, BookingStatus::Requested),
        row(2, 11, 8, 300, 310, BookingStatus::Accepted),
        row(3, 12, 7, 200, 210, BookingStatus::Requested),
        row(4, 13, 7, 300, 305, BookingStatus::Canceled),
    ]
}

#[test]
fn listing_orders_by_start_date_newest_first() {
    let r = get_bookings_by_query(&GetBookingsQuery::default(), &sample());
    assert_eq!(r.meta.total_count, 4);
    assert_eq!(r.meta.page, 1);
    assert_eq!(r.meta.per_page, 20);
    let ids: Vec<u128> = r.data.iter().map(|b| b.booking_id).collect();
    // Bookings 2 and 4 share a start date; their input order is kept.
    assert_eq!(ids, vec![2, 4, 3, 1]);
}

#[test]
fn listing_applies_each_criterion() {
    let bookings = sample();
    let by_vendor = get_bookings_by_query(
        &GetBookingsQuery { vendor_id: Some(8), ..Default::default() },
        &bookings,
    );
    assert_eq!(by_vendor.meta.total_count, 1);
    assert_eq!(by_vendor.data[0].booking_id, 2);

    let by_status = get_bookings_by_query(
        &GetBookingsQuery { booking_status: Some(BookingStatus::Requested), ..Default::default() },
        &bookings,
    );
    assert_eq!(by_status.meta.total_count, 2);

    let by_transactions = get_bookings_by_query(
        &GetBookingsQuery { transaction_ids: Some(vec![10, 13]), ..Default::default() },
        &bookings,
    );
    assert_eq!(by_transactions.meta.total_count, 2);

    // An empty transaction-id set selects everything.
    let empty_ids = get_bookings_by_query(
        &GetBookingsQuery { transaction_ids: Some(Vec::new()), ..Default::default() },
        &bookings,
    );
    assert_eq!(empty_ids.meta.total_count, 4);

    // The date criteria select bookings whose range overlaps the window.
    let overlapping = get_bookings_by_query(
        &GetBookingsQuery { start_date: Some(205), end_date: Some(302), ..Default::default() },
        &bookings,
    );
    let ids: Vec<u128> = overlapping.data.iter().map(|b| b.booking_id).collect();
    assert_eq!(ids, vec![2, 4, 3]);
}

#[test]
fn listing_paginates_and_reports_totals() {
    let bookings = sample();
    let q = |page: u32| GetBookingsQuery {
        page: Some(page),
        per_page: Some(3),
        ..Default::default()
    };
    let first = get_bookings_by_query(&q(1), &bookings);
    assert_eq!(first.meta.total_count, 4);
    assert_eq!(first.data.len(), 3);
    let second = get_bookings_by_query(&q(2), &bookings);
    assert_eq!(second.data.len(), 1);
    assert_eq!(second.data[0].booking_id, 1);
    let third = get_bookings_by_query(&q(3), &bookings);
    assert!(third.data.is_empty());
    assert_eq!(third.meta.total_count, 4);
}
