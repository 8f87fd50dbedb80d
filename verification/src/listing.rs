//! Booking listing: filters bookings by an optional set of criteria, orders
//! them by start date (newest first, ties kept in input order), and returns
//! one page of the result together with the total match count.

use vstd::prelude::*;

use crate::model::Booking;
use crate::model::GetBookingsQuery;
use crate::model::PaginatedResponse;
use crate::model::PaginationMeta;

verus! {

/// Whether a booking is selected by a listing query: every criterion that
/// is present must hold. An empty transaction-id set selects everything, as
/// does an absent one; the two date criteria select bookings whose range
/// overlaps `[start_date, end_date]`.
pub open spec fn booking_matches_listing(booking: Booking, q: GetBookingsQuery) -> bool {
    (match q.transaction_ids {
        Some(ids) => ids@.len() == 0 || ids@.contains(booking.transaction_id),
        None => true,
    }) && (match q.rental_id {
        Some(rental_id) => booking.rental_id == rental_id,
        None => true,
    }) && (match q.vendor_id {
        Some(vendor_id) => booking.vendor_id == vendor_id,
        None => true,
    }) && (match q.booking_status {
        Some(status) => booking.booking_status == status,
        None => true,
    }) && (match q.start_date {
        Some(start_date) => booking.end_date >= start_date,
        None => true,
    }) && (match q.end_date {
        Some(end_date) => booking.start_date <= end_date,
        None => true,
    })
}

/// The bookings among the first `n` that the listing query selects, in
/// input order.
pub open spec fn matching_bookings_prefix(
    bookings: Seq<Booking>,
    q: GetBookingsQuery,
    n: int,
) -> Seq<Booking>
    decreases n,
{
    if n <= 0 {
        Seq::empty()
    } else {
        let rest = matching_bookings_prefix(bookings, q, n - 1);
        if booking_matches_listing(bookings[n - 1], q) {
            rest.push(bookings[n - 1])
        } else {
            rest
        }
    }
}

/// The bookings that the listing query selects, in input order.
pub open spec fn matching_bookings(bookings: Seq<Booking>, q: GetBookingsQuery) -> Seq<Booking> {
    matching_bookings_prefix(bookings, q, bookings.len() as int)
}

/// `s` with `booking` inserted behind every entry whose start date is at
/// least `booking`'s: the insertion step of a stable sort by start date,
/// newest first.
pub open spec fn insert_by_start_desc(s: Seq<Booking>, booking: Booking) -> Seq<Booking>
    decreases s.len(),
{
    if s.len() == 0 {
        seq![booking]
    } else if s.last().start_date >= booking.start_date {
        s.push(booking)
    } else {
        insert_by_start_desc(s.drop_last(), booking).push(s.last())
    }
}

/// `s` sorted by start date, newest first, entries with equal start dates
/// kept in their input order.
pub open spec fn sort_by_start_desc(s: Seq<Booking>) -> Seq<Booking>
    decreases s.len(),
{
    if s.len() == 0 {
        Seq::empty()
    } else {
        insert_by_start_desc(sort_by_start_desc(s.drop_last()), s.last())
    }
}

/// The page a listing query asks for; pages are numbered from 1.
pub open spec fn effective_page(q: GetBookingsQuery) -> u32 {
    match q.page {
        Some(page) => page,
        None => 1,
    }
}

/// The page size a listing query asks for.
pub open spec fn effective_per_page(q: GetBookingsQuery) -> u32 {
    match q.per_page {
        Some(per_page) => per_page,
        None => 20,
    }
}

/// One page of a sequence: `per_page` entries starting at the offset of
/// `page`, or what is left of the sequence there.
pub open spec fn page_slice(s: Seq<Booking>, page: u32, per_page: u32) -> Seq<Booking> {
    let offset = (page - 1) * per_page;
    if offset >= s.len() {
        Seq::empty()
    } else if offset + per_page <= s.len() {
        s.subrange(offset, offset + per_page)
    } else {
        s.subrange(offset, s.len() as int)
    }
}

/// Whether a booking is selected by the listing query.
#[verifier::loop_isolation(false)]
fn booking_matches(booking: &Booking, query_params: &GetBookingsQuery) -> (r: bool)
    ensures
        r == booking_matches_listing(*booking, *query_params),
{
    let transaction_ok = match &query_params.transaction_ids {
        Some(ids) => {
            if ids.len() == 0 {
                true
            } else {
                let mut found = false;
                let mut k: usize = 0;
                while k < ids.len()
                    invariant
                        k <= ids@.len(),
                        found == exists|j: int|
                            0 <= j < k && ids@[j] == booking.transaction_id,
                    decreases ids@.len() - k,
                {
                    if ids[k] == booking.transaction_id {
                        found = true;
                    }
                    k = k + 1;
                }
                found
            }
        },
        None => true,
    };
    let rental_ok = match query_params.rental_id {
        Some(rental_id) => booking.rental_id == rental_id,
        None => true,
    };
    let vendor_ok = match query_params.vendor_id {
        Some(vendor_id) => booking.vendor_id == vendor_id,
        None => true,
    };
    let status_ok = match query_params.booking_status {
        Some(status) => booking.booking_status == status,
        None => true,
    };
    let start_ok = match query_params.start_date {
        Some(start_date) => booking.end_date >= start_date,
        None => true,
    };
    let end_ok = match query_params.end_date {
        Some(end_date) => booking.start_date <= end_date,
        None => true,
    };
    transaction_ok && rental_ok && vendor_ok && status_ok && start_ok && end_ok
}

/// When everything from position `p` on starts strictly earlier than the
/// new booking, and the entry just before `p` (if any) does not, inserting
/// sorts the booking in exactly at position `p`.
proof fn lemma_insert_at_boundary(s: Seq<Booking>, booking: Booking, p: int)
    requires
        0 <= p <= s.len(),
        forall|j: int| p <= j < s.len() ==> (#[trigger] s[j]).start_date < booking.start_date,
        p > 0 ==> s[p - 1].start_date >= booking.start_date,
    ensures
        insert_by_start_desc(s, booking) == s.subrange(0, p).push(booking) + s.subrange(
            p,
            s.len() as int,
        ),
    decreases s.len(),
{
    if s.len() == 0 {
        assert(insert_by_start_desc(s, booking) =~= s.subrange(0, p).push(booking) + s.subrange(
            p,
            s.len() as int,
        ));
    } else if s.last().start_date >= booking.start_date {
        assert(p == s.len());
        assert(s.subrange(0, p) =~= s);
        assert(insert_by_start_desc(s, booking) =~= s.subrange(0, p).push(booking) + s.subrange(
            p,
            s.len() as int,
        ));
    } else {
        let dl = s.drop_last();
        assert(p <= dl.len());
        lemma_insert_at_boundary(dl, booking, p);
        assert(dl.subrange(0, p) =~= s.subrange(0, p));
        assert(insert_by_start_desc(s, booking) =~= s.subrange(0, p).push(booking) + s.subrange(
            p,
            s.len() as int,
        ));
    }
}

/// Inserts a booking behind every stored entry whose start date is at
/// least its own.
#[verifier::loop_isolation(false)]
fn insert_sorted_by_start_desc(sorted: &mut Vec<Booking>, booking: Booking)
    requires
        old(sorted)@.len() < usize::MAX,
    ensures
        final(sorted)@ == insert_by_start_desc(old(sorted)@, booking),
{
    let mut p: usize = sorted.len();
    while p > 0 && sorted[p - 1].start_date < booking.start_date
        invariant
            p <= sorted@.len(),
            sorted@ == old(sorted)@,
            forall|j: int|
                p <= j < sorted@.len() ==> (#[trigger] sorted@[j]).start_date
                    < booking.start_date,
        decreases p,
    {
        p = p - 1;
    }
    proof {
        lemma_insert_at_boundary(sorted@, booking, p as int);
    }
    sorted.insert(p, booking);
    proof {
        assert(sorted@ =~= old(sorted)@.subrange(0, p as int).push(booking) + old(
            sorted,
        )@.subrange(p as int, old(sorted)@.len() as int));
    }
}

/// The bookings a listing query selects, ordered by start date newest
/// first, ties kept in input order, paginated: one page of data and the
/// total match count. Mirrors a persistence query that filters, orders by
/// start date descending, and applies limit and offset.
#[verifier::loop_isolation(false)]
pub fn get_bookings_by_query(
    query_params: &GetBookingsQuery,
    bookings: &Vec<Booking>,
) -> (r: PaginatedResponse)
    requires
        effective_page(*query_params) >= 1,
        effective_page(*query_params) * effective_per_page(*query_params) <= usize::MAX,
    ensures
        r.meta.total_count == matching_bookings(bookings@, *query_params).len(),
        r.meta.page == effective_page(*query_params),
        r.meta.per_page == effective_per_page(*query_params),
        r.data@ == page_slice(
            sort_by_start_desc(matching_bookings(bookings@, *query_params)),
            effective_page(*query_params),
            effective_per_page(*query_params),
        ),
{
    let page = match query_params.page {
        Some(page) => page,
        None => 1,
    };
    let per_page = match query_params.per_page {
        Some(per_page) => per_page,
        None => 20,
    };
    let mut sorted: Vec<Booking> = Vec::new();
    let mut total_count: usize = 0;
    let mut k: usize = 0;
    while k < bookings.len()
        invariant
            k <= bookings@.len(),
            total_count == matching_bookings_prefix(bookings@, *query_params, k as int).len(),
            total_count <= k,
            sorted@ == sort_by_start_desc(
                matching_bookings_prefix(bookings@, *query_params, k as int),
            ),
            sorted@.len() == total_count,
        decreases bookings@.len() - k,
    {
        let booking = bookings[k];
        if booking_matches(&booking, query_params) {
            proof {
                let matched = matching_bookings_prefix(bookings@, *query_params, k as int);
                assert(matched.push(booking).drop_last() =~= matched);
                assert(matching_bookings_prefix(bookings@, *query_params, k as int + 1)
                    =~= matched.push(booking));
            }
            let ghost previous_sorted = sorted@;
            insert_sorted_by_start_desc(&mut sorted, booking);
            proof {
                lemma_insert_len(previous_sorted, booking);
            }
            total_count = total_count + 1;
        }
        k = k + 1;
    }
    proof {
        assert((page - 1) * per_page <= page * per_page) by (nonlinear_arith)
            requires page >= 1, per_page >= 0;
        assert((page - 1) as int * per_page as int + per_page as int == page as int
            * per_page as int) by (nonlinear_arith);
    }
    let offset: usize = ((page - 1) as usize) * (per_page as usize);
    let mut data: Vec<Booking> = Vec::new();
    if offset < sorted.len() {
        let remaining = sorted.len() - offset;
        let take: usize = if (per_page as usize) < remaining {
            per_page as usize
        } else {
            remaining
        };
        let mut i: usize = 0;
        while i < take
            invariant
                i <= take,
                offset + take <= sorted@.len(),
                data@ == sorted@.subrange(offset as int, offset as int + i as int),
            decreases take - i,
        {
            proof {
                assert(sorted@.subrange(offset as int, offset as int + i as int).push(
                    sorted@[offset as int + i as int],
                ) =~= sorted@.subrange(offset as int, offset as int + i as int + 1));
            }
            data.push(sorted[offset + i]);
            i = i + 1;
        }
        proof {
            assert(data@ =~= page_slice(sorted@, page, per_page));
        }
    } else {
        proof {
            assert(data@ =~= page_slice(sorted@, page, per_page));
        }
    }
    PaginatedResponse {
        data,
        meta: PaginationMeta { total_count, page, per_page },
    }
}

/// Inserting grows the sequence by exactly one entry.
proof fn lemma_insert_len(s: Seq<Booking>, booking: Booking)
    ensures
        insert_by_start_desc(s, booking).len() == s.len() + 1,
    decreases s.len(),
{
    if s.len() > 0 && s.last().start_date < booking.start_date {
        lemma_insert_len(s.drop_last(), booking);
    }
}

} // verus!
