//! Grouping utilities over booking collections: partition bookings by
//! vendor, transaction, or status, and count statuses. Groups are returned
//! as ordered key/group pairs, keys in order of first appearance, group
//! members in input order.

use vstd::prelude::*;

use crate::model::Booking;
use crate::model::BookingStatus;

verus! {

broadcast use vstd::seq_lib::lemma_seq_contains_after_push;

/// The bookings among the first `n` that belong to the vendor, in input
/// order.
pub open spec fn vendor_group_prefix(bookings: Seq<Booking>, vendor_id: u128, n: int) -> Seq<
    Booking,
>
    decreases n,
{
    if n <= 0 {
        Seq::empty()
    } else {
        let rest = vendor_group_prefix(bookings, vendor_id, n - 1);
        if bookings[n - 1].vendor_id == vendor_id {
            rest.push(bookings[n - 1])
        } else {
            rest
        }
    }
}

/// The bookings that belong to the vendor, in input order.
pub open spec fn vendor_group(bookings: Seq<Booking>, vendor_id: u128) -> Seq<Booking> {
    vendor_group_prefix(bookings, vendor_id, bookings.len() as int)
}

/// The bookings among the first `n` that belong to the transaction, in
/// input order.
pub open spec fn transaction_group_prefix(
    bookings: Seq<Booking>,
    transaction_id: u128,
    n: int,
) -> Seq<Booking>
    decreases n,
{
    if n <= 0 {
        Seq::empty()
    } else {
        let rest = transaction_group_prefix(bookings, transaction_id, n - 1);
        if bookings[n - 1].transaction_id == transaction_id {
            rest.push(bookings[n - 1])
        } else {
            rest
        }
    }
}

/// The bookings that belong to the transaction, in input order.
pub open spec fn transaction_group(bookings: Seq<Booking>, transaction_id: u128) -> Seq<Booking> {
    transaction_group_prefix(bookings, transaction_id, bookings.len() as int)
}

/// The bookings among the first `n` that carry the status, in input order.
pub open spec fn status_group_prefix(
    bookings: Seq<Booking>,
    status: BookingStatus,
    n: int,
) -> Seq<Booking>
    decreases n,
{
    if n <= 0 {
        Seq::empty()
    } else {
        let rest = status_group_prefix(bookings, status, n - 1);
        if bookings[n - 1].booking_status == status {
            rest.push(bookings[n - 1])
        } else {
            rest
        }
    }
}

/// The bookings that carry the status, in input order.
pub open spec fn status_group(bookings: Seq<Booking>, status: BookingStatus) -> Seq<Booking> {
    status_group_prefix(bookings, status, bookings.len() as int)
}

/// Whether some group in a vendor- or transaction-keyed grouping carries
/// the key.
pub open spec fn has_id_key(groups: Seq<(u128, Vec<Booking>)>, key: u128) -> bool {
    exists|i: int| 0 <= i < groups.len() && (#[trigger] groups[i]).0 == key
}

/// Whether some group in a status-keyed grouping carries the key.
pub open spec fn has_status_key(groups: Seq<(BookingStatus, Vec<Booking>)>, key: BookingStatus) -> bool {
    exists|i: int| 0 <= i < groups.len() && (#[trigger] groups[i]).0 == key
}

/// Whether some entry of a status-count table carries the key.
pub open spec fn has_count_key(counts: Seq<(BookingStatus, usize)>, key: BookingStatus) -> bool {
    exists|i: int| 0 <= i < counts.len() && (#[trigger] counts[i]).0 == key
}

/// Whether some booking in the list belongs to the vendor.
pub open spec fn some_booking_has_vendor(bookings: Seq<Booking>, vendor_id: u128) -> bool {
    exists|k: int| 0 <= k < bookings.len() && (#[trigger] bookings[k]).vendor_id == vendor_id
}

/// Whether some booking in the list belongs to the transaction.
pub open spec fn some_booking_has_transaction(bookings: Seq<Booking>, transaction_id: u128) -> bool {
    exists|k: int|
        0 <= k < bookings.len() && (#[trigger] bookings[k]).transaction_id == transaction_id
}

/// Whether some booking in the list carries the status.
pub open spec fn some_booking_has_status(bookings: Seq<Booking>, status: BookingStatus) -> bool {
    exists|k: int| 0 <= k < bookings.len() && (#[trigger] bookings[k]).booking_status == status
}

#[verifier::loop_isolation(false)]
fn contains_id(keys: &Vec<u128>, key: u128) -> (r: bool)
    ensures
        r == keys@.contains(key),
{
    let mut k: usize = 0;
    while k < keys.len()
        invariant
            k <= keys@.len(),
            forall|j: int| 0 <= j < k ==> keys@[j] != key,
        decreases keys@.len() - k,
    {
        if keys[k] == key {
            assert(keys@.contains(key));
            return true;
        }
        k = k + 1;
    }
    assert(!keys@.contains(key));
    false
}

#[verifier::loop_isolation(false)]
fn contains_status(keys: &Vec<BookingStatus>, key: BookingStatus) -> (r: bool)
    ensures
        r == keys@.contains(key),
{
    let mut k: usize = 0;
    while k < keys.len()
        invariant
            k <= keys@.len(),
            forall|j: int| 0 <= j < k ==> keys@[j] != key,
        decreases keys@.len() - k,
    {
        if keys[k] == key {
            assert(keys@.contains(key));
            return true;
        }
        k = k + 1;
    }
    assert(!keys@.contains(key));
    false
}

#[verifier::loop_isolation(false)]
fn bookings_of_vendor(bookings: &Vec<Booking>, vendor_id: u128) -> (r: Vec<Booking>)
    ensures
        r@ == vendor_group(bookings@, vendor_id),
{
    let mut r: Vec<Booking> = Vec::new();
    let mut k: usize = 0;
    while k < bookings.len()
        invariant
            k <= bookings@.len(),
            r@ == vendor_group_prefix(bookings@, vendor_id, k as int),
        decreases bookings@.len() - k,
    {
        if bookings[k].vendor_id == vendor_id {
            r.push(bookings[k]);
        }
        k = k + 1;
    }
    r
}

#[verifier::loop_isolation(false)]
fn bookings_of_transaction(bookings: &Vec<Booking>, transaction_id: u128) -> (r: Vec<Booking>)
    ensures
        r@ == transaction_group(bookings@, transaction_id),
{
    let mut r: Vec<Booking> = Vec::new();
    let mut k: usize = 0;
    while k < bookings.len()
        invariant
            k <= bookings@.len(),
            r@ == transaction_group_prefix(bookings@, transaction_id, k as int),
        decreases bookings@.len() - k,
    {
        if bookings[k].transaction_id == transaction_id {
            r.push(bookings[k]);
        }
        k = k + 1;
    }
    r
}

#[verifier::loop_isolation(false)]
fn bookings_of_status(bookings: &Vec<Booking>, status: BookingStatus) -> (r: Vec<Booking>)
    ensures
        r@ == status_group(bookings@, status),
{
    let mut r: Vec<Booking> = Vec::new();
    let mut k: usize = 0;
    while k < bookings.len()
        invariant
            k <= bookings@.len(),
            r@ == status_group_prefix(bookings@, status, k as int),
        decreases bookings@.len() - k,
    {
        if bookings[k].booking_status == status {
            r.push(bookings[k]);
        }
        k = k + 1;
    }
    r
}

/// Partitions bookings by vendor: one group per distinct vendor, keys in
/// order of first appearance, each group holding exactly that vendor's
/// bookings in input order.
#[verifier::loop_isolation(false)]
pub fn group_bookings_by_vendor(bookings: &Vec<Booking>) -> (r: Vec<(u128, Vec<Booking>)>)
    ensures
        forall|i: int, j: int| 0 <= i < j < r@.len() ==> r@[i].0 != r@[j].0,
        forall|i: int| 0 <= i < r@.len() ==> (#[trigger] r@[i]).1@ == vendor_group(
            bookings@,
            r@[i].0,
        ),
        forall|k: int|
            0 <= k < bookings@.len() ==> has_id_key(r@, (#[trigger] bookings@[k]).vendor_id),
        forall|i: int|
            0 <= i < r@.len() ==> some_booking_has_vendor(bookings@, (#[trigger] r@[i]).0),
{
    let mut keys: Vec<u128> = Vec::new();
    let mut k: usize = 0;
    while k < bookings.len()
        invariant
            k <= bookings@.len(),
            forall|i: int, j: int| 0 <= i < j < keys@.len() ==> keys@[i] != keys@[j],
            forall|j: int| 0 <= j < k ==> keys@.contains((#[trigger] bookings@[j]).vendor_id),
            forall|i: int|
                0 <= i < keys@.len() ==> some_booking_has_vendor(bookings@, #[trigger] keys@[i]),
        decreases bookings@.len() - k,
    {
        let vendor_id = bookings[k].vendor_id;
        if !contains_id(&keys, vendor_id) {
            keys.push(vendor_id);
        }
        k = k + 1;
    }
    let mut r: Vec<(u128, Vec<Booking>)> = Vec::new();
    let mut g: usize = 0;
    while g < keys.len()
        invariant
            g <= keys@.len(),
            r@.len() == g,
            forall|i: int| 0 <= i < g ==> (#[trigger] r@[i]).0 == keys@[i],
            forall|i: int| 0 <= i < g ==> (#[trigger] r@[i]).1@ == vendor_group(
                bookings@,
                keys@[i],
            ),
        decreases keys@.len() - g,
    {
        let key = keys[g];
        let group = bookings_of_vendor(bookings, key);
        r.push((key, group));
        g = g + 1;
    }
    proof {
        assert forall|k2: int|
            0 <= k2 < bookings@.len() implies has_id_key(
            r@,
            (#[trigger] bookings@[k2]).vendor_id,
        ) by {
            let key = bookings@[k2].vendor_id;
            let i = choose|i: int| 0 <= i < keys@.len() && keys@[i] == key;
            assert(keys@.contains(key));
            assert(r@[i].0 == key);
        }
    }
    r
}

/// Partitions bookings by parent transaction: one group per distinct
/// transaction, keys in order of first appearance, each group holding
/// exactly that transaction's bookings in input order.
#[verifier::loop_isolation(false)]
pub fn group_bookings_by_transaction(bookings: &Vec<Booking>) -> (r: Vec<(u128, Vec<Booking>)>)
    ensures
        forall|i: int, j: int| 0 <= i < j < r@.len() ==> r@[i].0 != r@[j].0,
        forall|i: int| 0 <= i < r@.len() ==> (#[trigger] r@[i]).1@ == transaction_group(
            bookings@,
            r@[i].0,
        ),
        forall|k: int|
            0 <= k < bookings@.len() ==> has_id_key(r@, (#[trigger] bookings@[k]).transaction_id),
        forall|i: int|
            0 <= i < r@.len() ==> some_booking_has_transaction(bookings@, (#[trigger] r@[i]).0),
{
    let mut keys: Vec<u128> = Vec::new();
    let mut k: usize = 0;
    while k < bookings.len()
        invariant
            k <= bookings@.len(),
            forall|i: int, j: int| 0 <= i < j < keys@.len() ==> keys@[i] != keys@[j],
            forall|j: int| 0 <= j < k ==> keys@.contains((#[trigger] bookings@[j]).transaction_id),
            forall|i: int|
                0 <= i < keys@.len() ==> some_booking_has_transaction(
                    bookings@,
                    #[trigger] keys@[i],
                ),
        decreases bookings@.len() - k,
    {
        let transaction_id = bookings[k].transaction_id;
        if !contains_id(&keys, transaction_id) {
            keys.push(transaction_id);
        }
        k = k + 1;
    }
    let mut r: Vec<(u128, Vec<Booking>)> = Vec::new();
    let mut g: usize = 0;
    while g < keys.len()
        invariant
            g <= keys@.len(),
            r@.len() == g,
            forall|i: int| 0 <= i < g ==> (#[trigger] r@[i]).0 == keys@[i],
            forall|i: int| 0 <= i < g ==> (#[trigger] r@[i]).1@ == transaction_group(
                bookings@,
                keys@[i],
            ),
        decreases keys@.len() - g,
    {
        let key = keys[g];
        let group = bookings_of_transaction(bookings, key);
        r.push((key, group));
        g = g + 1;
    }
    proof {
        assert forall|k2: int|
            0 <= k2 < bookings@.len() implies has_id_key(
            r@,
            (#[trigger] bookings@[k2]).transaction_id,
        ) by {
            let key = bookings@[k2].transaction_id;
            let i = choose|i: int| 0 <= i < keys@.len() && keys@[i] == key;
            assert(keys@.contains(key));
            assert(r@[i].0 == key);
        }
    }
    r
}

/// Partitions bookings by status: one group per status present, keys in
/// order of first appearance, each group holding exactly the bookings of
/// that status in input order.
#[verifier::loop_isolation(false)]
pub fn group_bookings_by_status(bookings: &Vec<Booking>) -> (r: Vec<(BookingStatus, Vec<Booking>)>)
    ensures
        forall|i: int, j: int| 0 <= i < j < r@.len() ==> r@[i].0 != r@[j].0,
        forall|i: int| 0 <= i < r@.len() ==> (#[trigger] r@[i]).1@ == status_group(
            bookings@,
            r@[i].0,
        ),
        forall|k: int|
            0 <= k < bookings@.len() ==> has_status_key(
                r@,
                (#[trigger] bookings@[k]).booking_status,
            ),
        forall|i: int|
            0 <= i < r@.len() ==> some_booking_has_status(bookings@, (#[trigger] r@[i]).0),
{
    let mut keys: Vec<BookingStatus> = Vec::new();
    let mut k: usize = 0;
    while k < bookings.len()
        invariant
            k <= bookings@.len(),
            forall|i: int, j: int| 0 <= i < j < keys@.len() ==> keys@[i] != keys@[j],
            forall|j: int| 0 <= j < k ==> keys@.contains((#[trigger] bookings@[j]).booking_status),
            forall|i: int|
                0 <= i < keys@.len() ==> some_booking_has_status(bookings@, #[trigger] keys@[i]),
        decreases bookings@.len() - k,
    {
        let status = bookings[k].booking_status;
        if !contains_status(&keys, status) {
            keys.push(status);
        }
        k = k + 1;
    }
    let mut r: Vec<(BookingStatus, Vec<Booking>)> = Vec::new();
    let mut g: usize = 0;
    while g < keys.len()
        invariant
            g <= keys@.len(),
            r@.len() == g,
            forall|i: int| 0 <= i < g ==> (#[trigger] r@[i]).0 == keys@[i],
            forall|i: int| 0 <= i < g ==> (#[trigger] r@[i]).1@ == status_group(
                bookings@,
                keys@[i],
            ),
        decreases keys@.len() - g,
    {
        let key = keys[g];
        let group = bookings_of_status(bookings, key);
        r.push((key, group));
        g = g + 1;
    }
    proof {
        assert forall|k2: int|
            0 <= k2 < bookings@.len() implies has_status_key(
            r@,
            (#[trigger] bookings@[k2]).booking_status,
        ) by {
            let key = bookings@[k2].booking_status;
            let i = choose|i: int| 0 <= i < keys@.len() && keys@[i] == key;
            assert(keys@.contains(key));
            assert(r@[i].0 == key);
        }
    }
    r
}

/// Counts how many bookings carry each status: one entry per status
/// present, keys in order of first appearance.
#[verifier::loop_isolation(false)]
pub fn count_booking_statuses(bookings: &Vec<Booking>) -> (r: Vec<(BookingStatus, usize)>)
    ensures
        forall|i: int, j: int| 0 <= i < j < r@.len() ==> r@[i].0 != r@[j].0,
        forall|i: int| 0 <= i < r@.len() ==> (#[trigger] r@[i]).1 == status_group(
            bookings@,
            r@[i].0,
        ).len(),
        forall|k: int|
            0 <= k < bookings@.len() ==> has_count_key(
                r@,
                (#[trigger] bookings@[k]).booking_status,
            ),
        forall|i: int|
            0 <= i < r@.len() ==> some_booking_has_status(bookings@, (#[trigger] r@[i]).0),
{
    let groups = group_bookings_by_status(bookings);
    let mut r: Vec<(BookingStatus, usize)> = Vec::new();
    let mut g: usize = 0;
    while g < groups.len()
        invariant
            g <= groups@.len(),
            r@.len() == g,
            forall|i: int| 0 <= i < g ==> (#[trigger] r@[i]).0 == groups@[i].0,
            forall|i: int| 0 <= i < g ==> (#[trigger] r@[i]).1 == groups@[i].1@.len(),
        decreases groups@.len() - g,
    {
        let count = groups[g].1.len();
        r.push((groups[g].0, count));
        g = g + 1;
    }
    proof {
        assert forall|k2: int|
            0 <= k2 < bookings@.len() implies has_count_key(
            r@,
            (#[trigger] bookings@[k2]).booking_status,
        ) by {
            let key = bookings@[k2].booking_status;
            assert(has_status_key(groups@, key));
            let i = choose|i: int|
                0 <= i < groups@.len() && (#[trigger] groups@[i]).0 == key;
            assert(r@[i].0 == key);
        }
    }
    r
}

} // verus!
