//! Moving through a list of transactions day by day: the transactions
//! are in the order the API gives them, each with its local date.

use vstd::prelude::*;

use crate::clock::{local_date, LocalDate};
use crate::models::Transaction;

verus! {

/// `p` is the last position before `s` whose date differs from the date
/// at `s`.
pub open spec fn is_last_other_before(d: Seq<LocalDate>, s: int, p: int) -> bool {
    &&& 0 <= p < s
    &&& d[p] != d[s]
    &&& forall|k: int| p < k < s ==> d[k] == d[s]
}

/// Every position before `s` has the date at `s`.
pub open spec fn same_day_before(d: Seq<LocalDate>, s: int) -> bool {
    forall|k: int| 0 <= k < s ==> d[k] == d[s]
}

/// `f` is the first position, up to `p`, with the date at `p`.
pub open spec fn is_first_same_upto(d: Seq<LocalDate>, p: int, f: int) -> bool {
    &&& 0 <= f <= p
    &&& d[f] == d[p]
    &&& forall|k: int| 0 <= k < f ==> d[k] != d[p]
}

/// The position where the previous day starts, seen from `s`: the
/// earliest position with the date of the last position before `s` whose
/// date differs; `None` when every earlier position has the date at `s`.
pub open spec fn is_previous_day_start(d: Seq<LocalDate>, s: int, r: Option<usize>) -> bool {
    match r {
        None => same_day_before(d, s),
        Some(f) => exists|p: int| #[trigger] is_last_other_before(d, s, p) && is_first_same_upto(d, p, f as int),
    }
}

/// The first position after `s` whose date differs from the date at `s`,
/// or `None` when every later position has that date.
pub open spec fn is_next_day_start(d: Seq<LocalDate>, s: int, r: Option<usize>) -> bool {
    match r {
        None => forall|k: int| s < k < d.len() ==> d[k] == d[s],
        Some(t) => {
            &&& s < t < d.len()
            &&& d[t as int] != d[s]
            &&& forall|k: int| s < k < t ==> d[k] == d[s]
        },
    }
}

/// Where the previous day starts, seen from position `s`.
pub fn previous_day_start(d: &Vec<LocalDate>, s: usize) -> (r: Option<usize>)
    requires
        s < d@.len(),
    ensures
        is_previous_day_start(d@, s as int, r),
{
    let cur = d[s];
    let mut j = s;
    while j > 0 && d[j - 1] == cur
        invariant
            j <= s < d@.len(),
            cur == d@[s as int],
            forall|k: int| j <= k < s ==> d@[k] == cur,
        decreases j,
    {
        j = j - 1;
    }
    if j == 0 {
        None
    } else {
        let p = j - 1;
        assert(is_last_other_before(d@, s as int, p as int));
        let target = d[p];
        let mut f: usize = 0;
        while f < p && d[f] != target
            invariant
                f <= p < s < d@.len(),
                target == d@[p as int],
                forall|k: int| 0 <= k < f ==> d@[k] != target,
            decreases p - f,
        {
            f = f + 1;
        }
        assert(is_first_same_upto(d@, p as int, f as int));
        Some(f)
    }
}

/// Where the next day starts, seen from position `s`.
pub fn next_day_start(d: &Vec<LocalDate>, s: usize) -> (r: Option<usize>)
    requires
        s < d@.len(),
    ensures
        is_next_day_start(d@, s as int, r),
{
    let cur = d[s];
    let n = d.len();
    let mut j = s + 1;
    while j < n
        invariant
            s < j <= n,
            n == d@.len(),
            cur == d@[s as int],
            forall|k: int| s < k < j ==> d@[k] == cur,
        decreases n - j,
    {
        if d[j] != cur {
            return Some(j);
        }
        j = j + 1;
    }
    None
}

/// `d` holds, in order, what `local_date` returned for the creation time
/// of each transaction.
pub open spec fn dates_of(txns: Seq<Transaction>, d: Seq<LocalDate>) -> bool {
    &&& d.len() == txns.len()
    &&& forall|i: int| 0 <= i < txns.len() ==> call_ensures(local_date, (&txns[i].created_at,), #[trigger] d[i])
}

/// The local date of each transaction's creation time, in order.  What
/// the dates are depends on the machine's time zone; which instant each is
/// read from is fixed.
pub fn local_dates(txns: &Vec<Transaction>) -> (d: Vec<LocalDate>)
    ensures
        dates_of(txns@, d@),
{
    let mut d: Vec<LocalDate> = Vec::new();
    let n = txns.len();
    for i in 0..n
        invariant
            n == txns@.len(),
            d@.len() == i,
            forall|j: int| 0 <= j < i ==> call_ensures(local_date, (&txns@[j].created_at,), #[trigger] d@[j]),
    {
        d.push(local_date(&txns[i].created_at));
    }
    d
}

} // verus!
