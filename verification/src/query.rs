//! Paginated listing of validator entries kept under `u64` keys.
use vstd::prelude::*;

verus! {

/// Largest page a listing query returns.
pub const MAX_LIMIT: u32 = 30;

/// Page size used when the caller names no limit.
pub const DEFAULT_LIMIT: u32 = 10;

/// Direction in which a listing walks the keys.
#[derive(Clone, Copy, Debug, PartialEq, Eq, Structural)]
pub enum Order {
    Ascending,
    Descending,
}

/// The order a query asks for: only an explicit `1` or no value at all
/// means ascending; any other number means descending.
pub open spec fn spec_map_order(order: Option<u8>) -> Order {
    match order {
        Some(o) => if o == 1 { Order::Ascending } else { Order::Descending },
        None => Order::Ascending,
    }
}

/// The page size a query uses: the given limit (or the default), capped at
/// `MAX_LIMIT`.
pub open spec fn spec_page_limit(limit: Option<u32>) -> nat {
    let l: u32 = match limit {
        Some(l) => l,
        None => DEFAULT_LIMIT,
    };
    if l <= MAX_LIMIT { l as nat } else { MAX_LIMIT as nat }
}

/// Whether `key` lies strictly after the exclusive lower bound `start_after`.
pub open spec fn after_bound(start_after: Option<u64>, key: u64) -> bool {
    match start_after {
        Some(s) => key > s,
        None => true,
    }
}

/// The keys that a range with exclusive lower bound `start_after` visits,
/// in the order in which they are stored.
pub open spec fn keys_in_range(keys: Seq<u64>, start_after: Option<u64>) -> Seq<u64> {
    keys.filter(|k: u64| after_bound(start_after, k))
}

/// The keys of one page: those after `start_after`, walked in `order`, at
/// most `limit` of them. The bound is a lower bound in both orders.
pub open spec fn page_spec(keys: Seq<u64>, start_after: Option<u64>, limit: nat, order: Order) -> Seq<u64> {
    let r = keys_in_range(keys, start_after);
    let walked = match order {
        Order::Ascending => r,
        Order::Descending => r.reverse(),
    };
    if walked.len() <= limit { walked } else { walked.take(limit as int) }
}

/// Maps the optional order byte of a query to a walking direction.
pub fn map_order(order: Option<u8>) -> (res: Order)
    ensures
        res == spec_map_order(order),
{
    match order {
        Some(order) => {
            if order == 1 {
                Order::Ascending
            } else {
                Order::Descending
            }
        },
        None => Order::Ascending,
    }
}

/// The page size of a query: `limit` or `DEFAULT_LIMIT`, at most `MAX_LIMIT`.
pub fn page_limit(limit: Option<u32>) -> (res: usize)
    ensures
        res as nat == spec_page_limit(limit),
        res <= MAX_LIMIT,
        limit is None ==> res == DEFAULT_LIMIT,
        limit matches Some(l) ==> (l <= MAX_LIMIT ==> res == l),
        limit matches Some(l) ==> (l > MAX_LIMIT ==> res == MAX_LIMIT),
{
    let l: u32 = match limit {
        Some(l) => l,
        None => DEFAULT_LIMIT,
    };
    if l <= MAX_LIMIT {
        l as usize
    } else {
        MAX_LIMIT as usize
    }
}

proof fn lemma_filter_take_step(keys: Seq<u64>, pred: spec_fn(u64) -> bool, i: int)
    requires
        0 <= i < keys.len(),
    ensures
        keys.take(i + 1).filter(pred) == (if pred(keys[i]) {
            keys.take(i).filter(pred).push(keys[i])
        } else {
            keys.take(i).filter(pred)
        }),
{
    reveal(Seq::filter);
    assert(keys.take(i + 1).drop_last() =~= keys.take(i));
    assert(keys.take(i + 1).last() == keys[i]);
}

/// The keys of `keys` that lie strictly after `start_after`, in stored order.
pub fn range_keys(keys: &Vec<u64>, start_after: Option<u64>) -> (res: Vec<u64>)
    ensures
        res@ == keys_in_range(keys@, start_after),
        start_after is None ==> res@ == keys@,
        forall|k: u64| res@.contains(k) <==> keys@.contains(k) && (start_after matches Some(s) ==> k > s),
{
    let ghost pred = |k: u64| after_bound(start_after, k);
    let mut res: Vec<u64> = Vec::new();
    let mut i: usize = 0;
    assert(keys@.take(0) =~= Seq::<u64>::empty());
    proof {
        reveal(Seq::filter);
    }
    while i < keys.len()
        invariant
            i <= keys.len(),
            pred == (|k: u64| after_bound(start_after, k)),
            res@ == keys@.take(i as int).filter(pred),
        decreases keys.len() - i,
    {
        let k = keys[i];
        proof {
            lemma_filter_take_step(keys@, pred, i as int);
        }
        let keep = match start_after {
            Some(s) => k > s,
            None => true,
        };
        if keep {
            res.push(k);
        }
        i = i + 1;
    }
    assert(keys@.take(keys.len() as int) =~= keys@);
    proof {
        lemma_range_members(keys@, start_after);
        if start_after is None {
            lemma_unbounded_range_keeps_all(keys@);
        }
        assert forall|k: u64| res@.contains(k) <==> keys@.contains(k) && (start_after matches Some(s) ==> k > s) by {
            assert(keys_in_range(keys@, start_after).contains(k) == res@.contains(k));
        }
    }
    res
}

/// One page of a listing over `keys` (as stored, ascending): the keys after
/// the exclusive bound `start_after`, walked in `order`, at most `limit` of them.
pub fn select_page(keys: &Vec<u64>, start_after: Option<u64>, limit: usize, order: Order) -> (res: Vec<u64>)
    ensures
        res@ == page_spec(keys@, start_after, limit as nat, order),
        res@.len() <= limit,
        start_after is None && order == Order::Ascending ==>
            res@ == (if keys@.len() <= limit { keys@ } else { keys@.take(limit as int) }),
{
    let range = range_keys(keys, start_after);
    let n = range.len();
    let count = if n <= limit { n } else { limit };
    let mut res: Vec<u64> = Vec::new();
    let mut j: usize = 0;
    while j < count
        invariant
            j <= count,
            n == range@.len(),
            count == (if n <= limit { n } else { limit }),
            res@.len() == j,
            forall|t: int| 0 <= t < j ==> #[trigger] res@[t] == (match order {
                Order::Ascending => range@[t],
                Order::Descending => range@[n - 1 - t],
            }),
        decreases count - j,
    {
        let k = match order {
            Order::Ascending => range[j],
            Order::Descending => range[n - 1 - j],
        };
        res.push(k);
        j = j + 1;
    }
    let ghost walked = match order {
        Order::Ascending => range@,
        Order::Descending => range@.reverse(),
    };
    assert(res@ =~= (if walked.len() <= limit { walked } else { walked.take(limit as int) }));
    proof {
        if start_after is None {
            lemma_unbounded_range_keeps_all(keys@);
        }
    }
    res
}

/// One page of a listing query over `keys` (as stored, ascending): the keys
/// after the exclusive bound `start_after`, walked in the order that `order`
/// names, at most `page_limit(limit)` of them.
pub fn page_keys(keys: &Vec<u64>, start_after: Option<u64>, limit: Option<u32>, order: Option<u8>) -> (res: Vec<u64>)
    ensures
        res@ == page_spec(keys@, start_after, spec_page_limit(limit), spec_map_order(order)),
        ({
            let size: nat = match limit {
                Some(l) => if l <= 30 { l as nat } else { 30 },
                None => 10,
            };
            &&& res@.len() <= size
            &&& start_after is None && (order is None || order == Some(1u8)) ==>
                res@ == (if keys@.len() <= size { keys@ } else { keys@.take(size as int) })
        }),
{
    let limit = page_limit(limit);
    let order = map_order(order);
    select_page(keys, start_after, limit, order)
}

/// A query's page size is the limit it names, cut down to 30 when larger,
/// and 10 when it names none: a limit up to 30 is kept exactly.
pub proof fn lemma_page_limit_is_capped_limit(l: u32)
    ensures
        l <= 30 ==> spec_page_limit(Some(l)) == l,
        l > 30 ==> spec_page_limit(Some(l)) == 30,
        spec_page_limit(None) == 10,
        spec_page_limit(Some(l)) <= l,
        spec_page_limit(Some(l)) == l || spec_page_limit(Some(l)) == 30,
{
}

/// Without a bound, the range of a listing holds every stored key, in stored
/// order: no key (not even 0) is left out.
pub proof fn lemma_unbounded_range_keeps_all(keys: Seq<u64>)
    ensures
        keys_in_range(keys, None) == keys,
        forall|k: u64| #[trigger] after_bound(None, k),
    decreases keys.len(),
{
    reveal(Seq::filter);
    if keys.len() > 0 {
        lemma_unbounded_range_keeps_all(keys.drop_last());
        assert(keys.drop_last().push(keys.last()) =~= keys);
    }
}

/// A key is in the range of a listing exactly when it is stored and lies
/// strictly above the bound, if there is one.
pub proof fn lemma_range_members(keys: Seq<u64>, start_after: Option<u64>)
    ensures
        forall|k: u64| #[trigger] keys_in_range(keys, start_after).contains(k) <==>
            keys.contains(k) && (start_after matches Some(s) ==> k > s),
{
    let pred = |k: u64| after_bound(start_after, k);
    let r = keys_in_range(keys, start_after);
    assert forall|k: u64| #[trigger] r.contains(k) <==> keys.contains(k) && (start_after matches Some(s) ==> k > s) by {
        if r.contains(k) {
            let j = choose|j: int| 0 <= j < r.len() && r[j] == k;
            keys.lemma_filter_pred(pred, j);
            lemma_filter_member(keys, pred, j);
        }
        if keys.contains(k) && (start_after matches Some(s) ==> k > s) {
            let i = choose|i: int| 0 <= i < keys.len() && keys[i] == k;
            keys.lemma_filter_contains(pred, i);
        }
    }
}

/// The first page of an ascending listing (no bound) is the first stored
/// keys: as many as the page size, or all of them when fewer are stored.
pub proof fn lemma_first_ascending_page_is_prefix(keys: Seq<u64>, limit: nat)
    ensures
        page_spec(keys, None, limit, Order::Ascending) == (if keys.len() <= limit { keys } else { keys.take(limit as int) }),
{
    lemma_unbounded_range_keeps_all(keys);
}

/// Keys as a storage map of `u64` keys yields them: strictly ascending.
pub open spec fn strictly_ascending(keys: Seq<u64>) -> bool {
    forall|i: int, j: int| 0 <= i < j < keys.len() ==> keys[i] < keys[j]
}

/// On ascending keys, the range after an exclusive bound is a suffix of
/// the keys: those before index `c` lie at or below the bound, the rest after it.
proof fn lemma_range_is_suffix(keys: Seq<u64>, start_after: Option<u64>) -> (c: int)
    requires
        strictly_ascending(keys),
    ensures
        0 <= c <= keys.len(),
        keys_in_range(keys, start_after) == keys.skip(c),
        forall|i: int| 0 <= i < c ==> !after_bound(start_after, #[trigger] keys[i]),
        forall|i: int| c <= i < keys.len() ==> after_bound(start_after, #[trigger] keys[i]),
    decreases keys.len(),
{
    let pred = |k: u64| after_bound(start_after, k);
    reveal(Seq::filter);
    if keys.len() == 0 {
        assert(keys.skip(0) =~= keys);
        0
    } else {
        let init = keys.drop_last();
        let last = keys.last();
        assert(strictly_ascending(init));
        let c0 = lemma_range_is_suffix(init, start_after);
        assert(keys.filter(pred) == (if pred(last) { init.filter(pred).push(last) } else { init.filter(pred) }));
        assert forall|i: int| 0 <= i < init.len() implies #[trigger] keys[i] == init[i] by {}
        if pred(last) {
            assert(keys.skip(c0) =~= init.skip(c0).push(last));
            assert forall|i: int| 0 <= i < c0 implies !after_bound(start_after, #[trigger] keys[i]) by {
                assert(keys[i] == init[i]);
            }
            assert forall|i: int| c0 <= i < keys.len() implies after_bound(start_after, #[trigger] keys[i]) by {
                if i < init.len() {
                    assert(keys[i] == init[i]);
                }
            }
            c0
        } else {
            assert forall|i: int| 0 <= i < keys.len() implies !after_bound(start_after, #[trigger] keys[i]) by {
                if i < keys.len() - 1 {
                    assert(keys[i] < keys[keys.len() - 1]);
                }
            }
            if c0 < init.len() {
                assert(init[c0] == keys[c0]);
            }
            assert(init.skip(c0) =~= Seq::<u64>::empty());
            assert(keys.skip(keys.len() as int) =~= Seq::<u64>::empty());
            keys.len() as int
        }
    }
}

/// A page never holds more than the query's page size, which never exceeds
/// `MAX_LIMIT`.
pub proof fn lemma_page_size_bounded(keys: Seq<u64>, start_after: Option<u64>, limit: Option<u32>, order: Option<u8>)
    ensures
        page_spec(keys, start_after, spec_page_limit(limit), spec_map_order(order)).len() <= spec_page_limit(limit),
        spec_page_limit(limit) <= MAX_LIMIT,
{
}

/// Every key of a page lies strictly after the bound `start_after` and is
/// one of the stored keys.
pub proof fn lemma_page_keys_after_bound(keys: Seq<u64>, start_after: Option<u64>, limit: nat, order: Order)
    ensures
        forall|i: int| 0 <= i < page_spec(keys, start_after, limit, order).len() ==> {
            let k = #[trigger] page_spec(keys, start_after, limit, order)[i];
            after_bound(start_after, k) && keys.contains(k)
        },
{
    let pred = |k: u64| after_bound(start_after, k);
    let r = keys_in_range(keys, start_after);
    broadcast use Seq::lemma_filter_pred;
    let p = page_spec(keys, start_after, limit, order);
    assert forall|i: int| 0 <= i < p.len() implies after_bound(start_after, #[trigger] p[i]) && keys.contains(p[i]) by {
        let j = match order {
            Order::Ascending => i,
            Order::Descending => r.len() - 1 - i,
        };
        assert(p[i] == r[j]);
        assert(pred(r[j]));
        lemma_filter_member(keys, pred, j);
    }
}

proof fn lemma_filter_member(keys: Seq<u64>, pred: spec_fn(u64) -> bool, j: int)
    requires
        0 <= j < keys.filter(pred).len(),
    ensures
        keys.contains(keys.filter(pred)[j]),
    decreases keys.len(),
{
    reveal(Seq::filter);
    if keys.len() > 0 {
        let init = keys.drop_last();
        if j < init.filter(pred).len() {
            lemma_filter_member(init, pred, j);
            let w = choose|t: int| 0 <= t < init.len() && init[t] == init.filter(pred)[j];
            assert(keys[w] == init[w]);
        } else {
            assert(keys[keys.len() - 1] == keys.filter(pred)[j]);
        }
    }
}

/// On stored (strictly ascending) keys, an ascending page is strictly
/// ascending and a descending page strictly descending.
pub proof fn lemma_page_sorted(keys: Seq<u64>, start_after: Option<u64>, limit: nat, order: Order)
    requires
        strictly_ascending(keys),
    ensures
        ({
            let p = page_spec(keys, start_after, limit, order);
            forall|i: int, j: int| 0 <= i < j < p.len() ==> (match order {
                Order::Ascending => p[i] < p[j],
                Order::Descending => p[i] > p[j],
            })
        }),
{
    let c = lemma_range_is_suffix(keys, start_after);
    let r = keys_in_range(keys, start_after);
    let p = page_spec(keys, start_after, limit, order);
    assert forall|i: int, j: int| 0 <= i < j < p.len() implies (match order {
        Order::Ascending => p[i] < p[j],
        Order::Descending => p[i] > p[j],
    }) by {
        match order {
            Order::Ascending => {
                assert(p[i] == keys[c + i] && p[j] == keys[c + j]);
            },
            Order::Descending => {
                assert(p[i] == keys[c + r.len() - 1 - i] && p[j] == keys[c + r.len() - 1 - j]);
            },
        }
    }
}

/// Walking ascending pages: when a page is full, asking for the page after
/// its last key, of any size, yields exactly the keys that follow it, so the
/// two pages together are the first keys of the range, with no gap and no
/// repeat.
pub proof fn lemma_ascending_pages_continue(keys: Seq<u64>, start_after: Option<u64>, first_limit: nat, next_limit: nat)
    requires
        strictly_ascending(keys),
        first_limit > 0,
        page_spec(keys, start_after, first_limit, Order::Ascending).len() == first_limit,
    ensures
        ({
            let first = page_spec(keys, start_after, first_limit, Order::Ascending);
            let next = page_spec(keys, Some(first.last()), next_limit, Order::Ascending);
            let r = keys_in_range(keys, start_after);
            let both = first_limit + next_limit;
            first + next == (if r.len() <= both { r } else { r.take(both as int) })
        }),
{
    let c = lemma_range_is_suffix(keys, start_after);
    let r = keys_in_range(keys, start_after);
    let first = page_spec(keys, start_after, first_limit, Order::Ascending);
    let last = first.last();
    assert(last == keys[c + first_limit - 1]);
    let c2 = lemma_range_is_suffix(keys, Some(last));
    if c2 < c + first_limit {
        assert(keys[c2] <= keys[c + first_limit - 1]);
    }
    if c2 > c + first_limit {
        assert(keys[c + first_limit] > keys[c + first_limit - 1]);
    }
    assert(c2 == c + first_limit);
    let next = page_spec(keys, Some(last), next_limit, Order::Ascending);
    let both = first_limit + next_limit;
    assert(first + next =~= (if r.len() <= both { r } else { r.take(both as int) }));
}

} // verus!
