use vstd::prelude::*;

verus! {

/// The number of orders a trade is split into at time `now`: 3 to 10.
pub open spec fn split_order_count(now: u64) -> nat {
    (now % 8) as nat + 3
}

/// The number of orders a trade is split into at time `now`, from 3 to 10.
pub fn get_split_order_count(now: u64) -> (r: usize)
    ensures
        r == split_order_count(now),
        3 <= r <= 10,
{
    (now % 8) as usize + 3
}

/// The least amount of each order when `total` is split `n` ways: a tenth
/// of the average, and at least 1.
pub open spec fn min_order(total: nat, n: nat) -> nat {
    let m = (total / n) * 10 / 100;
    if m < 1 { 1 } else { m }
}

/// The pseudo-random percentage, 0 to 100, that sizes order `i` of a split
/// seeded with `seed`.
pub open spec fn split_factor(seed: nat, i: nat) -> nat {
    ((seed + i * 7919 + (seed % (i + 1)) * 104729) % 101) as nat
}

/// `a - b`, or 0 when `b` exceeds `a`.
pub open spec fn monus(a: nat, b: nat) -> nat {
    if a > b { (a - b) as nat } else { 0 }
}

/// The first `i` orders of a split of `total` into `n` orders of at least
/// `min` seeded with `seed`, and the amount left after them. Each order
/// takes a pseudo-random share between `min` and what leaves `min` for each
/// later order, or `min` when nothing more is left (what is left, when
/// that is less than `min`, so that no order takes more than there is).
pub open spec fn split_prefix(total: nat, n: nat, seed: nat, min: nat, i: nat) -> (Seq<nat>, nat)
    decreases i,
{
    if i == 0 {
        (Seq::empty(), total)
    } else {
        let (prev, rem) = split_prefix(total, n, seed, min, (i - 1) as nat);
        let k = (i - 1) as nat;
        let max_cur = monus(rem, min * monus(n, k + 1));
        if max_cur <= min {
            let take = if rem < min { rem } else { min };
            (prev.push(take), (rem - take) as nat)
        } else {
            let amount = min + split_factor(seed, k) * ((max_cur - min) as nat) / 100;
            (prev.push(amount), monus(rem, amount))
        }
    }
}

/// The orders of a split of `total` into `n` orders seeded with `seed`:
/// the whole amount when there is nothing to split, otherwise `n - 1`
/// pseudo-random orders and the rest as the last one.
pub open spec fn split_amounts(total: nat, n: nat, seed: nat) -> Seq<nat> {
    if n <= 1 || total == 0 {
        seq![total]
    } else {
        let (orders, rem) = split_prefix(total, n, seed, min_order(total, n), (n - 1) as nat);
        orders.push(rem)
    }
}

/// The amounts as natural numbers.
pub open spec fn amounts_view(v: Seq<u128>) -> Seq<nat> {
    v.map_values(|a: u128| a as nat)
}

/// The sum of natural numbers.
pub open spec fn nat_sum(s: Seq<nat>) -> nat
    decreases s.len(),
{
    if s.len() == 0 {
        0
    } else {
        nat_sum(s.drop_last()) + s.last()
    }
}

/// Splits `total_amount` into `split_count` pseudo-random orders seeded with
/// `seed`. The orders add up to the total; when the total is at least the
/// number of orders, each is at least a tenth of the average, and at least 1.
pub fn split_amount(total_amount: u128, split_count: usize, seed: u64) -> (r: Vec<u128>)
    ensures
        amounts_view(r@) == split_amounts(total_amount as nat, split_count as nat, seed as nat),
        r@.len() == (if split_count <= 1 || total_amount == 0 { 1 } else { split_count as nat }),
        nat_sum(amounts_view(r@)) == total_amount,
        2 <= split_count <= total_amount ==> forall|j: int|
            0 <= j < r@.len() ==> #[trigger] r@[j] >= min_order(total_amount as nat, split_count as nat),
{
    proof {
        law_split_keeps_total(total_amount as nat, split_count as nat, seed as nat);
    }
    if split_count <= 1 || total_amount == 0 {
        let v: Vec<u128> = vec![total_amount];
        proof {
            assert(amounts_view(v@) =~= seq![total_amount as nat]);
        }
        return v;
    }
    let ghost t = total_amount as nat;
    let ghost n = split_count as nat;
    let seed128 = seed as u128;
    let count = split_count as u128;
    let avg_amount = total_amount / count;
    let scaled = avg_amount / 10;
    let min_amount: u128 = if scaled < 1 { 1 } else { scaled };
    proof {
        assert(avg_amount * 10 / 100 == avg_amount / 10) by (nonlinear_arith);
        assert(min_amount as nat == min_order(t, n));
    }
    let mut result: Vec<u128> = Vec::new();
    let mut remaining_amount = total_amount;
    let mut remaining_splits = split_count;
    let mut i: usize = 0;
    while i < split_count - 1
        invariant
            2 <= split_count,
            n == split_count as nat,
            t == total_amount as nat,
            min_amount as nat == min_order(t, n),
            1 <= min_amount,
            i <= split_count - 1,
            remaining_splits == split_count - i,
            (amounts_view(result@), remaining_amount as nat) == split_prefix(t, n, seed as nat, min_amount as nat, i as nat),
            seed128 == seed as u128,
        decreases split_count - 1 - i,
    {
        let ghost prev = result@;
        let rs = (remaining_splits - 1) as u128;
        let reserved: u128 = if rs <= u128::MAX / min_amount {
            proof {
                assert(min_amount * rs <= min_amount * (u128::MAX / min_amount)) by (nonlinear_arith)
                    requires
                        rs <= u128::MAX / min_amount,
                ;
                assert(min_amount * (u128::MAX / min_amount) <= u128::MAX) by (nonlinear_arith)
                    requires
                        min_amount > 0,
                ;
            }
            min_amount * rs
        } else {
            proof {
                assert(min_amount * rs > u128::MAX) by (nonlinear_arith)
                    requires
                        rs > u128::MAX / min_amount,
                        min_amount > 0,
                ;
            }
            u128::MAX
        };
        let max_for_current = remaining_amount.saturating_sub(reserved);
        proof {
            assert(monus(n, (i + 1) as nat) == rs);
            assert(max_for_current as nat == monus(remaining_amount as nat, min_amount as nat * monus(n, (i + 1) as nat)));
        }
        if max_for_current <= min_amount {
            let take = if remaining_amount < min_amount { remaining_amount } else { min_amount };
            result.push(take);
            remaining_amount = remaining_amount - take;
        } else {
            let ii = i as u128;
            let random_factor = (seed128 + ii * 7919 + seed128 % (ii + 1) * 104729) % 101;
            let random_range = max_for_current - min_amount;
            let q = random_range / 100;
            let m = random_range % 100;
            proof {
                assert(random_factor * q <= random_range) by (nonlinear_arith)
                    requires
                        random_factor <= 100,
                        q == random_range / 100,
                ;
                assert(random_factor * m < 10100) by (nonlinear_arith)
                    requires
                        random_factor <= 100,
                        m < 100,
                ;
                assert(random_factor * q + random_factor * m / 100 == random_factor * random_range / 100)
                    by (nonlinear_arith)
                    requires
                        q == random_range / 100,
                        m == random_range % 100,
                ;
                assert(random_factor * random_range / 100 <= random_range) by (nonlinear_arith)
                    requires
                        random_factor <= 100,
                ;
            }
            let share = random_factor * q + random_factor * m / 100;
            proof {
                assert(random_factor as nat == split_factor(seed as nat, i as nat));
            }
            let random_amount = min_amount + share;
            result.push(random_amount);
            remaining_amount = remaining_amount - random_amount;
        }
        proof {
            assert(amounts_view(result@) =~= amounts_view(prev).push(result@.last() as nat));
        }
        remaining_splits = remaining_splits - 1;
        i = i + 1;
    }
    let ghost before = result@;
    result.push(remaining_amount);
    proof {
        assert(amounts_view(result@) =~= amounts_view(before).push(remaining_amount as nat));
        assert forall|j: int| 0 <= j < result@.len() implies amounts_view(result@)[j] == result@[j] by {}
    }
    result
}

/// `split_prefix` gives `i` orders, and they and the amount left add up to
/// the total. When the total covers `min` for every order, each order is
/// at least `min` and at least `min` is left for each later order.
proof fn lemma_split_prefix(total: nat, n: nat, seed: nat, min: nat, i: nat)
    requires
        2 <= n,
        i <= n - 1,
    ensures
        split_prefix(total, n, seed, min, i).0.len() == i,
        nat_sum(split_prefix(total, n, seed, min, i).0) + split_prefix(total, n, seed, min, i).1 == total,
        1 <= min && min * n <= total ==> {
            &&& split_prefix(total, n, seed, min, i).1 >= min * ((n - i) as nat)
            &&& forall|j: int| 0 <= j < i ==> #[trigger] split_prefix(total, n, seed, min, i).0[j] >= min
        },
    decreases i,
{
    if i > 0 {
        lemma_split_prefix(total, n, seed, min, (i - 1) as nat);
        let (prev, rem) = split_prefix(total, n, seed, min, (i - 1) as nat);
        let k = (i - 1) as nat;
        let later = monus(n, k + 1);
        assert(later == n - i);
        let max_cur = monus(rem, min * later);
        let (cur, rem2) = split_prefix(total, n, seed, min, i);
        assert(cur.drop_last() =~= prev);
        if max_cur > min {
            let f = split_factor(seed, k);
            assert(f * ((max_cur - min) as nat) / 100 <= (max_cur - min) as nat) by (nonlinear_arith)
                requires
                    f <= 100,
            ;
            assert(max_cur == rem - min * later);
        }
        if 1 <= min && min * n <= total {
            assert(min * ((n - k) as nat) == min * later + min) by (nonlinear_arith)
                requires
                    later == n - k - 1,
            ;
            if max_cur <= min {
                assert(rem >= min);
                assert(rem2 == rem - min);
            } else {
                assert(max_cur == rem - min * later);
            }
            assert forall|j: int| 0 <= j < i implies #[trigger] cur[j] >= min by {
                if j < i - 1 {
                    assert(cur[j] == prev[j]);
                }
            }
        }
    }
}

/// Splitting keeps the total: the orders always add up to the amount split,
/// and there are as many as asked for (one when there is nothing to split).
/// When the amount is at least the number of orders, each order is at least
/// a tenth of the average, and at least 1.
pub proof fn law_split_keeps_total(total: nat, n: nat, seed: nat)
    ensures
        nat_sum(split_amounts(total, n, seed)) == total,
        split_amounts(total, n, seed).len() == (if n <= 1 || total == 0 { 1 } else { n }),
        2 <= n <= total ==> forall|j: int|
            0 <= j < split_amounts(total, n, seed).len() ==> #[trigger] split_amounts(total, n, seed)[j] >= min_order(
                total,
                n,
            ),
{
    if n <= 1 || total == 0 {
        assert(seq![total].drop_last() =~= Seq::<nat>::empty());
        assert(nat_sum(Seq::<nat>::empty()) == 0);
    } else {
        let min = min_order(total, n);
        lemma_split_prefix(total, n, seed, min, (n - 1) as nat);
        let (orders, rem) = split_prefix(total, n, seed, min, (n - 1) as nat);
        let s = orders.push(rem);
        assert(s.drop_last() =~= orders);
        if n <= total {
            let avg = total / n;
            assert(avg * n <= total) by (nonlinear_arith)
                requires
                    avg == total / n,
                    n > 0,
            ;
            assert(min * n <= total) by (nonlinear_arith)
                requires
                    avg * n <= total,
                    min == (if avg * 10 / 100 < 1 { 1 } else { avg * 10 / 100 }),
                    n <= total,
            ;
            assert(min * ((n - (n - 1)) as nat) == min) by (nonlinear_arith);
            assert forall|j: int| 0 <= j < s.len() implies #[trigger] s[j] >= min by {
                if j < n - 1 {
                    assert(s[j] == orders[j]);
                }
            }
        }
    }
}

} // verus!
