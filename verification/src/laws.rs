use vstd::prelude::*;

use crate::farmer::Farmer;
use crate::farmer::lemma_flush_idempotent;
use crate::stake_receipt::AssociatedObject;
use crate::stake_receipt::has_object;
use crate::stake_receipt::is_first_match;
use crate::stake_receipt::lemma_match_has_first;

verus! {

/// Sum of the reward rates of a staker's running receipts.
pub open spec fn running_rates_total(rates: Seq<u64>) -> int
    decreases rates.len(),
{
    if rates.len() == 0 {
        0
    } else {
        running_rates_total(rates.drop_last()) + rates.last()
    }
}

/// A farmer's aggregate stays exact under an object operation: when the rate
/// of one running receipt changes — as an add or remove of an object changes
/// it — and the farmer's rate moves by the same difference, the farmer's rate
/// again equals the sum over the running receipts.
pub proof fn lemma_aggregate_rate_update(rates: Seq<u64>, i: int, new_rate: u64)
    requires
        0 <= i < rates.len(),
    ensures
        running_rates_total(rates.update(i, new_rate))
            == running_rates_total(rates) - rates[i] + new_rate,
    decreases rates.len(),
{
    let u = rates.update(i, new_rate);
    if i == rates.len() - 1 {
        assert(u.drop_last() =~= rates.drop_last());
    } else {
        assert(u.drop_last() =~= rates.drop_last().update(i, new_rate));
        lemma_aggregate_rate_update(rates.drop_last(), i, new_rate);
    }
}

/// A farmer's aggregate stays exact when a receipt stops running: when one
/// receipt leaves the running set — as finalizing it does — and the farmer's
/// rate drops by that receipt's rate, the farmer's rate again equals the sum
/// over the remaining running receipts.
pub proof fn lemma_aggregate_rate_remove(rates: Seq<u64>, i: int)
    requires
        0 <= i < rates.len(),
    ensures
        running_rates_total(rates.remove(i)) == running_rates_total(rates) - rates[i],
    decreases rates.len(),
{
    if i == rates.len() - 1 {
        assert(rates.remove(i) =~= rates.drop_last());
    } else {
        assert(rates.remove(i).drop_last() =~= rates.drop_last().remove(i));
        assert(rates.remove(i).last() == rates.last());
        lemma_aggregate_rate_remove(rates.drop_last(), i);
    }
}

/// Round trip: attaching an object with a fresh key and then immediately
/// removing that key restores the pre-add state. In the terms of the
/// contracts of `try_add_object` and `try_remove_object`: the add appends the
/// object and raises the rates by its rate; the removal then finds it as the
/// one match, its swap-removal hands back exactly the original object list,
/// and the rates return to their pre-add values. The second flush, at the
/// same instant, leaves the accrued total of the first untouched.
pub proof fn lemma_add_remove_round_trip(
    objs: Seq<AssociatedObject>,
    obj: AssociatedObject,
    receipt_rate: u64,
    farmer: Farmer,
    now: u64,
)
    requires
        !has_object(objs, obj.key),
        receipt_rate + obj.rate <= u64::MAX,
        farmer.reward_rate + obj.rate <= u64::MAX,
        farmer.flush_ok(now),
    ensures
        ({
            let mid_objs = objs.push(obj);
            let mid_farmer = farmer.flushed(now).with_rate_increased(obj.rate);
            &&& has_object(mid_objs, obj.key)
            &&& forall|i: int| is_first_match(mid_objs, obj.key, i) ==> {
                &&& mid_objs[i].rate == obj.rate
                &&& mid_objs.update(i, mid_objs.last()).drop_last() == objs
            }
            &&& mid_farmer.flush_ok(now)
            &&& mid_farmer.flushed(now).with_rate_decreased(obj.rate).reward_rate
                == farmer.reward_rate
            &&& mid_farmer.flushed(now).with_rate_decreased(obj.rate).accrued_rewards
                == farmer.flushed(now).accrued_rewards
            &&& ((receipt_rate + obj.rate) as u64) - obj.rate == receipt_rate
        }),
{
    let mid_objs = objs.push(obj);
    let mid_farmer = farmer.flushed(now).with_rate_increased(obj.rate);
    let n = objs.len() as int;
    assert forall|j: int| 0 <= j < n implies mid_objs[j].key != obj.key by {
        if mid_objs[j].key == obj.key {
            lemma_match_has_first(objs, obj.key, j);
        }
    }
    assert(is_first_match(mid_objs, obj.key, n));
    assert forall|i: int| is_first_match(mid_objs, obj.key, i) implies {
        &&& mid_objs[i].rate == obj.rate
        &&& mid_objs.update(i, mid_objs.last()).drop_last() == objs
    } by {
        assert(i == n);
        assert(mid_objs.update(i, mid_objs.last()) =~= mid_objs);
        assert(mid_objs.update(i, mid_objs.last()).drop_last() =~= objs);
    }
    lemma_flush_idempotent(farmer, now);
    assert((now - mid_farmer.last_update_ts) * mid_farmer.reward_rate == 0)
        by (nonlinear_arith)
        requires mid_farmer.last_update_ts == now;
}

} // verus!
