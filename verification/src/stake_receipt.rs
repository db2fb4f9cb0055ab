use vstd::prelude::*;

use crate::error::StakingError;
use crate::farmer::Farmer;
use crate::pubkey::Pubkey;
use crate::whitelist::WhitelistProof;

verus! {

/// Hard structural capacity of a receipt's object list: storage for a receipt
/// is sized for exactly this many associated-object slots plus a length field.
pub const MAX_OBJECTS: usize = 3;

/// One attached auxiliary asset: its identifier and the reward-rate
/// contribution it grants, as recorded on its whitelist record (always
/// positive, enforced at whitelist-issuance time and consumed here as given).
#[derive(Clone, Copy, Debug, PartialEq, Eq, Structural)]
pub struct AssociatedObject {
    /// Identifier of the attached asset.
    pub key: Pubkey,
    /// The reward rate this object adds to the receipt it is attached to.
    pub rate: u64,
}

impl AssociatedObject {
    /// Persisted size of one object record: a 32-byte key and a 64-bit rate.
    pub const LEN: usize = 32 + 8;
}

/// The record of one active or finished stake: which staker, which asset,
/// timing, base amount, the current total reward rate, and the attached
/// associated objects.
///
/// A receipt is `Running` until `end_ts` is set, and add- or remove-object
/// operations are permitted only while it runs. Its `reward_rate` always
/// equals the base rate fixed at stake time plus the rates of the attached
/// objects, and every change to it is mirrored on the owning farmer's
/// aggregate after a flush of that farmer's pending accrual.
#[derive(Debug)]
pub struct StakeReceipt {
    /// The farmer (staker aggregate) this receipt belongs to.
    pub farmer: Pubkey,
    /// Identifier of the staked asset.
    pub mint: Pubkey,
    /// The cooldown/lock record gating withdrawal of the staked asset.
    pub lock: Pubkey,
    /// Creation time of the stake.
    pub start_ts: u64,
    /// Absent while the stake is active; the finalize time once ended.
    pub end_ts: Option<u64>,
    /// Quantity of the base asset staked; fixed at creation.
    pub amount: u64,
    /// Current total per-unit-time reward contribution of this receipt.
    pub reward_rate: u64,
    /// The attached associated objects, at most `MAX_OBJECTS` of them.
    pub objects: Vec<AssociatedObject>,
}

/// Total reward-rate contribution of a sequence of associated objects.
pub open spec fn rates_total(objs: Seq<AssociatedObject>) -> int
    decreases objs.len(),
{
    if objs.len() == 0 {
        0
    } else {
        rates_total(objs.drop_last()) + objs.last().rate
    }
}

/// `i` is the first index of `objs` whose object carries `key`.
pub open spec fn is_first_match(objs: Seq<AssociatedObject>, key: Pubkey, i: int) -> bool {
    &&& 0 <= i < objs.len()
    &&& objs[i].key == key
    &&& forall|j: int| 0 <= j < i ==> objs[j].key != key
}

/// Some object of `objs` carries `key`, stated via the first such index.
pub open spec fn has_object(objs: Seq<AssociatedObject>, key: Pubkey) -> bool {
    exists|i: int| is_first_match(objs, key, i)
}

/// The fields of a receipt that no object operation changes: everything but
/// the reward rate and the object list.
pub open spec fn same_identity(a: StakeReceipt, b: StakeReceipt) -> bool {
    &&& a.farmer == b.farmer
    &&& a.mint == b.mint
    &&& a.lock == b.lock
    &&& a.start_ts == b.start_ts
    &&& a.end_ts == b.end_ts
    &&& a.amount == b.amount
}

/// `a` and `b` are the same receipt state.
pub open spec fn same_receipt(a: StakeReceipt, b: StakeReceipt) -> bool {
    &&& same_identity(a, b)
    &&& a.reward_rate == b.reward_rate
    &&& a.objects@ == b.objects@
}

/// Appending an object raises the total by exactly its rate.
pub proof fn lemma_rates_total_push(objs: Seq<AssociatedObject>, o: AssociatedObject)
    ensures
        rates_total(objs.push(o)) == rates_total(objs) + o.rate,
{
    assert(objs.push(o).drop_last() =~= objs);
}

/// Replacing the object at `i` changes the total by the difference in rates.
pub proof fn lemma_rates_total_update(objs: Seq<AssociatedObject>, i: int, o: AssociatedObject)
    requires
        0 <= i < objs.len(),
    ensures
        rates_total(objs.update(i, o)) == rates_total(objs) - objs[i].rate + o.rate,
    decreases objs.len(),
{
    let u = objs.update(i, o);
    if i == objs.len() - 1 {
        assert(u.drop_last() =~= objs.drop_last());
    } else {
        assert(u.drop_last() =~= objs.drop_last().update(i, o));
        lemma_rates_total_update(objs.drop_last(), i, o);
    }
}

/// Removing the object at `i` by swapping in the last object and truncating
/// lowers the total by exactly the removed rate.
pub proof fn lemma_rates_total_swap_remove(objs: Seq<AssociatedObject>, i: int)
    requires
        0 <= i < objs.len(),
    ensures
        rates_total(objs.update(i, objs.last()).drop_last())
            == rates_total(objs) - objs[i].rate,
{
    if i == objs.len() - 1 {
        assert(objs.update(i, objs.last()) =~= objs);
    } else {
        lemma_rates_total_update(objs, i, objs.last());
    }
}

/// If any object of `objs` carries `key`, a first one does.
pub proof fn lemma_match_has_first(objs: Seq<AssociatedObject>, key: Pubkey, i: int)
    requires
        0 <= i < objs.len(),
        objs[i].key == key,
    ensures
        has_object(objs, key),
    decreases i,
{
    if forall|j: int| 0 <= j < i ==> objs[j].key != key {
        assert(is_first_match(objs, key, i));
    } else {
        let j = choose|j: int| 0 <= j < i && objs[j].key == key;
        lemma_match_has_first(objs, key, j);
    }
}

impl StakeReceipt {
    /// Persisted size of a receipt record: three 32-byte keys, the start
    /// timestamp, the optional end timestamp, the amount, the reward rate, a
    /// length field, and exactly `MAX_OBJECTS` object slots.
    pub const LEN: usize = 32 + 32 + 32 + 8 + 9 + 8 + 8 + 4
        + (AssociatedObject::LEN * MAX_OBJECTS);

    /// A receipt is running until its end timestamp is set.
    pub open spec fn running(self) -> bool {
        self.end_ts is None
    }

    /// All checked arithmetic of a successful add of rate `rate` fits: the
    /// farmer's flush is well-defined, and neither the receipt's nor the
    /// farmer's rate overflows.
    pub open spec fn add_fits(self, farmer: Farmer, rate: u64, now: u64) -> bool {
        &&& farmer.flush_ok(now)
        &&& self.reward_rate + rate <= u64::MAX
        &&& farmer.reward_rate + rate <= u64::MAX
    }

    /// All checked arithmetic of a successful removal of rate `rate` fits:
    /// the farmer's flush is well-defined, and neither the receipt's nor the
    /// farmer's rate underflows.
    pub open spec fn remove_fits(self, farmer: Farmer, rate: u64, now: u64) -> bool {
        &&& farmer.flush_ok(now)
        &&& rate <= self.reward_rate
        &&& rate <= farmer.reward_rate
    }

    /// Whether the stake is still active: objects may be attached or removed
    /// only while this holds.
    pub fn is_running(&self) -> (r: bool)
        ensures
            r == self.running(),
    {
        self.end_ts.is_none()
    }

    /// Attach `object` to a running receipt: flush the farmer's pending
    /// accrual, append the object, and raise both the receipt's and the
    /// farmer's reward rate by the object's rate.
    ///
    /// The preconditions are checked in order — the receipt must be running
    /// (else `GemNotStaked`), below capacity (else `MaxObjectsExceeded`), and
    /// all checked arithmetic must fit (else `ArithmeticError`) — and on any
    /// failure neither the receipt nor the farmer is changed.
    pub fn try_add_object(
        &mut self,
        farmer: &mut Farmer,
        object: AssociatedObject,
        now: u64,
    ) -> (r: Result<(), StakingError>)
        ensures
            r is Ok <==> old(self).running() && old(self).objects@.len() < MAX_OBJECTS
                && old(self).add_fits(*old(farmer), object.rate, now),
            r is Ok ==> final(self).objects@ == old(self).objects@.push(object),
            r is Ok ==> final(self).reward_rate == old(self).reward_rate + object.rate,
            r is Ok ==> *final(farmer)
                == old(farmer).flushed(now).with_rate_increased(object.rate),
            // the base rate fixed at stake time is preserved
            r is Ok ==> final(self).reward_rate - rates_total(final(self).objects@)
                == old(self).reward_rate - rates_total(old(self).objects@),
            r == Err::<(), StakingError>(StakingError::GemNotStaked)
                <==> !old(self).running(),
            r == Err::<(), StakingError>(StakingError::MaxObjectsExceeded)
                <==> old(self).running() && old(self).objects@.len() >= MAX_OBJECTS,
            r == Err::<(), StakingError>(StakingError::ArithmeticError)
                <==> old(self).running() && old(self).objects@.len() < MAX_OBJECTS
                    && !old(self).add_fits(*old(farmer), object.rate, now),
            r is Err ==> same_receipt(*old(self), *final(self))
                && *final(farmer) == *old(farmer),
            same_identity(*old(self), *final(self)),
            // capacity is preserved in every case
            old(self).objects@.len() <= MAX_OBJECTS
                ==> final(self).objects@.len() <= MAX_OBJECTS,
            // accrued rewards never decrease
            final(farmer).accrued_rewards >= old(farmer).accrued_rewards,
    {
        if !self.is_running() {
            return Err(StakingError::GemNotStaked);
        }
        if self.objects.len() >= MAX_OBJECTS {
            return Err(StakingError::MaxObjectsExceeded);
        }
        let new_receipt_rate = match self.reward_rate.checked_add(object.rate) {
            Some(v) => v,
            None => return Err(StakingError::ArithmeticError),
        };
        if farmer.reward_rate.checked_add(object.rate).is_none() {
            return Err(StakingError::ArithmeticError);
        }
        match farmer.update_accrued_rewards(now) {
            Ok(()) => {},
            Err(e) => return Err(e),
        }
        let ghost old_objects = self.objects@;
        self.objects.push(object);
        self.reward_rate = new_receipt_rate;
        proof {
            lemma_rates_total_push(old_objects, object);
        }
        match farmer.increase_reward_rate(object.rate) {
            Ok(()) => Ok(()),
            Err(e) => Err(e),
        }
    }

    /// Detach the first object carrying `obj_key` from the receipt: flush the
    /// farmer's pending accrual at the rate still in force, remove the object
    /// by swapping in the last one and truncating, and lower both the
    /// receipt's and the farmer's reward rate by the removed object's rate.
    ///
    /// The receipt must still be running (else `GemNotStaked`); it fails with
    /// `ObjectNotFound` when no attached object carries `obj_key`, and with
    /// `ArithmeticError` when the flush is ill-defined or either rate would
    /// underflow (unreachable while the rate invariants hold, but checked
    /// defensively). On any failure, all state is left unchanged.
    pub fn try_remove_object(
        &mut self,
        farmer: &mut Farmer,
        obj_key: Pubkey,
        now: u64,
    ) -> (r: Result<(), StakingError>)
        ensures
            r is Ok <==> old(self).running() && exists|i: int|
                is_first_match(old(self).objects@, obj_key, i)
                && old(self).remove_fits(*old(farmer), old(self).objects@[i].rate, now),
            r is Ok ==> forall|i: int|
                is_first_match(old(self).objects@, obj_key, i) ==> {
                    &&& final(self).objects@ == old(self).objects@
                        .update(i, old(self).objects@.last()).drop_last()
                    &&& final(self).reward_rate
                        == old(self).reward_rate - old(self).objects@[i].rate
                    &&& *final(farmer) == old(farmer).flushed(now)
                        .with_rate_decreased(old(self).objects@[i].rate)
                },
            // the base rate fixed at stake time is preserved
            r is Ok ==> final(self).reward_rate - rates_total(final(self).objects@)
                == old(self).reward_rate - rates_total(old(self).objects@),
            r == Err::<(), StakingError>(StakingError::GemNotStaked)
                <==> !old(self).running(),
            r == Err::<(), StakingError>(StakingError::ObjectNotFound)
                <==> old(self).running() && !has_object(old(self).objects@, obj_key),
            r == Err::<(), StakingError>(StakingError::ArithmeticError)
                <==> old(self).running() && exists|i: int|
                    is_first_match(old(self).objects@, obj_key, i)
                    && !old(self).remove_fits(*old(farmer), old(self).objects@[i].rate, now),
            r is Err ==> same_receipt(*old(self), *final(self))
                && *final(farmer) == *old(farmer),
            same_identity(*old(self), *final(self)),
            final(self).objects@.len() <= old(self).objects@.len(),
            // accrued rewards never decrease
            final(farmer).accrued_rewards >= old(farmer).accrued_rewards,
    {
        if !self.is_running() {
            return Err(StakingError::GemNotStaked);
        }
        let idx = match find_first_index(&self.objects, obj_key) {
            Some(i) => i,
            None => return Err(StakingError::ObjectNotFound),
        };
        proof {
            assert forall|i: int| is_first_match(self.objects@, obj_key, i)
                implies i == idx as int by {
                if i < idx as int {
                    assert(self.objects@[i].key == obj_key);
                } else if i > idx as int {
                    assert(self.objects@[idx as int].key == obj_key);
                }
            }
        }
        let rate = self.objects[idx].rate;
        let new_receipt_rate = match self.reward_rate.checked_sub(rate) {
            Some(v) => v,
            None => return Err(StakingError::ArithmeticError),
        };
        if farmer.reward_rate.checked_sub(rate).is_none() {
            return Err(StakingError::ArithmeticError);
        }
        match farmer.update_accrued_rewards(now) {
            Ok(()) => {},
            Err(e) => return Err(e),
        }
        let ghost old_objects = self.objects@;
        let _removed = self.objects.swap_remove(idx);
        self.reward_rate = new_receipt_rate;
        proof {
            lemma_rates_total_swap_remove(old_objects, idx as int);
        }
        match farmer.decrease_reward_rate(rate) {
            Ok(()) => Ok(()),
            Err(e) => Err(e),
        }
    }

    /// Attach an asset as an associated object once its authorization checks
    /// out: the receipt must be running and below capacity, and `wl` must
    /// whitelist the asset's `object_creator` for objects within `farm`. The
    /// object is then attached with the rate the whitelist record grants, as
    /// [`StakeReceipt::try_add_object`] does.
    ///
    /// `object_creator` is the creator identity of the asset `object_key`,
    /// read from its descriptive metadata by the host.
    pub fn try_add_authorized_object(
        &mut self,
        farmer: &mut Farmer,
        wl: &WhitelistProof,
        farm: Pubkey,
        object_key: Pubkey,
        object_creator: Pubkey,
        now: u64,
    ) -> (r: Result<(), StakingError>)
        ensures
            r is Ok <==> old(self).running() && old(self).objects@.len() < MAX_OBJECTS
                && wl.authorizes_object(farm, object_creator)
                && old(self).add_fits(*old(farmer), wl.reward_rate, now),
            r is Ok ==> final(self).objects@ == old(self).objects@
                .push(AssociatedObject { key: object_key, rate: wl.reward_rate }),
            r is Ok ==> final(self).reward_rate == old(self).reward_rate + wl.reward_rate,
            r is Ok ==> *final(farmer)
                == old(farmer).flushed(now).with_rate_increased(wl.reward_rate),
            r == Err::<(), StakingError>(StakingError::GemNotStaked)
                <==> !old(self).running(),
            r == Err::<(), StakingError>(StakingError::MaxObjectsExceeded)
                <==> old(self).running() && old(self).objects@.len() >= MAX_OBJECTS,
            r == Err::<(), StakingError>(StakingError::AddressNotWhitelisted)
                <==> old(self).running() && old(self).objects@.len() < MAX_OBJECTS
                    && (wl.farm != farm || wl.whitelisted_address != object_creator),
            r == Err::<(), StakingError>(StakingError::InvalidWhitelistType)
                <==> old(self).running() && old(self).objects@.len() < MAX_OBJECTS
                    && wl.farm == farm && wl.whitelisted_address == object_creator
                    && wl.ty != crate::whitelist::WhitelistType::AssociatedObject,
            r == Err::<(), StakingError>(StakingError::ArithmeticError)
                <==> old(self).running() && old(self).objects@.len() < MAX_OBJECTS
                    && wl.authorizes_object(farm, object_creator)
                    && !old(self).add_fits(*old(farmer), wl.reward_rate, now),
            r is Err ==> same_receipt(*old(self), *final(self))
                && *final(farmer) == *old(farmer),
            same_identity(*old(self), *final(self)),
            old(self).objects@.len() <= MAX_OBJECTS
                ==> final(self).objects@.len() <= MAX_OBJECTS,
            final(farmer).accrued_rewards >= old(farmer).accrued_rewards,
    {
        if !self.is_running() {
            return Err(StakingError::GemNotStaked);
        }
        if self.objects.len() >= MAX_OBJECTS {
            return Err(StakingError::MaxObjectsExceeded);
        }
        let rate = match wl.validate_for_object(farm, object_creator) {
            Ok(rate) => rate,
            Err(e) => return Err(e),
        };
        self.try_add_object(farmer, AssociatedObject { key: object_key, rate }, now)
    }

    /// End a running receipt: flush the farmer's pending accrual, withdraw
    /// the receipt's whole rate from the farmer's aggregate, and set the end
    /// timestamp. The receipt then stops counting toward the farmer and no
    /// object operation is permitted on it any more.
    ///
    /// All objects must have been removed first (else `GemStillHasObjects`),
    /// which guarantees the rate withdrawn here is exactly the base rate
    /// fixed at stake time.
    pub fn try_finalize(&mut self, farmer: &mut Farmer, now: u64) -> (r: Result<
        (),
        StakingError,
    >)
        ensures
            r is Ok <==> old(self).running() && old(self).objects@.len() == 0
                && old(farmer).flush_ok(now)
                && old(self).reward_rate <= old(farmer).reward_rate,
            r is Ok ==> final(self).end_ts == Some(now) && !final(self).running(),
            r is Ok ==> *final(farmer) == old(farmer).flushed(now)
                .with_rate_decreased(old(self).reward_rate),
            r == Err::<(), StakingError>(StakingError::GemNotStaked)
                <==> !old(self).running(),
            r == Err::<(), StakingError>(StakingError::GemStillHasObjects)
                <==> old(self).running() && old(self).objects@.len() != 0,
            r == Err::<(), StakingError>(StakingError::ArithmeticError)
                <==> old(self).running() && old(self).objects@.len() == 0
                    && !(old(farmer).flush_ok(now)
                        && old(self).reward_rate <= old(farmer).reward_rate),
            r is Err ==> same_receipt(*old(self), *final(self))
                && *final(farmer) == *old(farmer),
            // everything but the end timestamp is archival
            final(self).farmer == old(self).farmer,
            final(self).mint == old(self).mint,
            final(self).lock == old(self).lock,
            final(self).start_ts == old(self).start_ts,
            final(self).amount == old(self).amount,
            final(self).reward_rate == old(self).reward_rate,
            final(self).objects@ == old(self).objects@,
            // accrued rewards never decrease
            final(farmer).accrued_rewards >= old(farmer).accrued_rewards,
    {
        if !self.is_running() {
            return Err(StakingError::GemNotStaked);
        }
        if self.objects.len() != 0 {
            return Err(StakingError::GemStillHasObjects);
        }
        if farmer.reward_rate.checked_sub(self.reward_rate).is_none() {
            return Err(StakingError::ArithmeticError);
        }
        match farmer.update_accrued_rewards(now) {
            Ok(()) => {},
            Err(e) => return Err(e),
        }
        self.end_ts = Some(now);
        match farmer.decrease_reward_rate(self.reward_rate) {
            Ok(()) => Ok(()),
            Err(e) => Err(e),
        }
    }
}

/// The index of the first attached object carrying `key`, if any.
fn find_first_index(objects: &Vec<AssociatedObject>, key: Pubkey) -> (r: Option<usize>)
    ensures
        match r {
            Some(i) => is_first_match(objects@, key, i as int),
            None => !has_object(objects@, key)
                && forall|j: int| 0 <= j < objects@.len() ==> objects@[j].key != key,
        },
{
    let n = objects.len();
    let mut i: usize = 0;
    while i < n
        invariant
            i <= n,
            n == objects@.len(),
            forall|j: int| 0 <= j < i ==> objects@[j].key != key,
        decreases n - i,
    {
        if objects[i].key == key {
            return Some(i);
        }
        i += 1;
    }
    None
}

} // verus!
