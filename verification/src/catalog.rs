//! The item catalog: a fixed table of weighted prize slots.
//!
//! The catalog never grows or shrinks in storage. Its first `count` slots are
//! the active ones; the slots behind them are unused and may hold what an
//! earlier use left there.

use vstd::prelude::*;
use crate::config::Address;
use crate::config::ENTROPY_RANGE;
use crate::config::REWARD_TOKEN_COUNT_PER_ITEM;
use crate::config::SPIN_ITEM_COUNT;
use crate::entropy::clock_sample;
use crate::error::SpinError;
use crate::wheel::resolve_slot;
use crate::wheel::lemma_resolved_slot_in_range;
use crate::wheel::resolved_slot;
use crate::wheel::SampleTransform;

verus! {

/// The reward mints that a slot pays out in: a table of
/// `REWARD_TOKEN_COUNT_PER_ITEM` addresses, of which the first `count` are
/// populated.
#[derive(Clone, Copy, Debug, PartialEq, Eq)]
pub struct ItemRewardMints {
    /// The table of mint addresses.
    pub item_mint_list: [Address; REWARD_TOKEN_COUNT_PER_ITEM],
    /// How many places of the table are populated.
    pub count: u8,
}

impl ItemRewardMints {
    /// Whether no more mints are counted than the table holds.
    pub open spec fn valid(self) -> bool {
        self.count <= REWARD_TOKEN_COUNT_PER_ITEM
    }

    /// Whether the table is the empty one: no mint populated, every byte of
    /// every address zero.
    pub open spec fn is_zeroed(self) -> bool {
        &&& self.count == 0
        &&& forall|i: int|
            0 <= i < REWARD_TOKEN_COUNT_PER_ITEM ==> #[trigger] self.item_mint_list@[i]@
                == Seq::new(32, |k: int| 0u8)
    }

    /// The populated mints, in order.
    pub open spec fn populated(self) -> Seq<Address> {
        self.item_mint_list@.take(self.count as int)
    }

    /// Appends a mint behind the populated ones. The table must have a free
    /// place for it.
    pub fn add_reward_item(&mut self, reward_mint: Address)
        requires
            old(self).count < REWARD_TOKEN_COUNT_PER_ITEM,
        ensures
            final(self).item_mint_list@ == old(self).item_mint_list@.update(
                old(self).count as int,
                reward_mint,
            ),
            final(self).count == old(self).count + 1,
            final(self).populated() == old(self).populated().push(reward_mint),
            final(self).valid(),
    {
        self.item_mint_list[self.count as usize] = reward_mint;
        self.count += 1;
    }
}

impl Default for ItemRewardMints {
    /// The empty table: no mint populated, every address zero.
    fn default() -> (mints: ItemRewardMints)
        ensures
            mints.is_zeroed(),
    {
        let zero: Address = [0u8; 32];
        assert(zero@ =~= Seq::new(32, |k: int| 0u8));
        ItemRewardMints { item_mint_list: [zero; REWARD_TOKEN_COUNT_PER_ITEM], count: 0 }
    }
}

/// One prize slot: what it pays out and how much of the wheel it takes.
#[derive(Clone, Copy, Debug, PartialEq, Eq)]
pub struct SpinItem {
    /// The mints that the slot pays out in.
    pub reward_mints: ItemRewardMints,
    /// The kind of asset that the slot pays out.
    pub token_type: u8,
    /// The weight of the slot on the wheel.
    pub ratio: u32,
    /// The quantity that the slot pays out.
    pub amount: u64,
}

impl SpinItem {
    /// Whether the slot is all zero, as every slot of a new catalog is.
    pub open spec fn is_zeroed(self) -> bool {
        &&& self.reward_mints.is_zeroed()
        &&& self.token_type == 0
        &&& self.ratio == 0
        &&& self.amount == 0
    }
}

/// The catalog as a mathematical value: its slots in order, the number of
/// active slots, and the slot that the last spin chose.
pub struct CatalogView {
    /// All the slots, active or not, in order.
    pub slots: Seq<SpinItem>,
    /// The number of active slots, which are the first ones.
    pub count: nat,
    /// The slot that the last spin chose; slot 0 before any spin.
    pub last_spinindex: nat,
}

impl CatalogView {
    /// What holds of every catalog: it has `SPIN_ITEM_COUNT` slots, no more
    /// of them are active than it has, and the last chosen slot is one of them.
    pub open spec fn valid(self) -> bool {
        &&& self.slots.len() == SPIN_ITEM_COUNT
        &&& self.count <= SPIN_ITEM_COUNT
        &&& self.last_spinindex < SPIN_ITEM_COUNT
    }

    /// Whether the catalog is a new one: every slot zero, none active, slot 0
    /// standing as the last chosen.
    pub open spec fn is_empty(self) -> bool {
        &&& self.slots.len() == SPIN_ITEM_COUNT
        &&& forall|i: int| 0 <= i < SPIN_ITEM_COUNT ==> (#[trigger] self.slots[i]).is_zeroed()
        &&& self.count == 0
        &&& self.last_spinindex == 0
    }

    /// Whether every slot is active, so that nothing can be appended.
    pub open spec fn is_full(self) -> bool {
        self.count >= SPIN_ITEM_COUNT
    }

    /// The catalog after an append of `item`: the item stands in the first
    /// unused slot and one more slot is active. A full catalog stays as it is.
    pub open spec fn appended(self, item: SpinItem) -> CatalogView {
        if self.is_full() {
            self
        } else {
            CatalogView {
                slots: self.slots.update(self.count as int, item),
                count: self.count + 1,
                last_spinindex: self.last_spinindex,
            }
        }
    }

    /// The catalog after `item` is written to slot `index`: the item stands
    /// there, and the active range grows to take the slot in where it lay
    /// outside. An index past the last slot leaves the catalog as it is.
    pub open spec fn with_slot(self, index: nat, item: SpinItem) -> CatalogView {
        if index >= SPIN_ITEM_COUNT {
            self
        } else {
            CatalogView {
                slots: self.slots.update(index as int, item),
                count: if index >= self.count {
                    index + 1
                } else {
                    self.count
                },
                last_spinindex: self.last_spinindex,
            }
        }
    }

    /// The catalog after a clear: no slot is active, and every slot still
    /// holds what it held.
    pub open spec fn cleared(self) -> CatalogView {
        CatalogView { slots: self.slots, count: 0, last_spinindex: self.last_spinindex }
    }

    /// The catalog after the items of `items` are appended one after another.
    pub open spec fn appended_all(self, items: Seq<SpinItem>) -> CatalogView
        decreases items.len(),
    {
        if items.len() == 0 {
            self
        } else {
            self.appended_all(items.drop_last()).appended(items.last())
        }
    }

    /// Whether no slot counts more reward mints than its table holds.
    pub open spec fn reward_counts_bounded(self) -> bool {
        forall|i: int| 0 <= i < self.slots.len() ==> (#[trigger] self.slots[i]).reward_mints.valid()
    }

    /// The weights of all the slots, in order, active or not.
    pub open spec fn weights(self) -> Seq<u32> {
        self.slots.map_values(|item: SpinItem| item.ratio)
    }

    /// The catalog after a spin that landed on `point`: the slot that the
    /// point resolves to is the last chosen one, and nothing else changes.
    pub open spec fn spun(self, point: nat) -> CatalogView {
        CatalogView {
            slots: self.slots,
            count: self.count,
            last_spinindex: resolved_slot(self.weights(), point) as nat,
        }
    }
}

/// The catalog that the six parts make up: slot `i` takes its attributes from
/// place `i` of each of the four tables.
pub open spec fn catalog_of(
    reward_mint_list: Seq<ItemRewardMints>,
    token_type_list: Seq<u8>,
    ratio_list: Seq<u32>,
    amount_list: Seq<u64>,
    last_spinindex: u8,
    count: u8,
) -> CatalogView {
    CatalogView {
        slots: Seq::new(
            SPIN_ITEM_COUNT as nat,
            |i: int|
                SpinItem {
                    reward_mints: reward_mint_list[i],
                    token_type: token_type_list[i],
                    ratio: ratio_list[i],
                    amount: amount_list[i],
                },
        ),
        count: count as nat,
        last_spinindex: last_spinindex as nat,
    }
}

/// The catalog of prize slots, held as one table per attribute.
#[derive(Clone, Copy, Debug, PartialEq, Eq)]
pub struct SpinItemList {
    reward_mint_list: [ItemRewardMints; SPIN_ITEM_COUNT],
    token_type_list: [u8; SPIN_ITEM_COUNT],
    ratio_list: [u32; SPIN_ITEM_COUNT],
    amount_list: [u64; SPIN_ITEM_COUNT],
    last_spinindex: u8,
    count: u8,
}

impl View for SpinItemList {
    type V = CatalogView;

    closed spec fn view(&self) -> CatalogView {
        catalog_of(
            self.reward_mint_list@,
            self.token_type_list@,
            self.ratio_list@,
            self.amount_list@,
            self.last_spinindex,
            self.count,
        )
    }
}

impl Default for SpinItemList {
    /// A new catalog: every slot zero, none active, slot 0 standing as the
    /// last chosen.
    fn default() -> (catalog: SpinItemList)
        ensures
            catalog@.is_empty(),
            catalog@.valid(),
    {
        let mints = ItemRewardMints::default();
        SpinItemList {
            reward_mint_list: [mints; SPIN_ITEM_COUNT],
            token_type_list: [0u8; SPIN_ITEM_COUNT],
            ratio_list: [0u32; SPIN_ITEM_COUNT],
            amount_list: [0u64; SPIN_ITEM_COUNT],
            last_spinindex: 0,
            count: 0,
        }
    }
}

impl SpinItemList {
    /// What the fields of every catalog satisfy; `CatalogView::valid` says
    /// the same of the view.
    #[verifier::type_invariant]
    spec fn inv(self) -> bool {
        &&& self.count <= SPIN_ITEM_COUNT
        &&& self.last_spinindex < SPIN_ITEM_COUNT
    }

    /// Appends a slot behind the active ones. A full catalog refuses the
    /// append with `CountOverflowAddItem` and stays as it is.
    pub fn add_spinitem(
        &mut self,
        item_mint_list: ItemRewardMints,
        token_type: u8,
        ratio: u32,
        amount: u64,
    ) -> (r: Result<(), SpinError>)
        ensures
            final(self)@ == old(self)@.appended(
                SpinItem { reward_mints: item_mint_list, token_type, ratio, amount },
            ),
            r == if old(self)@.is_full() {
                Err::<(), SpinError>(SpinError::CountOverflowAddItem)
            } else {
                Ok::<(), SpinError>(())
            },
            final(self)@.valid(),
    {
        proof {
            use_type_invariant(&*self);
        }
        if self.count as usize >= SPIN_ITEM_COUNT {
            return Err(SpinError::CountOverflowAddItem);
        }
        let slot: usize = self.count as usize;
        self.reward_mint_list[slot] = item_mint_list;
        self.token_type_list[slot] = token_type;
        self.ratio_list[slot] = ratio;
        self.amount_list[slot] = amount;
        self.count += 1;
        assert(self@.slots =~= old(self)@.slots.update(
            slot as int,
            SpinItem { reward_mints: item_mint_list, token_type, ratio, amount },
        ));
        Ok(())
    }

    /// Writes a slot at `index`, and takes it into the active range where it
    /// lay outside. An index at or past `SPIN_ITEM_COUNT` is refused with
    /// `IndexOverflowSetItem` and the catalog stays as it is.
    pub fn set_spinitem(
        &mut self,
        index: u8,
        item_mint_list: ItemRewardMints,
        token_type: u8,
        ratio: u32,
        amount: u64,
    ) -> (r: Result<(), SpinError>)
        ensures
            final(self)@ == old(self)@.with_slot(
                index as nat,
                SpinItem { reward_mints: item_mint_list, token_type, ratio, amount },
            ),
            r == if index >= SPIN_ITEM_COUNT {
                Err::<(), SpinError>(SpinError::IndexOverflowSetItem)
            } else {
                Ok::<(), SpinError>(())
            },
            old(self)@.count <= index < SPIN_ITEM_COUNT ==> final(self)@.count == index + 1,
            index < old(self)@.count ==> final(self)@.count == old(self)@.count,
            final(self)@.valid(),
    {
        proof {
            use_type_invariant(&*self);
        }
        if index as usize >= SPIN_ITEM_COUNT {
            return Err(SpinError::IndexOverflowSetItem);
        }
        let slot: usize = index as usize;
        self.reward_mint_list[slot] = item_mint_list;
        self.token_type_list[slot] = token_type;
        self.ratio_list[slot] = ratio;
        self.amount_list[slot] = amount;
        if self.count <= index {
            self.count = index + 1;
        }
        assert(self@.slots =~= old(self)@.slots.update(
            slot as int,
            SpinItem { reward_mints: item_mint_list, token_type, ratio, amount },
        ));
        Ok(())
    }

    /// Empties the active range. The slots keep what they hold.
    pub fn clear_spinitem(&mut self)
        ensures
            final(self)@ == old(self)@.cleared(),
            final(self)@.valid(),
    {
        proof {
            use_type_invariant(&*self);
        }
        self.count = 0;
    }

    /// Spins the wheel on a given entropy sample: maps the sample to a point,
    /// resolves the point against the weights of all the slots, and records
    /// the slot as the last chosen one, which is also returned.
    pub fn spin(&mut self, sample: u32, transform: SampleTransform) -> (index: u8)
        ensures
            final(self)@ == old(self)@.spun(transform.spec_apply(sample as nat)),
            index == final(self)@.last_spinindex,
            final(self)@.valid(),
    {
        proof {
            use_type_invariant(&*self);
        }
        let point: u128 = transform.apply(sample);
        assert(self.ratio_list@ =~= self@.weights());
        let slot: usize = resolve_slot(&self.ratio_list, point);
        self.last_spinindex = slot as u8;
        self.last_spinindex
    }

    /// Spins the wheel on a sample drawn from the host clock, mapped by
    /// `transform`. Whatever the clock says, the catalog afterwards is the one
    /// that a spin on some sample of the entropy range gives. Where the clock
    /// cannot be read, the catalog stays as it is and the failure is
    /// `EntropyUnavailable`.
    pub fn get_spinresult_with(&mut self, transform: SampleTransform) -> (r: Result<(), SpinError>)
        ensures
            r is Ok ==> exists|sample: nat|
                sample < ENTROPY_RANGE && final(self)@ == #[trigger] old(self)@.spun(
                    transform.spec_apply(sample),
                ),
            r matches Err(e) ==> e == SpinError::EntropyUnavailable && final(self)@ == old(self)@,
            final(self)@.valid(),
    {
        proof {
            use_type_invariant(&*self);
        }
        match clock_sample() {
            Ok(sample) => {
                self.spin(sample, transform);
                assert(self@ == old(self)@.spun(transform.spec_apply(sample as nat)));
                Ok(())
            },
            Err(e) => Err(e),
        }
    }

    /// Spins the wheel on a sample drawn from the host clock, mapped by the
    /// cubic transform, under which the weights are read on the scale of
    /// 1,000,000. Whatever the clock says, the catalog afterwards is the one
    /// that a cubic spin on some sample of the entropy range gives. Where the
    /// clock cannot be read, the catalog stays as it is and the failure is
    /// `EntropyUnavailable`.
    pub fn get_spinresult(&mut self) -> (r: Result<(), SpinError>)
        ensures
            r is Ok ==> exists|sample: nat|
                sample < ENTROPY_RANGE && final(self)@ == #[trigger] old(self)@.spun(
                    SampleTransform::Cubic.spec_apply(sample),
                ),
            r matches Err(e) ==> e == SpinError::EntropyUnavailable && final(self)@ == old(self)@,
            final(self)@.valid(),
    {
        self.get_spinresult_with(SampleTransform::Cubic)
    }

    /// The number of active slots.
    pub fn count(&self) -> (count: u8)
        ensures
            count == self@.count,
            count <= SPIN_ITEM_COUNT,
    {
        proof {
            use_type_invariant(self);
        }
        self.count
    }

    /// The slot that the last spin chose.
    pub fn last_spinindex(&self) -> (index: u8)
        ensures
            index == self@.last_spinindex,
            index < SPIN_ITEM_COUNT,
    {
        proof {
            use_type_invariant(self);
        }
        self.last_spinindex
    }

    /// The slot at `index`, or `None` where the catalog has no such slot.
    pub fn item(&self, index: u8) -> (item: Option<SpinItem>)
        ensures
            item == if index < SPIN_ITEM_COUNT {
                Some(self@.slots[index as int])
            } else {
                None
            },
    {
        if index as usize >= SPIN_ITEM_COUNT {
            return None;
        }
        let slot: usize = index as usize;
        Some(
            SpinItem {
                reward_mints: self.reward_mint_list[slot],
                token_type: self.token_type_list[slot],
                ratio: self.ratio_list[slot],
                amount: self.amount_list[slot],
            },
        )
    }

    /// Makes a catalog of the four tables, the last chosen slot and the
    /// active count, as they lie in storage. Parts that no catalog can hold,
    /// an active count past `SPIN_ITEM_COUNT` or a last chosen slot at or
    /// past it, give `None`.
    pub fn from_parts(
        reward_mint_list: [ItemRewardMints; SPIN_ITEM_COUNT],
        token_type_list: [u8; SPIN_ITEM_COUNT],
        ratio_list: [u32; SPIN_ITEM_COUNT],
        amount_list: [u64; SPIN_ITEM_COUNT],
        last_spinindex: u8,
        count: u8,
    ) -> (r: Option<SpinItemList>)
        ensures
            r is Some <==> count <= SPIN_ITEM_COUNT && last_spinindex < SPIN_ITEM_COUNT,
            r matches Some(catalog) ==> catalog@.valid() && catalog@ == catalog_of(
                reward_mint_list@,
                token_type_list@,
                ratio_list@,
                amount_list@,
                last_spinindex,
                count,
            ),
    {
        if count as usize > SPIN_ITEM_COUNT || last_spinindex as usize >= SPIN_ITEM_COUNT {
            return None;
        }
        Some(
            SpinItemList {
                reward_mint_list,
                token_type_list,
                ratio_list,
                amount_list,
                last_spinindex,
                count,
            },
        )
    }

    /// Takes the catalog apart into the four tables, the last chosen slot and
    /// the active count, as they lie in storage.
    pub fn into_parts(self) -> (parts: (
        [ItemRewardMints; SPIN_ITEM_COUNT],
        [u8; SPIN_ITEM_COUNT],
        [u32; SPIN_ITEM_COUNT],
        [u64; SPIN_ITEM_COUNT],
        u8,
        u8,
    ))
        ensures
            self@ == catalog_of(parts.0@, parts.1@, parts.2@, parts.3@, parts.4, parts.5),
            parts.4 < SPIN_ITEM_COUNT,
            parts.5 <= SPIN_ITEM_COUNT,
    {
        proof {
            use_type_invariant(&self);
        }
        (
            self.reward_mint_list,
            self.token_type_list,
            self.ratio_list,
            self.amount_list,
            self.last_spinindex,
            self.count,
        )
    }
}

/// Appends fill the catalog up to `SPIN_ITEM_COUNT` active slots and no
/// further: after any number of appends the active count is the count before
/// plus that number, or `SPIN_ITEM_COUNT` where that is less, and the next
/// append is refused exactly when the catalog has become full. The appends
/// that found room stand in the slots behind those that were active, in the
/// order they came, and the slots that were active keep what they held.
pub proof fn lemma_appends_fill_to_capacity(catalog: CatalogView, items: Seq<SpinItem>)
    requires
        catalog.valid(),
    ensures
        catalog.appended_all(items).valid(),
        catalog.appended_all(items).count == if catalog.count + items.len() <= SPIN_ITEM_COUNT {
            catalog.count + items.len()
        } else {
            SPIN_ITEM_COUNT as nat
        },
        catalog.appended_all(items).is_full() <==> catalog.count + items.len() >= SPIN_ITEM_COUNT,
        catalog.appended_all(items).last_spinindex == catalog.last_spinindex,
        forall|k: int|
            0 <= k < items.len() && catalog.count + k < SPIN_ITEM_COUNT
                ==> catalog.appended_all(items).slots[catalog.count + k] == #[trigger] items[k],
        forall|j: int|
            0 <= j < catalog.count ==> #[trigger] catalog.appended_all(items).slots[j]
                == catalog.slots[j],
    decreases items.len(),
{
    if items.len() > 0 {
        let earlier = items.drop_last();
        lemma_appends_fill_to_capacity(catalog, earlier);
        assert forall|k: int|
            0 <= k < items.len() && catalog.count + k < SPIN_ITEM_COUNT implies catalog.appended_all(
            items,
        ).slots[catalog.count + k] == #[trigger] items[k] by {
            if k < earlier.len() {
                assert(earlier[k] == items[k]);
            }
        }
    }
}

/// A clear followed by an append puts the item in slot 0 and leaves that one
/// slot active, whatever the slots held before; the other slots keep what
/// they held.
pub proof fn lemma_append_after_clear_reuses_first_slot(catalog: CatalogView, item: SpinItem)
    requires
        catalog.valid(),
    ensures
        !catalog.cleared().is_full(),
        catalog.cleared().appended(item).count == 1,
        catalog.cleared().appended(item).slots == catalog.slots.update(0, item),
        catalog.cleared().appended(item).slots[0] == item,
        catalog.cleared().appended(item).valid(),
{
}

/// Every operation keeps a catalog valid, and keeps the reward counts of its
/// slots within their tables where the slot that is written does so.
pub proof fn lemma_operations_keep_valid(
    catalog: CatalogView,
    item: SpinItem,
    index: nat,
    point: nat,
)
    requires
        catalog.valid(),
    ensures
        catalog.appended(item).valid(),
        catalog.with_slot(index, item).valid(),
        catalog.cleared().valid(),
        catalog.spun(point).valid(),
        catalog.reward_counts_bounded() && item.reward_mints.valid() ==> {
            &&& catalog.appended(item).reward_counts_bounded()
            &&& catalog.with_slot(index, item).reward_counts_bounded()
        },
        catalog.reward_counts_bounded() ==> {
            &&& catalog.cleared().reward_counts_bounded()
            &&& catalog.spun(point).reward_counts_bounded()
        },
{
    lemma_resolved_slot_in_range(catalog.weights(), point);
}

} // verus!
