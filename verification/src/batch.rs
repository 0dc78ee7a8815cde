//! Pairing resolved amounts with recipients into an ordered transfer batch.

use crate::services::saturating_sum;
use crate::sums::spec_sat_sum;
use crate::types::{Address, BatchError, TransferBatch, TransferEntry};
use vstd::prelude::*;

verus! {

/// The amounts a batch carries, in entry order.
pub open spec fn spec_batch_amounts(entries: Seq<TransferEntry>) -> Seq<u128> {
    entries.map_values(|e: TransferEntry| e.amount)
}

impl TransferBatch {
    /// The aggregate total is the saturating sum of the entry amounts, and
    /// every recipient is a full address.
    pub open spec fn wf(self) -> bool {
        &&& self.aggregate_total as int == spec_sat_sum(spec_batch_amounts(self.entries@))
        &&& forall|i: int| 0 <= i < self.entries@.len() ==> (#[trigger] self.entries@[i]).recipient.wf()
    }
}

/// Builds the ordered transfer batch: entry `i` pairs `recipients[i]` with
/// `amounts[i]`, zero amounts included, and the aggregate total is the
/// saturating sum of the amounts. Exactly the index-aligned inputs build.
pub fn build_transfer_batch(amounts: &Vec<u128>, recipients: &Vec<Address>) -> (r: Result<
    TransferBatch,
    BatchError,
>)
    requires
        forall|i: int| 0 <= i < recipients@.len() ==> (#[trigger] recipients@[i]).wf(),
    ensures
        r is Ok <==> amounts@.len() == recipients@.len(),
        r matches Err(e) ==> e == BatchError::LengthMismatch,
        r matches Ok(b) ==> b.entries@.len() == amounts@.len() && (forall|i: int|
            0 <= i < amounts@.len() ==> (#[trigger] b.entries@[i]).amount == amounts@[i]
                && b.entries@[i].recipient@ == recipients@[i]@) && b.aggregate_total as int
            == spec_sat_sum(amounts@) && b.wf(),
{
    if amounts.len() != recipients.len() {
        return Err(BatchError::LengthMismatch);
    }
    let mut entries: Vec<TransferEntry> = Vec::new();
    let mut i: usize = 0;
    while i < amounts.len()
        invariant
            i <= amounts@.len(),
            amounts@.len() == recipients@.len(),
            forall|j: int| 0 <= j < recipients@.len() ==> (#[trigger] recipients@[j]).wf(),
            entries@.len() == i,
            forall|j: int|
                0 <= j < i ==> (#[trigger] entries@[j]).amount == amounts@[j]
                    && entries@[j].recipient@ == recipients@[j]@,
        decreases amounts@.len() - i,
    {
        let recipient = recipients[i].clone();
        entries.push(TransferEntry { recipient, amount: amounts[i] });
        i = i + 1;
    }
    let aggregate_total = saturating_sum(amounts);
    proof {
        assert(spec_batch_amounts(entries@) =~= amounts@);
    }
    Ok(TransferBatch { entries, aggregate_total })
}

} // verus!
