//! Request shapes, batch structures and error taxonomy.

use vstd::prelude::*;

verus! {

/// Tells how the `values` of a request are to be read: as final amounts, or
/// as percentage shares of a separately supplied total.
#[derive(Clone, Copy, PartialEq, Eq, Structural, Debug)]
pub enum ValuesType {
    Amount,
    Percentage,
}

/// A request to collect funds from several senders into one receiver.
pub struct CollectRequest {
    pub values: Vec<u128>,
    pub total_amount: Option<u128>,
    pub values_type: ValuesType,
}

/// A request to disperse funds from one sender to several receivers.
pub struct DisperseRequest {
    pub values: Vec<u128>,
    pub total_amount: Option<u128>,
    pub values_type: ValuesType,
}

/// A 20-byte ledger address.
#[derive(Debug)]
pub struct Address {
    pub bytes: Vec<u8>,
}

impl View for Address {
    type V = Seq<u8>;

    open spec fn view(&self) -> Seq<u8> {
        self.bytes@
    }
}

impl Address {
    /// An address is exactly 20 bytes.
    pub open spec fn wf(self) -> bool {
        self@.len() == 20
    }
}

impl Clone for Address {
    fn clone(&self) -> (r: Self)
        ensures
            r@ == self@,
    {
        let mut bytes: Vec<u8> = Vec::new();
        let mut i: usize = 0;
        while i < self.bytes.len()
            invariant
                i <= self.bytes@.len(),
                bytes@ == self.bytes@.subrange(0, i as int),
            decreases self.bytes@.len() - i,
        {
            bytes.push(self.bytes[i]);
            i += 1;
        }
        proof {
            assert(bytes@ =~= self.bytes@);
        }
        Address { bytes }
    }
}

/// One pairing of a recipient with the amount it receives (or sends).
#[derive(Debug)]
pub struct TransferEntry {
    pub recipient: Address,
    pub amount: u128,
}

/// The ordered transfer batch handed to the settlement executor, together
/// with the saturating sum of its amounts.
#[derive(Debug)]
pub struct TransferBatch {
    pub entries: Vec<TransferEntry>,
    pub aggregate_total: u128,
}

/// What the settlement executor reported back: a transaction identifier on
/// success, or the raw failure description.
pub enum SettlementOutcome {
    Success(String),
    Failure(String),
}

/// What the decision flow concluded for a request: answer at once with a
/// status and message, or settle the resolved amounts.
pub enum PrepareResult {
    Respond(u16, String),
    Settle(Vec<u128>),
}

/// Structural validation failure of a request's `values` list.
#[derive(Clone, Copy, PartialEq, Eq, Structural, Debug)]
pub enum ValidationError {
    TooManyValues,
}

/// Failure while pairing amounts with recipients.
#[derive(Clone, Copy, PartialEq, Eq, Structural, Debug)]
pub enum BatchError {
    LengthMismatch,
}

/// Failure while turning a textual address into its 20 bytes.
#[derive(Clone, Copy, PartialEq, Eq, Structural, Debug)]
pub enum AddressError {
    InvalidHex,
    WrongLength,
}

/// Failure while producing recipient addresses.
#[derive(Clone, Copy, PartialEq, Eq, Structural, Debug)]
pub enum RecipientError {
    GenerationFailed,
}

/// Failure while assembling the application configuration.
#[derive(Clone, Copy, PartialEq, Eq, Structural, Debug)]
pub enum ConfigError {
    MissingRpcUrl,
    MissingPort,
    InvalidPort,
}

} // verus!
