//! The per-request decision flow shared by every route, and the mapping of
//! outcomes to a uniform status/message response.

use crate::services::calculate_amounts_from_percentages;
use crate::sums::{spec_share, spec_sum};
use crate::types::{PrepareResult, SettlementOutcome, ValidationError, ValuesType};
use vstd::prelude::*;
use vstd::string::*;

verus! {

/// Ceiling on the value count of the native-asset collect route.
pub const COLLECT_ETH_MAX_VALUES: usize = 5;

/// Ceiling on the value count of the token collect route.
pub const COLLECT_ERC20_MAX_VALUES: usize = 2;

/// Ceiling on the value count shared by both disperse routes.
pub const DISPERSE_MAX_VALUES: usize = 100;

/// Status of a response that carries its result.
pub const STATUS_OK: u16 = 200;

/// Status of a response that refuses the request.
pub const STATUS_BAD_REQUEST: u16 = 400;

/// Checks a value list against the route's ceiling. Exactly the lists within
/// the ceiling pass.
pub fn validate(values: &Vec<u128>, max_count: usize) -> (r: Result<(), ValidationError>)
    ensures
        r is Ok <==> values@.len() <= max_count,
        r matches Err(e) ==> e == ValidationError::TooManyValues,
{
    if values.len() > max_count {
        Err(ValidationError::TooManyValues)
    } else {
        Ok(())
    }
}

/// Decides a request up to the point of settlement: refuses an oversized
/// list, answers an empty list with a success and no settlement, and resolves
/// the values by their kind into the concrete amounts to settle.
pub fn prepare_settlement(
    values: &Vec<u128>,
    total_amount: Option<u128>,
    values_type: ValuesType,
    max_count: usize,
) -> (r: PrepareResult)
    ensures
        values@.len() > max_count ==> (r matches PrepareResult::Respond(s, m) && s == 400 && m@
            == "Too many values"@),
        values@.len() == 0 && values@.len() <= max_count ==> (r matches PrepareResult::Respond(
            s,
            m,
        ) && s == 200 && m@ == "No values provided"@),
        0 < values@.len() <= max_count && values_type == ValuesType::Amount ==> (r
            matches PrepareResult::Settle(a) && a@ == values@),
        0 < values@.len() <= max_count && values_type == ValuesType::Percentage && total_amount
            is None ==> (r matches PrepareResult::Respond(s, m) && s == 400 && m@
            == "Total amount not provided"@),
        0 < values@.len() <= max_count && values_type == ValuesType::Percentage ==> (total_amount
            matches Some(t) ==> ((spec_sum(values@) != 100 ==> (r
            matches PrepareResult::Respond(s, m) && s == 400 && m@
            == "Sum of percentages must be 100"@)) && (spec_sum(values@) == 100 ==> (r
            matches PrepareResult::Settle(a) && a@.len() == values@.len() && forall|i: int|
            0 <= i < a@.len() ==> #[trigger] a@[i] as int == spec_share(t, values@[i]))))),
{
    if validate(values, max_count).is_err() {
        return PrepareResult::Respond(STATUS_BAD_REQUEST, "Too many values".to_owned());
    }
    if values.len() == 0 {
        return PrepareResult::Respond(STATUS_OK, "No values provided".to_owned());
    }
    match values_type {
        ValuesType::Amount => PrepareResult::Settle(values.clone()),
        ValuesType::Percentage => {
            match total_amount {
                None => PrepareResult::Respond(
                    STATUS_BAD_REQUEST,
                    "Total amount not provided".to_owned(),
                ),
                Some(total) => {
                    let (status, result) = calculate_amounts_from_percentages(values, total);
                    match result {
                        Ok(amounts) => PrepareResult::Settle(amounts),
                        Err(message) => PrepareResult::Respond(status, message),
                    }
                },
            }
        },
    }
}

/// Maps what the settlement executor reported to the uniform response:
/// success carries the transaction identifier verbatim, failure carries the
/// raw reason verbatim.
pub fn report_outcome(outcome: SettlementOutcome) -> (r: (u16, String))
    ensures
        outcome matches SettlementOutcome::Success(id) ==> r.0 == 200 && r.1@
            == "Transaction successful: "@ + id@,
        outcome matches SettlementOutcome::Failure(reason) ==> r.0 == 400 && r.1@
            == "Transaction failed: "@ + reason@,
{
    match outcome {
        SettlementOutcome::Success(id) => {
            let message = String::from_str("Transaction successful: ");
            (STATUS_OK, message.concat(id.as_str()))
        },
        SettlementOutcome::Failure(reason) => {
            let message = String::from_str("Transaction failed: ");
            (STATUS_BAD_REQUEST, message.concat(reason.as_str()))
        },
    }
}

} // verus!
