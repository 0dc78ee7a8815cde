use api::flow::{
    prepare_settlement, report_outcome, validate, COLLECT_ERC20_MAX_VALUES,
    COLLECT_ETH_MAX_VALUES, DISPERSE_MAX_VALUES,
};
use api::types::{PrepareResult, SettlementOutcome, ValidationError, ValuesType};

#[test]
fn amount_values_settle_verbatim() {
    let values: Vec<u128> = vec![100, 200, 300];
    let r = prepare_settlement(&values, Some(600), ValuesType::Amount, COLLECT_ETH_MAX_VALUES);
    let amounts = match r {
        PrepareResult::Settle(amounts) => amounts,
        PrepareResult::Respond(status, message) => {
            panic!("expected settlement, got {} {}", status, message)
        }
    };
    assert_eq!(amounts, vec![100, 200, 300]);

    let recipients: Vec<api::types::Address> = api::services::generate_addresses(3)
        .unwrap()
        .iter()
        .map(|text| api::services::get_solidity_address(text).unwrap())
        .collect();
    let batch = api::batch::build_transfer_batch(&amounts, &recipients).unwrap();
    assert_eq!(batch.entries.len(), 3);
    assert_eq!(batch.aggregate_total, 600);

    let (status, message) = report_outcome(SettlementOutcome::Success("0xabc".to_string()));
    assert_eq!(status, 200);
    assert_eq!(message, "Transaction successful: 0xabc");
}

#[test]
fn invalid_percentage_sum_is_a_bad_request() {
    let values: Vec<u128> = vec![10, 20, 30];
    let r = prepare_settlement(
        &values,
        Some(1000),
        ValuesType::Percentage,
        COLLECT_ETH_MAX_VALUES,
    );
    match r {
        PrepareResult::Respond(status, message) => {
            assert_eq!(status, 400);
            assert_eq!(message, "Sum of percentages must be 100");
        }
        PrepareResult::Settle(_) => panic!("expected a refusal"),
    }
}

#[test]
fn six_values_on_the_five_value_route_are_too_many() {
    let values: Vec<u128> = vec![1, 2, 3, 4, 5, 6];
    let r = prepare_settlement(&values, None, ValuesType::Amount, COLLECT_ETH_MAX_VALUES);
    match r {
        PrepareResult::Respond(status, message) => {
            assert_eq!(status, 400);
            assert_eq!(message, "Too many values");
        }
        PrepareResult::Settle(_) => panic!("expected a refusal"),
    }
}

#[test]
fn empty_values_are_a_success_without_settlement() {
    let values: Vec<u128> = vec![];
    let r = prepare_settlement(&values, None, ValuesType::Amount, COLLECT_ETH_MAX_VALUES);
    match r {
        PrepareResult::Respond(status, message) => {
            assert_eq!(status, 200);
            assert_eq!(message, "No values provided");
        }
        PrepareResult::Settle(_) => panic!("an empty list must not settle"),
    }
}

#[test]
fn percentage_without_total_is_refused() {
    let values: Vec<u128> = vec![60, 40];
    let r = prepare_settlement(&values, None, ValuesType::Percentage, DISPERSE_MAX_VALUES);
    match r {
        PrepareResult::Respond(status, message) => {
            assert_eq!(status, 400);
            assert_eq!(message, "Total amount not provided");
        }
        PrepareResult::Settle(_) => panic!("expected a refusal"),
    }
}

#[test]
fn valid_percentages_settle_resolved_amounts() {
    let values: Vec<u128> = vec![60, 40];
    let r = prepare_settlement(
        &values,
        Some(250),
        ValuesType::Percentage,
        DISPERSE_MAX_VALUES,
    );
    match r {
        PrepareResult::Settle(amounts) => assert_eq!(amounts, vec![150, 100]),
        PrepareResult::Respond(status, message) => {
            panic!("expected settlement, got {} {}", status, message)
        }
    }
}

#[test]
fn erc20_collect_ceiling_is_two() {
    let values: Vec<u128> = vec![1, 2, 3];
    let r = prepare_settlement(&values, None, ValuesType::Amount, COLLECT_ERC20_MAX_VALUES);
    match r {
        PrepareResult::Respond(status, message) => {
            assert_eq!(status, 400);
            assert_eq!(message, "Too many values");
        }
        PrepareResult::Settle(_) => panic!("expected a refusal"),
    }
}

#[test]
fn validate_accepts_up_to_the_ceiling() {
    let values: Vec<u128> = vec![1, 2, 3, 4, 5];
    assert!(validate(&values, 5).is_ok());
    assert_eq!(validate(&values, 4).unwrap_err(), ValidationError::TooManyValues);
    let empty: Vec<u128> = vec![];
    assert!(validate(&empty, 0).is_ok());
}

#[test]
fn success_outcome_reports_the_identifier() {
    let (status, message) = report_outcome(SettlementOutcome::Success("0xf00d".to_string()));
    assert_eq!(status, 200);
    assert_eq!(message, "Transaction successful: 0xf00d");
}

#[test]
fn failure_outcome_reports_the_reason() {
    let (status, message) =
        report_outcome(SettlementOutcome::Failure("tx dropped from mempool".to_string()));
    assert_eq!(status, 400);
    assert_eq!(message, "Transaction failed: tx dropped from mempool");
}
