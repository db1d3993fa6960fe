//! Requests and responses about strategy types.
use vstd::prelude::*;

use crate::dto::strategy_types::StrategyType;

verus! {

/// Get a strategy type by id or by code.
#[derive(Debug)]
pub struct GetStrategyTypeParams {
    pub id: Option<i32>,
    pub code: Option<String>,
}

/// List strategy types.
#[derive(Debug)]
pub struct QueryStrategyTypesParams {
    pub category: Option<String>,
}

/// Strategy types.
#[derive(Debug)]
pub struct StrategyTypeListResponse {
    pub list: Vec<StrategyType>,
}

} // verus!
