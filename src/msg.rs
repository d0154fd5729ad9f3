use vstd::prelude::*;

verus! {

/// An amount of one denomination.
#[derive(Debug, Clone, PartialEq)]
pub struct Coin {
    pub denom: String,
    pub amount: u128,
}

/// One hop of a swap: the pool to go through and the denomination that comes out.
#[derive(Debug, Clone, PartialEq)]
pub struct SwapAmountInRoute {
    pub pool_id: u64,
    pub token_out_denom: String,
}

/// The parameters that the contract is created with.
#[derive(Debug, Clone, PartialEq)]
pub struct InstantiateMsg {
    pub min_disbursal_amount: u64,
    pub channel_id: String,
    pub ibc_timeout_interval: u64,
    pub memo: String,
    pub to_address: String,
    pub admin: String,
}

/// The operations that change or use the contract's state.
#[derive(Debug, Clone, PartialEq)]
pub enum ExecuteMsg {
    DisburseFunds { denom: String },
    SwapExactAmountIn {
        routes: Vec<SwapAmountInRoute>,
        token_in: Coin,
        token_out_min_amount: String,
    },
    TransferAdmin { to: String },
    CancelTransferAdmin {},
    ClaimAdmin {},
}

/// The read-only queries.
#[derive(Debug, Clone, PartialEq)]
pub enum QueryMsg {
    GetBalance { denom: String },
}

/// The answer to [`QueryMsg::GetBalance`].
#[derive(Debug, Clone, PartialEq)]
pub struct GetBalanceResponse {
    pub balance: Coin,
}

} // verus!
