use vstd::prelude::*;

use cosmwasm_std::Timestamp;
use osmosis_std::types::osmosis::poolmanager::v1beta1::{
    MsgSwapExactAmountIn, SwapAmountInRoute as Hop,
};

use crate::admin::{Addr, Admin, AdminView};
use crate::error::ContractError;
use crate::msg::{Coin, InstantiateMsg, SwapAmountInRoute};
use crate::state::State;

verus! {

/// Nanoseconds in one second.
pub const NANOS_PER_SECOND: u64 = 1_000_000_000;

/// An outbound cross-chain token transfer.
#[derive(Debug, Clone, PartialEq)]
pub struct IbcTransfer {
    pub channel_id: String,
    pub to_address: String,
    pub amount: Coin,
    /// Nanoseconds since the epoch after which the transfer times out.
    pub timeout_nanos: u64,
    pub memo: Option<String>,
}

/// An outbound message for a chain module: a type URL and its encoded body.
#[derive(Debug, Clone, PartialEq)]
pub struct AnyMsg {
    pub type_url: String,
    pub value: Vec<u8>,
}

/// The protobuf encoding of a swap message with the given sender, routes
/// (pool and output denomination of each hop), input coin (denomination and
/// amount) and minimum output amount.
pub uninterp spec fn swap_message_bytes(
    sender: Seq<char>,
    routes: Seq<(u64, Seq<char>)>,
    token_in: (Seq<char>, u128),
    token_out_min_amount: Seq<char>,
) -> Seq<u8>;

/// The hops of a route, as plain values.
pub open spec fn route_values(routes: Seq<SwapAmountInRoute>) -> Seq<(u64, Seq<char>)> {
    routes.map_values(|r: SwapAmountInRoute| (r.pool_id, r.token_out_denom@))
}

/// The type URL of the swap message.
pub open spec fn swap_type_url_spec() -> Seq<char> {
    "/osmosis.poolmanager.v1beta1.MsgSwapExactAmountIn"@
}

/// Relies on cosmwasm_std's Timestamp::plus_seconds, which adds the seconds
/// as nanoseconds and panics only where the sum leaves `u64`.
#[verifier::external_body]
fn timestamp_plus_seconds(nanos: u64, seconds: u64) -> (r: u64)
    requires
        nanos + seconds * NANOS_PER_SECOND <= u64::MAX,
    ensures
        r == nanos + seconds * NANOS_PER_SECOND,
{
    Timestamp::from_nanos(nanos).plus_seconds(seconds).nanos()
}

/// Relies on osmosis_std's MsgSwapExactAmountIn::TYPE_URL, the message's type URL.
#[verifier::external_body]
fn swap_type_url() -> (r: String)
    ensures
        r@ == swap_type_url_spec(),
{
    MsgSwapExactAmountIn::TYPE_URL.to_string()
}

/// Relies on osmosis_std's MsgSwapExactAmountIn::to_proto_bytes: the protobuf
/// encoding, which depends on the message's fields alone.
#[verifier::external_body]
fn encode_swap(
    sender: &String,
    routes: &Vec<SwapAmountInRoute>,
    token_in: &Coin,
    token_out_min_amount: &String,
) -> (r: Vec<u8>)
    ensures
        r@ == swap_message_bytes(
            sender@,
            route_values(routes@),
            (token_in.denom@, token_in.amount),
            token_out_min_amount@,
        ),
{
    MsgSwapExactAmountIn {
        sender: sender.clone(),
        routes: routes
            .iter()
            .map(|h| Hop { pool_id: h.pool_id, token_out_denom: h.token_out_denom.clone() })
            .collect(),
        token_in: Some(cosmwasm_std::Coin::new(token_in.amount, token_in.denom.clone()).into()),
        token_out_min_amount: token_out_min_amount.clone(),
    }.to_proto_bytes()
}

/// The record that the contract starts with: the given settings, and the
/// role held by `admin`, the validated form of `msg.admin`.
pub fn instantiate(msg: InstantiateMsg, admin: Addr) -> (r: State)
    ensures
        r.channel_id == msg.channel_id,
        r.ibc_timeout_interval == msg.ibc_timeout_interval,
        r.min_disbursal_amount == msg.min_disbursal_amount,
        r.memo == msg.memo,
        r.to_address == msg.to_address,
        r.admin@ == (AdminView::Settled { current: admin@ }),
{
    State {
        channel_id: msg.channel_id,
        ibc_timeout_interval: msg.ibc_timeout_interval,
        min_disbursal_amount: msg.min_disbursal_amount,
        memo: msg.memo,
        to_address: msg.to_address,
        admin: Admin::Settled { current: admin },
    }
}

/// Whether a disbursal at `now_nanos` would time out past the largest
/// representable time.
pub open spec fn timeout_overflows(state: &State, now_nanos: u64) -> bool {
    now_nanos + state.ibc_timeout_interval * NANOS_PER_SECOND > u64::MAX
}

/// Sends the whole `balance`, which the contract holds at `now_nanos`, to the
/// configured recipient, once it reaches the disbursal threshold.
pub fn disburse_funds(state: &State, now_nanos: u64, balance: Coin) -> (r: Result<
    IbcTransfer,
    ContractError,
>)
    requires
        balance.amount >= state.min_disbursal_amount ==> !timeout_overflows(state, now_nanos),
    ensures
        r is Err <==> balance.amount < state.min_disbursal_amount,
        r matches Err(e) ==> e is InsufficientFunds,
        r matches Ok(t) ==> {
            &&& t.channel_id == state.channel_id
            &&& t.to_address == state.to_address
            &&& t.amount == balance
            &&& t.timeout_nanos == now_nanos + state.ibc_timeout_interval * NANOS_PER_SECOND
            &&& t.memo == Some(state.memo)
        },
{
    if balance.amount < state.min_disbursal_amount as u128 {
        return Err(ContractError::InsufficientFunds);
    }
    let timeout_nanos = timestamp_plus_seconds(now_nanos, state.ibc_timeout_interval);
    Ok(IbcTransfer {
        channel_id: state.channel_id.clone(),
        to_address: state.to_address.clone(),
        amount: balance,
        timeout_nanos,
        memo: Some(state.memo.clone()),
    })
}

/// The holder of the role swaps `token_in` through `routes` on behalf of the
/// contract at `contract_address`, asking for at least `token_out_min_amount`.
pub fn swap_exact_amount_in(
    state: &State,
    contract_address: &String,
    sender: &Addr,
    routes: Vec<SwapAmountInRoute>,
    token_in: Coin,
    token_out_min_amount: String,
) -> (r: Result<AnyMsg, ContractError>)
    ensures
        r is Ok <==> state.admin@.is_authorized(sender@),
        r matches Err(e) ==> e is Unauthorized,
        r matches Ok(m) ==> {
            &&& m.type_url@ == swap_type_url_spec()
            &&& m.value@ == swap_message_bytes(
                contract_address@,
                route_values(routes@),
                (token_in.denom@, token_in.amount),
                token_out_min_amount@,
            )
        },
{
    state.admin.ensure_admin(sender)?;
    let value = encode_swap(contract_address, &routes, &token_in, &token_out_min_amount);
    Ok(AnyMsg { type_url: swap_type_url(), value })
}

} // verus!
