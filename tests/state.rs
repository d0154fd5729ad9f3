use cw_ibc_proxy::admin::{Addr, Admin};
use cw_ibc_proxy::contract::instantiate;
use cw_ibc_proxy::error::ContractError;
use cw_ibc_proxy::msg::InstantiateMsg;
use cw_ibc_proxy::state::State;

fn new_state(admin: &str) -> State {
    let msg = InstantiateMsg {
        min_disbursal_amount: 5,
        channel_id: "channel-0".to_string(),
        ibc_timeout_interval: 1000,
        memo: "memo".to_string(),
        to_address: "to_address".to_string(),
        admin: admin.to_string(),
    };
    instantiate(msg, Addr::unchecked(admin))
}

#[test]
fn instantiate_keeps_settings_and_settles_admin() {
    let s = new_state("alice");
    assert_eq!(s.channel_id, "channel-0");
    assert_eq!(s.ibc_timeout_interval, 1000);
    assert_eq!(s.min_disbursal_amount, 5);
    assert_eq!(s.memo, "memo");
    assert_eq!(s.to_address, "to_address");
    assert_eq!(
        s.admin,
        Admin::Settled {
            current: Addr::unchecked("alice")
        }
    );
}

#[test]
fn record_handover_round() {
    let alice = Addr::unchecked("alice");
    let bob = Addr::unchecked("bob");
    let mut s = new_state("alice");
    assert_eq!(s.transfer_admin(&bob, bob.clone()), Err(ContractError::Unauthorized {}));
    assert_eq!(s.admin, Admin::Settled { current: alice.clone() });
    assert_eq!(s.transfer_admin(&alice, bob.clone()), Ok(()));
    assert_eq!(
        s.admin,
        Admin::Transferring {
            from: alice.clone(),
            to: bob.clone()
        }
    );
    assert_eq!(s.claim_admin(&alice), Err(ContractError::Unauthorized {}));
    assert_eq!(s.claim_admin(&bob), Ok(()));
    assert_eq!(s.admin, Admin::Settled { current: bob.clone() });
    assert_eq!(s.memo, "memo");
}

#[test]
fn record_cancel() {
    let alice = Addr::unchecked("alice");
    let bob = Addr::unchecked("bob");
    let mut s = new_state("alice");
    s.transfer_admin(&alice, bob.clone()).unwrap();
    assert_eq!(s.cancel_transfer_admin(&bob), Err(ContractError::Unauthorized {}));
    assert_eq!(s.cancel_transfer_admin(&alice), Ok(()));
    assert_eq!(s.admin, Admin::Settled { current: alice });
}
