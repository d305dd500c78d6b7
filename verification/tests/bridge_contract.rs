use aurora_bridge::address::{address_to_string, near_account_to_evm_address, Address};
use aurora_bridge::aurora::{
    CallArgs, Callback, CallbackKind, EngineRequest, FunctionCallArgsV2, Promise,
    PromiseOrValue, TransactionStatus, TGAS,
};
use aurora_bridge::cache::MappingCache;
use aurora_bridge::contract::{CallContext, CallbackResult, Contract};
use aurora_bridge::error::BridgeError;

const BRIDGE: &str = "bridge.example";
const TOKEN: &str = "token.example";
const TOKEN_TEXT: &str = "0x1111111111111111111111111111111111111111";

fn by_user() -> CallContext {
    CallContext {
        current_account_id: BRIDGE.to_string(),
        predecessor_account_id: "user.example".to_string(),
    }
}

fn by_self() -> CallContext {
    CallContext {
        current_account_id: BRIDGE.to_string(),
        predecessor_account_id: BRIDGE.to_string(),
    }
}

fn resolved() -> Contract {
    let mut contract = Contract::new();
    let r = contract.on_get_erc20_from_nep141(
        &by_self(),
        CallbackResult::Successful([0x11; 20]),
        TOKEN.to_string(),
    );
    assert_eq!(r, Ok(TOKEN_TEXT.to_string()));
    contract
}

fn word(value: u128) -> [u8; 32] {
    let mut w = [0u8; 32];
    w[16..].copy_from_slice(&value.to_be_bytes());
    w
}

fn callback(kind: CallbackKind, gas: u64) -> Option<Callback> {
    Some(Callback { account: BRIDGE.to_string(), kind, deposit: 0, gas })
}

fn resolution_query() -> Promise {
    Promise {
        receiver: "aurora".to_string(),
        request: EngineRequest::GetErc20FromNep141 { token_id: TOKEN.to_string() },
        deposit: 0,
        gas: 10 * TGAS,
        callback: callback(
            CallbackKind::OnGetErc20FromNep141 { token_id: TOKEN.to_string() },
            10 * TGAS,
        ),
    }
}

#[test]
fn a_contract_starts_from_a_given_cache() {
    let mut cache = MappingCache::new();
    assert_eq!(cache.insert(TOKEN.to_string(), Address([0x11; 20])), Ok(()));
    let mut contract = Contract::from_cache(cache);
    assert_eq!(contract.cache().len(), 1);
    assert_eq!(contract.get_erc20_address(TOKEN), Ok(Address([0x11; 20])));
    assert_eq!(
        contract.fetch_erc20_token_address(&by_user(), TOKEN),
        PromiseOrValue::Value(TOKEN_TEXT.to_string())
    );
}

#[test]
fn a_call_is_the_contracts_own_when_both_accounts_agree() {
    assert!(by_self().called_by_self());
    assert!(!by_user().called_by_self());
    let reversed = CallContext {
        current_account_id: "user.example".to_string(),
        predecessor_account_id: BRIDGE.to_string(),
    };
    assert!(!reversed.called_by_self());
}

#[test]
fn own_address_is_derived_from_the_account() {
    let contract = Contract::new();
    assert_eq!(
        contract.near_address(&by_user()),
        address_to_string(&near_account_to_evm_address(BRIDGE))
    );
    let nameless = CallContext {
        current_account_id: String::new(),
        predecessor_account_id: String::new(),
    };
    assert_eq!(
        contract.near_address(&nameless),
        "0xdcc703c0e500b653ca82273b7bfad8045d85a470"
    );
}

#[test]
fn native_balance_is_asked_for_the_own_address() {
    let contract = Contract::new();
    let p = contract.get_native_balance(&by_user());
    assert_eq!(
        p,
        Promise {
            receiver: "aurora".to_string(),
            request: EngineRequest::GetBalance {
                address: near_account_to_evm_address(BRIDGE).0,
            },
            deposit: 0,
            gas: 5 * TGAS,
            callback: callback(CallbackKind::OnBalance, 5 * TGAS),
        }
    );
}

#[test]
fn resolving_on_an_empty_cache_asks_the_engine_once() {
    let mut contract = Contract::new();
    let asked = contract.fetch_erc20_token_address(&by_user(), TOKEN);
    assert_eq!(asked, PromiseOrValue::Promise(resolution_query()));
    assert_eq!(contract.cache().len(), 0);

    let answered = contract.on_get_erc20_from_nep141(
        &by_self(),
        CallbackResult::Successful([0x11; 20]),
        TOKEN.to_string(),
    );
    assert_eq!(answered, Ok(TOKEN_TEXT.to_string()));
    assert_eq!(contract.cache().len(), 1);
    assert_eq!(contract.cache().lookup(TOKEN), Some(Address([0x11; 20])));
    assert_eq!(contract.cache().lookup_address(&Address([0x11; 20])), Some(TOKEN.to_string()));
}

#[test]
fn a_resolved_token_is_answered_from_the_cache() {
    let mut contract = resolved();
    assert_eq!(
        contract.fetch_erc20_token_address(&by_user(), TOKEN),
        PromiseOrValue::Value(TOKEN_TEXT.to_string())
    );
    assert_eq!(
        contract.fetch_erc20_token_address(&by_user(), TOKEN),
        PromiseOrValue::Value(TOKEN_TEXT.to_string())
    );
    assert_eq!(contract.cache().len(), 1);
    assert!(matches!(
        contract.fetch_erc20_token_address(&by_user(), "other.example"),
        PromiseOrValue::Promise(_)
    ));
}

#[test]
fn a_resolution_stays_when_others_follow() {
    let mut contract = resolved();
    let r = contract.on_get_erc20_from_nep141(
        &by_self(),
        CallbackResult::Successful([0x22; 20]),
        "other.example".to_string(),
    );
    assert_eq!(r, Ok("0x2222222222222222222222222222222222222222".to_string()));
    assert_eq!(contract.cache().lookup(TOKEN), Some(Address([0x11; 20])));
    assert_eq!(contract.cache().lookup_address(&Address([0x11; 20])), Some(TOKEN.to_string()));
    assert_eq!(contract.get_erc20_address("other.example"), Ok(Address([0x22; 20])));
}

#[test]
fn the_same_resolution_twice_is_accepted() {
    let mut contract = resolved();
    let r = contract.on_get_erc20_from_nep141(
        &by_self(),
        CallbackResult::Successful([0x11; 20]),
        TOKEN.to_string(),
    );
    assert_eq!(r, Ok(TOKEN_TEXT.to_string()));
    assert_eq!(contract.cache().len(), 1);
}

#[test]
fn a_resolution_never_replaces_an_entry() {
    let mut contract = resolved();
    let other_address = contract.on_get_erc20_from_nep141(
        &by_self(),
        CallbackResult::Successful([0x22; 20]),
        TOKEN.to_string(),
    );
    assert_eq!(other_address, Err(BridgeError::MappingConflict));
    let other_token = contract.on_get_erc20_from_nep141(
        &by_self(),
        CallbackResult::Successful([0x11; 20]),
        "other.example".to_string(),
    );
    assert_eq!(other_token, Err(BridgeError::MappingConflict));
    assert_eq!(contract.cache().len(), 1);
    assert_eq!(contract.cache().lookup(TOKEN), Some(Address([0x11; 20])));
    assert_eq!(contract.cache().lookup("other.example"), None);
    assert_eq!(contract.cache().lookup_address(&Address([0x22; 20])), None);
}

#[test]
fn a_failed_resolution_writes_nothing() {
    let mut contract = Contract::new();
    let failed =
        contract.on_get_erc20_from_nep141(&by_self(), CallbackResult::Failed, TOKEN.to_string());
    assert_eq!(failed, Err(BridgeError::ResolutionFailed));
    let exhausted = contract.on_get_erc20_from_nep141(
        &by_self(),
        CallbackResult::Exhausted,
        TOKEN.to_string(),
    );
    assert_eq!(exhausted, Err(BridgeError::ResourceExhausted));
    assert_eq!(contract.cache().len(), 0);
    assert_eq!(contract.cache().lookup(TOKEN), None);
}

#[test]
fn callbacks_answer_the_contract_only() {
    let mut contract = Contract::new();
    assert_eq!(
        contract.on_get_erc20_from_nep141(
            &by_user(),
            CallbackResult::Successful([0x11; 20]),
            TOKEN.to_string(),
        ),
        Err(BridgeError::Unauthorized)
    );
    assert_eq!(contract.cache().len(), 0);
    assert_eq!(
        contract.on_balance(&by_user(), CallbackResult::Successful(word(1000))),
        Err(BridgeError::Unauthorized)
    );
    assert_eq!(
        contract.on_near_erc20_token_balance(
            &by_user(),
            CallbackResult::Successful(TransactionStatus::Succeed(word(1000).to_vec())),
        ),
        Err(BridgeError::Unauthorized)
    );
}

#[test]
fn token_balance_before_resolution_is_refused() {
    let contract = Contract::new();
    assert_eq!(
        contract.get_near_erc20_token_balance(&by_user(), TOKEN),
        Err(BridgeError::UnresolvedMapping)
    );
    assert_eq!(contract.get_erc20_address(TOKEN), Err(BridgeError::UnresolvedMapping));
}

#[test]
fn token_balance_of_a_resolved_token_is_a_view() {
    let contract = resolved();
    let own = near_account_to_evm_address(BRIDGE).0;
    let mut input = vec![0x70, 0xa0, 0x82, 0x31];
    input.extend([0u8; 12]);
    input.extend(own);
    assert_eq!(
        contract.get_near_erc20_token_balance(&by_user(), TOKEN),
        Ok(Promise {
            receiver: "aurora".to_string(),
            request: EngineRequest::View {
                sender: own,
                address: [0x11; 20],
                amount: [0; 32],
                input,
            },
            deposit: 0,
            gas: 100 * TGAS,
            callback: callback(CallbackKind::OnNearErc20TokenBalance, 10 * TGAS),
        })
    );
}

#[test]
fn native_balance_of_one_thousand() {
    let contract = Contract::new();
    assert_eq!(
        contract.on_balance(&by_self(), CallbackResult::Successful(word(1000))),
        Ok(Some(1000))
    );
}

#[test]
fn native_balance_edges() {
    let contract = Contract::new();
    assert_eq!(
        contract.on_balance(&by_self(), CallbackResult::Successful(word(0))),
        Ok(Some(0))
    );
    assert_eq!(
        contract.on_balance(&by_self(), CallbackResult::Successful(word(u128::MAX))),
        Ok(Some(u128::MAX))
    );
    let mut too_large = [0u8; 32];
    too_large[15] = 1;
    assert_eq!(
        contract.on_balance(&by_self(), CallbackResult::Successful(too_large)),
        Err(BridgeError::InvalidBalance)
    );
    assert_eq!(
        contract.on_balance(&by_self(), CallbackResult::Successful([0xff; 32])),
        Err(BridgeError::InvalidBalance)
    );
    assert_eq!(contract.on_balance(&by_self(), CallbackResult::Failed), Ok(None));
    assert_eq!(
        contract.on_balance(&by_self(), CallbackResult::Exhausted),
        Err(BridgeError::ResourceExhausted)
    );
}

#[test]
fn token_balance_when_the_call_ran_out_of_gas() {
    let contract = resolved();
    assert_eq!(
        contract.on_near_erc20_token_balance(
            &by_self(),
            CallbackResult::Successful(TransactionStatus::OutOfGas),
        ),
        Ok(None)
    );
    assert_eq!(contract.cache().len(), 1);
    assert_eq!(contract.cache().lookup(TOKEN), Some(Address([0x11; 20])));
    assert_eq!(contract.cache().lookup_address(&Address([0x11; 20])), Some(TOKEN.to_string()));
}

#[test]
fn token_balance_of_each_ending() {
    let contract = Contract::new();
    let ask = |status: TransactionStatus| {
        contract.on_near_erc20_token_balance(&by_self(), CallbackResult::Successful(status))
    };
    assert_eq!(ask(TransactionStatus::Succeed(word(77).to_vec())), Ok(Some(77)));
    assert_eq!(ask(TransactionStatus::Succeed(vec![0x01, 0x00])), Ok(Some(256)));
    assert_eq!(ask(TransactionStatus::Succeed(vec![])), Ok(Some(0)));
    assert_eq!(
        ask(TransactionStatus::Succeed(vec![0xff; 32])),
        Err(BridgeError::InvalidBalance)
    );
    assert_eq!(
        ask(TransactionStatus::Succeed(vec![0; 33])),
        Err(BridgeError::InvalidBalance)
    );
    assert_eq!(ask(TransactionStatus::Revert(word(77).to_vec())), Ok(None));
    assert_eq!(ask(TransactionStatus::OutOfFund), Ok(None));
    assert_eq!(ask(TransactionStatus::OutOfOffset), Ok(None));
    assert_eq!(ask(TransactionStatus::CallTooDeep), Ok(None));
    assert_eq!(contract.on_near_erc20_token_balance(&by_self(), CallbackResult::Failed), Ok(None));
    assert_eq!(
        contract.on_near_erc20_token_balance(&by_self(), CallbackResult::Exhausted),
        Err(BridgeError::ResourceExhausted)
    );
}

#[test]
fn transfer_of_an_unresolved_token_is_refused() {
    let mut contract = Contract::new();
    assert_eq!(
        contract.erc20_transfer(&by_self(), TOKEN, TOKEN_TEXT, 5),
        Err(BridgeError::UnresolvedMapping)
    );
    assert_eq!(
        contract.erc20_transfer(&by_self(), TOKEN, "no address", 5),
        Err(BridgeError::UnresolvedMapping)
    );
    assert_eq!(contract.cache().len(), 0);
}

#[test]
fn transfer_is_for_the_contract_itself() {
    let mut contract = resolved();
    assert_eq!(
        contract.erc20_transfer(&by_user(), TOKEN, TOKEN_TEXT, 5),
        Err(BridgeError::Unauthorized)
    );
}

#[test]
fn transfer_wants_a_well_formed_receiver() {
    let mut contract = resolved();
    assert_eq!(
        contract.erc20_transfer(&by_self(), TOKEN, "2222222222222222222222222222222222222222", 5),
        Err(BridgeError::MalformedAddress)
    );
    assert_eq!(
        contract.erc20_transfer(&by_self(), TOKEN, "0x22", 5),
        Err(BridgeError::MalformedAddress)
    );
    assert_eq!(
        contract.erc20_transfer(
            &by_self(),
            TOKEN,
            "0xABABABABABABABABABABABABABABABABABABABAB",
            5
        ),
        Err(BridgeError::MalformedAddress)
    );
    assert_eq!(contract.cache().len(), 1);
}

#[test]
fn transfer_calls_the_token_contract() {
    let mut contract = resolved();
    let mut input = vec![0xa9, 0x05, 0x9c, 0xbb];
    input.extend([0u8; 12]);
    input.extend([0x22u8; 20]);
    input.extend(word(5));
    assert_eq!(
        contract.erc20_transfer(
            &by_self(),
            TOKEN,
            "0x2222222222222222222222222222222222222222",
            5
        ),
        Ok(Promise {
            receiver: "aurora".to_string(),
            request: EngineRequest::Call {
                call_args: CallArgs::V2(FunctionCallArgsV2 {
                    contract: [0x11; 20],
                    value: [0; 32],
                    input,
                }),
            },
            deposit: 0,
            gas: 200 * TGAS,
            callback: None,
        })
    );
    assert_eq!(contract.cache().len(), 1);
}
