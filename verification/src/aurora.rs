use crate::abi::{build_input, call_input, token_views, Token, TokenView};
use crate::address::Address;
use crate::error::BridgeError;
use crate::word::RawU256;
use vstd::prelude::*;
use vstd::string::*;

verus! {

/// The bytes of an address as the engine takes them.
pub type RawAddress = [u8; 20];

/// An amount of gas.
pub type Gas = u64;

/// An amount of the native token.
pub type Balance = u128;

/// The account of the engine.
pub const AURORA: &'static str = "aurora";

/// One teragas.
pub const TGAS: Gas = 1_000_000_000_000;

/// The gas attached to a balance query and to its callback.
pub const BALANCE_GAS: Gas = 5 * TGAS;

/// The gas attached to the resolution of a token.
pub const RESOLVE_GAS: Gas = 10 * TGAS;

/// The gas attached to a callback that takes the result of a call into a
/// token contract or of a resolution.
pub const CALLBACK_GAS: Gas = 10 * TGAS;

/// The gas attached to a read-only call into a contract of the engine.
pub const VIEW_CALL_GAS: Gas = 100 * TGAS;

/// The gas attached to a call that changes the engine's state.
pub const CALL_GAS: Gas = 200 * TGAS;

/// No call of the bridge carries a deposit.
pub const NO_DEPOSIT: Balance = 0;

/// The arguments of the engine's `call` operation.
#[derive(Clone, Debug, PartialEq, Eq)]
pub struct FunctionCallArgsV2 {
    /// The contract to call.
    pub contract: RawAddress,
    /// The value sent along, in wei.
    pub value: RawU256,
    /// The selector and the encoded arguments.
    pub input: Vec<u8>,
}

/// The arguments of the engine's `call` operation, by format.
#[derive(Clone, Debug, PartialEq, Eq)]
pub enum CallArgs {
    V2(FunctionCallArgsV2),
}

/// How a call into a contract of the engine ended.
#[derive(Clone, Debug, PartialEq, Eq)]
pub enum TransactionStatus {
    /// The call ran to its end and returned these bytes.
    Succeed(Vec<u8>),
    /// The contract reverted and gave these bytes as its reason.
    Revert(Vec<u8>),
    OutOfGas,
    OutOfFund,
    OutOfOffset,
    CallTooDeep,
}

/// One of the four operations of the engine, with its arguments.
#[derive(Clone, Debug, PartialEq, Eq)]
pub enum EngineRequest {
    /// The native balance of an address.
    GetBalance { address: RawAddress },
    /// The address of the token contract that mirrors a token account.
    GetErc20FromNep141 { token_id: String },
    /// A read-only call.
    View { sender: RawAddress, address: RawAddress, amount: RawU256, input: Vec<u8> },
    /// A call that may change the engine's state.
    Call { call_args: CallArgs },
}

/// The callback that takes the result of a call.
#[derive(Clone, Debug, PartialEq, Eq)]
pub enum CallbackKind {
    OnBalance,
    OnNearErc20TokenBalance,
    OnGetErc20FromNep141 { token_id: String },
}

/// A callback to run on the contract's own account once a call has ended.
#[derive(Clone, Debug, PartialEq, Eq)]
pub struct Callback {
    /// The account that runs the callback: the contract itself.
    pub account: String,
    pub kind: CallbackKind,
    pub deposit: Balance,
    pub gas: Gas,
}

/// A call to schedule on the engine, with at most one callback.
#[derive(Clone, Debug, PartialEq, Eq)]
pub struct Promise {
    /// The account that receives the call.
    pub receiver: String,
    pub request: EngineRequest,
    pub deposit: Balance,
    pub gas: Gas,
    pub callback: Option<Callback>,
}

/// What an entry point hands back: a call to wait for, or a value that is
/// known at once.
#[derive(Clone, Debug, PartialEq, Eq)]
pub enum PromiseOrValue {
    Promise(Promise),
    Value(String),
}

/// The arguments of the engine's `call` as contracts speak of them.
pub struct FunctionCallArgsV2View {
    pub contract: Seq<u8>,
    pub value: Seq<u8>,
    pub input: Seq<u8>,
}

/// The arguments of the engine's `call`, by format, as contracts speak of
/// them.
pub enum CallArgsView {
    V2(FunctionCallArgsV2View),
}

/// The ending of a call as contracts speak of it.
pub enum TransactionStatusView {
    Succeed(Seq<u8>),
    Revert(Seq<u8>),
    OutOfGas,
    OutOfFund,
    OutOfOffset,
    CallTooDeep,
}

/// An operation of the engine as contracts speak of it.
pub enum EngineRequestView {
    GetBalance { address: Seq<u8> },
    GetErc20FromNep141 { token_id: Seq<char> },
    View { sender: Seq<u8>, address: Seq<u8>, amount: Seq<u8>, input: Seq<u8> },
    Call { call_args: CallArgsView },
}

/// A callback's kind as contracts speak of it.
pub enum CallbackKindView {
    OnBalance,
    OnNearErc20TokenBalance,
    OnGetErc20FromNep141 { token_id: Seq<char> },
}

/// A callback as contracts speak of it.
pub struct CallbackView {
    pub account: Seq<char>,
    pub kind: CallbackKindView,
    pub deposit: Balance,
    pub gas: Gas,
}

/// A call to schedule as contracts speak of it.
pub struct PromiseView {
    pub receiver: Seq<char>,
    pub request: EngineRequestView,
    pub deposit: Balance,
    pub gas: Gas,
    pub callback: Option<CallbackView>,
}

/// What an entry point hands back, as contracts speak of it.
pub enum PromiseOrValueView {
    Promise(PromiseView),
    Value(Seq<char>),
}

impl View for FunctionCallArgsV2 {
    type V = FunctionCallArgsV2View;

    open spec fn view(&self) -> FunctionCallArgsV2View {
        FunctionCallArgsV2View {
            contract: self.contract@,
            value: self.value@,
            input: self.input@,
        }
    }
}

impl View for CallArgs {
    type V = CallArgsView;

    open spec fn view(&self) -> CallArgsView {
        match self {
            CallArgs::V2(args) => CallArgsView::V2(args@),
        }
    }
}

impl View for TransactionStatus {
    type V = TransactionStatusView;

    open spec fn view(&self) -> TransactionStatusView {
        match self {
            TransactionStatus::Succeed(bytes) => TransactionStatusView::Succeed(bytes@),
            TransactionStatus::Revert(bytes) => TransactionStatusView::Revert(bytes@),
            TransactionStatus::OutOfGas => TransactionStatusView::OutOfGas,
            TransactionStatus::OutOfFund => TransactionStatusView::OutOfFund,
            TransactionStatus::OutOfOffset => TransactionStatusView::OutOfOffset,
            TransactionStatus::CallTooDeep => TransactionStatusView::CallTooDeep,
        }
    }
}

impl View for EngineRequest {
    type V = EngineRequestView;

    open spec fn view(&self) -> EngineRequestView {
        match self {
            EngineRequest::GetBalance { address } => EngineRequestView::GetBalance {
                address: address@,
            },
            EngineRequest::GetErc20FromNep141 { token_id } => {
                EngineRequestView::GetErc20FromNep141 { token_id: token_id@ }
            },
            EngineRequest::View { sender, address, amount, input } => EngineRequestView::View {
                sender: sender@,
                address: address@,
                amount: amount@,
                input: input@,
            },
            EngineRequest::Call { call_args } => EngineRequestView::Call {
                call_args: call_args@,
            },
        }
    }
}

impl View for CallbackKind {
    type V = CallbackKindView;

    open spec fn view(&self) -> CallbackKindView {
        match self {
            CallbackKind::OnBalance => CallbackKindView::OnBalance,
            CallbackKind::OnNearErc20TokenBalance => CallbackKindView::OnNearErc20TokenBalance,
            CallbackKind::OnGetErc20FromNep141 { token_id } => {
                CallbackKindView::OnGetErc20FromNep141 { token_id: token_id@ }
            },
        }
    }
}

impl View for Callback {
    type V = CallbackView;

    open spec fn view(&self) -> CallbackView {
        CallbackView {
            account: self.account@,
            kind: self.kind@,
            deposit: self.deposit,
            gas: self.gas,
        }
    }
}

impl View for Promise {
    type V = PromiseView;

    open spec fn view(&self) -> PromiseView {
        PromiseView {
            receiver: self.receiver@,
            request: self.request@,
            deposit: self.deposit,
            gas: self.gas,
            callback: match self.callback {
                Some(callback) => Some(callback@),
                None => None,
            },
        }
    }
}

impl View for PromiseOrValue {
    type V = PromiseOrValueView;

    open spec fn view(&self) -> PromiseOrValueView {
        match self {
            PromiseOrValue::Promise(promise) => PromiseOrValueView::Promise(promise@),
            PromiseOrValue::Value(value) => PromiseOrValueView::Value(value@),
        }
    }
}

/// The 32 zero bytes of the value zero.
pub open spec fn zero_word() -> Seq<u8> {
    Seq::new(32, |i: int| 0u8)
}

/// The input that an operation hands to a contract of the engine; empty for
/// the operations that call none.
pub open spec fn input_of(request: EngineRequestView) -> Seq<u8> {
    match request {
        EngineRequestView::View { input, .. } => input,
        EngineRequestView::Call { call_args: CallArgsView::V2(args) } => args.input,
        _ => Seq::empty(),
    }
}

/// A call on the engine that carries no deposit and has no callback yet.
pub open spec fn engine_call(request: EngineRequestView, gas: Gas) -> PromiseView {
    PromiseView { receiver: AURORA@, request, deposit: NO_DEPOSIT, gas, callback: None }
}

/// The query for the native balance of `address`.
pub open spec fn balance_query(address: Seq<u8>) -> PromiseView {
    engine_call(EngineRequestView::GetBalance { address }, BALANCE_GAS)
}

/// The query for the token contract that mirrors the account `token_id`.
pub open spec fn token_query(token_id: Seq<char>) -> PromiseView {
    engine_call(EngineRequestView::GetErc20FromNep141 { token_id }, RESOLVE_GAS)
}

/// The call of `contract` with `input` that sends no value.
pub open spec fn contract_call(contract: Seq<u8>, input: Seq<u8>) -> PromiseView {
    engine_call(
        EngineRequestView::Call {
            call_args: CallArgsView::V2(
                FunctionCallArgsV2View { contract, value: zero_word(), input },
            ),
        },
        CALL_GAS,
    )
}

/// The read-only call of `contract` with `input` in the name of `sender`
/// that sends no value.
pub open spec fn contract_view(sender: Seq<u8>, contract: Seq<u8>, input: Seq<u8>) -> PromiseView {
    engine_call(
        EngineRequestView::View { sender, address: contract, amount: zero_word(), input },
        VIEW_CALL_GAS,
    )
}

/// The read-only call of `balanceOf(address)` on the token `token` for the
/// holder `account`, sent in the holder's name.
pub open spec fn token_balance_query(token: Seq<u8>, account: Seq<u8>) -> PromiseView {
    contract_view(
        account,
        token,
        call_input("balanceOf(address)"@, seq![TokenView::Address(account)]),
    )
}

/// The call of `transfer(address,uint256)` on the token `token` that moves
/// `amount` to `receiver`.
pub open spec fn token_transfer(token: Seq<u8>, receiver: Seq<u8>, amount: Balance) -> PromiseView {
    contract_call(
        token,
        call_input(
            "transfer(address,uint256)"@,
            seq![TokenView::Address(receiver), TokenView::Uint(amount)],
        ),
    )
}

impl TransactionStatus {
    /// The bytes that a call returned, or the failure that every other
    /// ending amounts to.
    pub fn into_result(self) -> (r: Result<Vec<u8>, BridgeError>)
        ensures
            match self@ {
                TransactionStatusView::Succeed(bytes) => r matches Ok(data) && data@ == bytes,
                _ => r == Err::<Vec<u8>, BridgeError>(BridgeError::RemoteCallFailed),
            },
    {
        match self {
            TransactionStatus::Succeed(bytes) => Ok(bytes),
            _ => Err(BridgeError::RemoteCallFailed),
        }
    }
}

impl Promise {
    /// Attaches the one callback of a call.
    pub fn with_callback(self, callback: Callback) -> (p: Promise)
        requires
            self.callback is None,
        ensures
            p@ == (PromiseView { callback: Some(callback@), ..self@ }),
    {
        Promise {
            receiver: self.receiver,
            request: self.request,
            deposit: self.deposit,
            gas: self.gas,
            callback: Some(callback),
        }
    }
}

/// The call on the engine for `request`, with `gas` attached.
fn engine_promise(request: EngineRequest, gas: Gas) -> (p: Promise)
    ensures
        p@ == engine_call(request@, gas),
{
    Promise {
        receiver: String::from_str(AURORA),
        request,
        deposit: NO_DEPOSIT,
        gas,
        callback: None,
    }
}

/// Asks the engine for the native balance of `address`.
pub fn get_balance(address: Address) -> (p: Promise)
    ensures
        p@ == balance_query(address@),
{
    engine_promise(EngineRequest::GetBalance { address: address.0 }, BALANCE_GAS)
}

/// Asks the engine for the token contract that mirrors `token_id`.
pub fn get_erc20_from_nep141(token_id: &str) -> (p: Promise)
    ensures
        p@ == token_query(token_id@),
{
    engine_promise(
        EngineRequest::GetErc20FromNep141 { token_id: String::from_str(token_id) },
        RESOLVE_GAS,
    )
}

/// Calls `contract` with `input`, sending no value.
pub fn call(contract: Address, input: Vec<u8>) -> (p: Promise)
    ensures
        p@ == contract_call(contract@, input@),
{
    let value: RawU256 = [0u8; 32];
    assert(value@ =~= zero_word());
    engine_promise(
        EngineRequest::Call {
            call_args: CallArgs::V2(FunctionCallArgsV2 { contract: contract.0, value, input }),
        },
        CALL_GAS,
    )
}

/// Calls `contract` with `input` in the name of `sender`, read-only and
/// sending no value.
pub fn view(sender: Address, contract: Address, input: Vec<u8>) -> (p: Promise)
    ensures
        p@ == contract_view(sender@, contract@, input@),
{
    let amount: RawU256 = [0u8; 32];
    assert(amount@ =~= zero_word());
    engine_promise(
        EngineRequest::View { sender: sender.0, address: contract.0, amount, input },
        VIEW_CALL_GAS,
    )
}

/// Asks the token `token_address` for the balance of `account_address`.
pub fn get_erc20_balance(token_address: Address, account_address: Address) -> (p: Promise)
    ensures
        p@ == token_balance_query(token_address@, account_address@),
        input_of(p@.request).len() == 36,
{
    let args: [Token; 1] = [Token::Address(account_address)];
    assert(token_views(args@) =~= seq![TokenView::Address(account_address@)]);
    let input = build_input("balanceOf(address)", args.as_slice());
    view(account_address, token_address, input)
}

/// Has the token `token_address` move `amount` to `receiver`.
pub fn erc20_transfer_balance(token_address: Address, receiver: Address, amount: Balance) -> (p:
    Promise)
    ensures
        p@ == token_transfer(token_address@, receiver@, amount),
        input_of(p@.request).len() == 68,
{
    let args: [Token; 2] = [Token::Address(receiver), Token::Uint(amount)];
    assert(token_views(args@) =~= seq![
        TokenView::Address(receiver@),
        TokenView::Uint(amount),
    ]);
    let input = build_input("transfer(address,uint256)", args.as_slice());
    call(token_address, input)
}

} // verus!
