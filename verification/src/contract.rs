use crate::address::{
    address_to_string, derived_address, formatted_address, is_address_text,
    near_account_to_evm_address, parse_address, parsed_address, Address,
};
use crate::aurora::{
    balance_query, erc20_transfer_balance, get_balance, get_erc20_balance,
    get_erc20_from_nep141, token_balance_query, token_query, token_transfer, Balance, Callback,
    CallbackKind, CallbackKindView, CallbackView, Gas, Promise, PromiseOrValue,
    PromiseOrValueView, PromiseView, RawAddress, TransactionStatus, TransactionStatusView,
    BALANCE_GAS, CALLBACK_GAS, NO_DEPOSIT,
};
use crate::cache::MappingCache;
use crate::error::BridgeError;
use crate::word::{balance_from_be, decoded_balance, RawU256};
use vstd::prelude::*;
use vstd::string::*;

verus! {

/// What the host knows of the call in progress.
#[derive(Clone, Debug, PartialEq, Eq)]
pub struct CallContext {
    /// The account of the contract.
    pub current_account_id: String,
    /// The account that made the call.
    pub predecessor_account_id: String,
}

impl CallContext {
    /// Whether the contract is calling itself.
    pub open spec fn is_self_call(&self) -> bool {
        self.predecessor_account_id@ == self.current_account_id@
    }

    /// Whether the contract is calling itself, as callbacks and privileged
    /// operations demand.
    pub fn called_by_self(&self) -> (b: bool)
        ensures
            b == self.is_self_call(),
    {
        self.predecessor_account_id == self.current_account_id
    }
}

/// What the host hands to a callback: how the call that it waited for ended.
#[derive(Clone, Debug, PartialEq, Eq)]
pub enum CallbackResult<T> {
    /// The call completed and returned this.
    Successful(T),
    /// The call failed, at the engine or on its way.
    Failed,
    /// The call used up its budget before it completed.
    Exhausted,
}

/// The bridge contract. Its state is the cache of resolved tokens.
#[derive(Debug)]
pub struct Contract {
    cache: MappingCache,
}

/// The call `call` with the callback `kind` on the account `account`.
pub open spec fn calling_back(
    call: PromiseView,
    account: Seq<char>,
    kind: CallbackKindView,
    gas: Gas,
) -> PromiseView {
    PromiseView {
        callback: Some(CallbackView { account, kind, deposit: NO_DEPOSIT, gas }),
        ..call
    }
}

/// The request for the native balance of the contract `account`.
pub open spec fn native_balance_request(account: Seq<char>) -> PromiseView {
    calling_back(
        balance_query(derived_address(account)),
        account,
        CallbackKindView::OnBalance,
        BALANCE_GAS,
    )
}

/// What asking for the balance that the contract `account` holds of the
/// token `token_id` leads to.
pub open spec fn token_balance_request(
    cache: MappingCache,
    account: Seq<char>,
    token_id: Seq<char>,
) -> Result<PromiseView, BridgeError> {
    match cache.address_of(token_id) {
        Some(token) => Ok(
            calling_back(
                token_balance_query(token@, derived_address(account)),
                account,
                CallbackKindView::OnNearErc20TokenBalance,
                CALLBACK_GAS,
            ),
        ),
        None => Err(BridgeError::UnresolvedMapping),
    }
}

/// What asking for the address of the token `token_id` leads to: the cached
/// address, or a query to the engine whose callback will record the answer.
pub open spec fn fetch_outcome(
    cache: MappingCache,
    account: Seq<char>,
    token_id: Seq<char>,
) -> PromiseOrValueView {
    match cache.address_of(token_id) {
        Some(token) => PromiseOrValueView::Value(formatted_address(token@)),
        None => PromiseOrValueView::Promise(
            calling_back(
                token_query(token_id),
                account,
                CallbackKindView::OnGetErc20FromNep141 { token_id },
                CALLBACK_GAS,
            ),
        ),
    }
}

/// What a transfer of `amount` of the token `token_id` to `receiver` leads
/// to: the call on the token contract, unless the caller is not the contract
/// itself, the token is not cached or the receiver is no address.
pub open spec fn transfer_outcome(
    cache: MappingCache,
    self_call: bool,
    token_id: Seq<char>,
    receiver: Seq<char>,
    amount: Balance,
) -> Result<PromiseView, BridgeError> {
    if !self_call {
        Err(BridgeError::Unauthorized)
    } else {
        match cache.address_of(token_id) {
            None => Err(BridgeError::UnresolvedMapping),
            Some(token) => if is_address_text(receiver) {
                Ok(token_transfer(token@, parsed_address(receiver), amount))
            } else {
                Err(BridgeError::MalformedAddress)
            },
        }
    }
}

/// What a balance callback yields. For the contract itself: the balance
/// where the call returned one, an error where it returned bytes that are
/// no balance, nothing where the call failed, and an error where it ran out
/// of budget. For any other caller: a refusal. So a balance is absent
/// exactly when the call failed.
pub open spec fn balance_outcome(
    self_call: bool,
    result: CallbackResult<Seq<u8>>,
) -> Result<Option<Balance>, BridgeError> {
    if !self_call {
        Err(BridgeError::Unauthorized)
    } else {
        match result {
            CallbackResult::Successful(bytes) => match decoded_balance(bytes) {
                Some(balance) => Ok(Some(balance)),
                None => Err(BridgeError::InvalidBalance),
            },
            CallbackResult::Failed => Ok(None),
            CallbackResult::Exhausted => Err(BridgeError::ResourceExhausted),
        }
    }
}

/// The bytes that a finished call into a token contract returned, for a
/// balance callback: a call that did not succeed counts as failed.
pub open spec fn returned_bytes(result: CallbackResult<TransactionStatusView>) -> CallbackResult<
    Seq<u8>,
> {
    match result {
        CallbackResult::Successful(TransactionStatusView::Succeed(bytes)) => {
            CallbackResult::Successful(bytes)
        },
        CallbackResult::Successful(_) => CallbackResult::Failed,
        CallbackResult::Failed => CallbackResult::Failed,
        CallbackResult::Exhausted => CallbackResult::Exhausted,
    }
}

/// What the resolution callback returns for the token `token_id`.
pub open spec fn resolution_outcome(
    cache: MappingCache,
    self_call: bool,
    result: CallbackResult<RawAddress>,
    token_id: Seq<char>,
) -> Result<Seq<char>, BridgeError> {
    if !self_call {
        Err(BridgeError::Unauthorized)
    } else {
        match result {
            CallbackResult::Successful(raw) => if cache.admits(token_id, Address(raw)) {
                Ok(formatted_address(raw@))
            } else {
                Err(BridgeError::MappingConflict)
            },
            CallbackResult::Failed => Err(BridgeError::ResolutionFailed),
            CallbackResult::Exhausted => Err(BridgeError::ResourceExhausted),
        }
    }
}

/// A result with the promise inside it replaced by its view.
pub open spec fn promise_result_view(r: Result<Promise, BridgeError>) -> Result<
    PromiseView,
    BridgeError,
> {
    match r {
        Ok(p) => Ok(p@),
        Err(e) => Err(e),
    }
}

/// A result with the string inside it replaced by its view.
pub open spec fn string_result_view(r: Result<String, BridgeError>) -> Result<
    Seq<char>,
    BridgeError,
> {
    match r {
        Ok(s) => Ok(s@),
        Err(e) => Err(e),
    }
}

impl Contract {
    /// The cache of the contract.
    pub closed spec fn mappings(&self) -> MappingCache {
        self.cache
    }

    /// A contract that has resolved no token yet.
    pub fn new() -> (contract: Contract)
        ensures
            contract.mappings().wf(),
            contract.mappings()@ == Seq::<(Seq<char>, Address)>::empty(),
            forall|id: Seq<char>| contract.mappings().address_of(id) is None,
            forall|address: Address| contract.mappings().token_of(address) is None,
    {
        Contract { cache: MappingCache::new() }
    }

    /// A contract that has resolved what `cache` holds.
    pub fn from_cache(cache: MappingCache) -> (contract: Contract)
        ensures
            contract.mappings() == cache,
    {
        Contract { cache }
    }

    /// The cache of the contract.
    pub fn cache(&self) -> (cache: &MappingCache)
        ensures
            *cache == self.mappings(),
    {
        &self.cache
    }

    /// The callback `kind` on the contract's own account.
    fn callback(env: &CallContext, kind: CallbackKind, gas: Gas) -> (c: Callback)
        ensures
            c@ == (CallbackView {
                account: env.current_account_id@,
                kind: kind@,
                deposit: NO_DEPOSIT,
                gas,
            }),
    {
        Callback { account: env.current_account_id.clone(), kind, deposit: NO_DEPOSIT, gas }
    }

    /// The balance that a successful call returned in `bytes`.
    fn balance_of(bytes: &[u8]) -> (r: Result<Option<Balance>, BridgeError>)
        ensures
            r == match decoded_balance(bytes@) {
                Some(balance) => Ok::<Option<Balance>, BridgeError>(Some(balance)),
                None => Err::<Option<Balance>, BridgeError>(BridgeError::InvalidBalance),
            },
    {
        match balance_from_be(bytes) {
            Some(balance) => Ok(Some(balance)),
            None => Err(BridgeError::InvalidBalance),
        }
    }

    /// The address of the contract inside the engine, as text.
    pub fn near_address(&self, env: &CallContext) -> (text: String)
        ensures
            text@ == formatted_address(derived_address(env.current_account_id@)),
    {
        let address = near_account_to_evm_address(env.current_account_id.as_str());
        address_to_string(&address)
    }

    /// Asks the engine for the native balance of the contract; `on_balance`
    /// takes the answer.
    pub fn get_native_balance(&self, env: &CallContext) -> (p: Promise)
        ensures
            p@ == native_balance_request(env.current_account_id@),
    {
        let address = near_account_to_evm_address(env.current_account_id.as_str());
        get_balance(address).with_callback(Self::callback(env, CallbackKind::OnBalance, BALANCE_GAS))
    }

    /// Asks the token `token_id` for the balance of the contract;
    /// `on_near_erc20_token_balance` takes the answer. The token has to be
    /// resolved already.
    pub fn get_near_erc20_token_balance(&self, env: &CallContext, token_id: &str) -> (r: Result<
        Promise,
        BridgeError,
    >)
        ensures
            promise_result_view(r) == token_balance_request(
                self.mappings(),
                env.current_account_id@,
                token_id@,
            ),
    {
        let address = near_account_to_evm_address(env.current_account_id.as_str());
        match self.get_erc20_address(token_id) {
            Ok(token_address) => Ok(
                get_erc20_balance(token_address, address).with_callback(
                    Self::callback(env, CallbackKind::OnNearErc20TokenBalance, CALLBACK_GAS),
                ),
            ),
            Err(e) => Err(e),
        }
    }

    /// The address of the token `token_id`: at once where it is cached,
    /// else by a query to the engine whose answer `on_get_erc20_from_nep141`
    /// records. The cache is only read.
    pub fn fetch_erc20_token_address(&mut self, env: &CallContext, token_id: &str) -> (r:
        PromiseOrValue)
        ensures
            final(self).mappings()@ == old(self).mappings()@,
            final(self).mappings().extends(old(self).mappings()),
            r@ == fetch_outcome(old(self).mappings(), env.current_account_id@, token_id@),
    {
        match self.cache.lookup(token_id) {
            Some(address) => PromiseOrValue::Value(address_to_string(&address)),
            None => PromiseOrValue::Promise(
                get_erc20_from_nep141(token_id).with_callback(
                    Self::callback(
                        env,
                        CallbackKind::OnGetErc20FromNep141 {
                            token_id: String::from_str(token_id),
                        },
                        CALLBACK_GAS,
                    ),
                ),
            ),
        }
    }

    /// Has the token `token_id` move `amount` to the address written in
    /// `receiver`. Only the contract itself may ask for this, and only for a
    /// token that is resolved already. The cache is only read.
    pub fn erc20_transfer(
        &mut self,
        env: &CallContext,
        token_id: &str,
        receiver: &str,
        amount: Balance,
    ) -> (r: Result<Promise, BridgeError>)
        ensures
            final(self).mappings()@ == old(self).mappings()@,
            final(self).mappings().extends(old(self).mappings()),
            promise_result_view(r) == transfer_outcome(
                old(self).mappings(),
                env.is_self_call(),
                token_id@,
                receiver@,
                amount,
            ),
    {
        if !env.called_by_self() {
            return Err(BridgeError::Unauthorized);
        }
        let token_address = match self.get_erc20_address(token_id) {
            Ok(a) => a,
            Err(e) => {
                return Err(e);
            },
        };
        let receiver = match parse_address(receiver) {
            Ok(a) => a,
            Err(e) => {
                return Err(e);
            },
        };
        Ok(erc20_transfer_balance(token_address, receiver, amount))
    }

    /// The cached address of the token `token_id`; no query is made where
    /// there is none.
    pub fn get_erc20_address(&self, token_id: &str) -> (r: Result<Address, BridgeError>)
        ensures
            r == match self.mappings().address_of(token_id@) {
                Some(address) => Ok::<Address, BridgeError>(address),
                None => Err::<Address, BridgeError>(BridgeError::UnresolvedMapping),
            },
    {
        match self.cache.lookup(token_id) {
            Some(address) => Ok(address),
            None => Err(BridgeError::UnresolvedMapping),
        }
    }

    /// Takes the answer to `get_native_balance`.
    pub fn on_balance(&self, env: &CallContext, balance: CallbackResult<RawU256>) -> (r: Result<
        Option<Balance>,
        BridgeError,
    >)
        ensures
            r == balance_outcome(
                env.is_self_call(),
                match balance {
                    CallbackResult::Successful(word) => CallbackResult::Successful(word@),
                    CallbackResult::Failed => CallbackResult::Failed,
                    CallbackResult::Exhausted => CallbackResult::Exhausted,
                },
            ),
    {
        if !env.called_by_self() {
            return Err(BridgeError::Unauthorized);
        }
        match balance {
            CallbackResult::Successful(word) => Self::balance_of(word.as_slice()),
            CallbackResult::Failed => Ok(None),
            CallbackResult::Exhausted => Err(BridgeError::ResourceExhausted),
        }
    }

    /// Takes the answer to `get_near_erc20_token_balance`.
    pub fn on_near_erc20_token_balance(
        &self,
        env: &CallContext,
        tx_result: CallbackResult<TransactionStatus>,
    ) -> (r: Result<Option<Balance>, BridgeError>)
        ensures
            r == balance_outcome(
                env.is_self_call(),
                returned_bytes(
                    match tx_result {
                        CallbackResult::Successful(status) => CallbackResult::Successful(status@),
                        CallbackResult::Failed => CallbackResult::Failed,
                        CallbackResult::Exhausted => CallbackResult::Exhausted,
                    },
                ),
            ),
    {
        if !env.called_by_self() {
            return Err(BridgeError::Unauthorized);
        }
        match tx_result {
            CallbackResult::Successful(status) => match status.into_result() {
                Ok(res) => Self::balance_of(res.as_slice()),
                Err(_) => Ok(None),
            },
            CallbackResult::Failed => Ok(None),
            CallbackResult::Exhausted => Err(BridgeError::ResourceExhausted),
        }
    }

    /// Takes the answer to the query that `fetch_erc20_token_address` made
    /// for `token_id`, records it and returns the address as text.
    ///
    /// Nothing is written unless the call succeeded and the pair fits the
    /// cache; what was cached before stays as it was.
    pub fn on_get_erc20_from_nep141(
        &mut self,
        env: &CallContext,
        token_address: CallbackResult<RawAddress>,
        token_id: String,
    ) -> (r: Result<String, BridgeError>)
        ensures
            string_result_view(r) == resolution_outcome(
                old(self).mappings(),
                env.is_self_call(),
                token_address,
                token_id@,
            ),
            r is Err ==> final(self).mappings()@ == old(self).mappings()@,
            r is Ok ==> (token_address matches CallbackResult::Successful(raw) && {
                &&& final(self).mappings().by_id() == old(self).mappings().by_id().insert(
                    token_id@,
                    Address(raw),
                )
                &&& final(self).mappings().by_address() == old(self).mappings().by_address().insert(
                    Address(raw),
                    token_id@,
                )
                &&& final(self).mappings().address_of(token_id@) == Some(Address(raw))
                &&& final(self).mappings().token_of(Address(raw)) == Some(token_id@)
            }),
            final(self).mappings().extends(old(self).mappings()),
    {
        if !env.called_by_self() {
            return Err(BridgeError::Unauthorized);
        }
        match token_address {
            CallbackResult::Successful(raw) => {
                let address = Address(raw);
                match self.cache.insert(token_id, address) {
                    Ok(()) => Ok(address_to_string(&address)),
                    Err(e) => Err(e),
                }
            },
            CallbackResult::Failed => Err(BridgeError::ResolutionFailed),
            CallbackResult::Exhausted => Err(BridgeError::ResourceExhausted),
        }
    }
}

/// A balance callback of the contract returns a balance exactly when the
/// call succeeded with bytes that are one, and the balance is their value;
/// it returns nothing exactly when the call failed.
pub proof fn lemma_balance_is_present_on_success(result: CallbackResult<Seq<u8>>)
    ensures
        balance_outcome(true, result) matches Ok(Some(balance)) ==> (result
            matches CallbackResult::Successful(bytes) && decoded_balance(bytes) == Some(balance)),
        balance_outcome(true, result) == Ok::<Option<Balance>, BridgeError>(None) <==> result
            is Failed,
{
}

/// A token that is cached is answered from the cache: asking for its address
/// gives the address at once and schedules no call.
pub proof fn lemma_cached_token_needs_no_call(
    cache: MappingCache,
    account: Seq<char>,
    token_id: Seq<char>,
    address: Address,
)
    requires
        cache.by_id().contains_pair(token_id, address),
    ensures
        fetch_outcome(cache, account, token_id) == PromiseOrValueView::Value(
            formatted_address(address@),
        ),
{
}

/// Once a resolution has been recorded, asking for the token again gives its
/// address at once, whatever has been recorded since.
pub proof fn lemma_resolved_token_needs_no_call(
    before: MappingCache,
    recorded: MappingCache,
    later: MappingCache,
    account: Seq<char>,
    token_id: Seq<char>,
    address: Address,
)
    requires
        recorded.by_id() == before.by_id().insert(token_id, address),
        later.extends(recorded),
    ensures
        fetch_outcome(later, account, token_id) == PromiseOrValueView::Value(
            formatted_address(address@),
        ),
{
    assert(recorded.by_id().contains_pair(token_id, address));
    assert(later.by_id().contains_pair(token_id, address));
}

} // verus!
