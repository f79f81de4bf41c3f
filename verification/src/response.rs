//! What the contract hands back to the chain: sub-messages to dispatch.
use vstd::prelude::*;

verus! {

/// An amount of one denomination.
#[derive(Clone, Debug, PartialEq, Eq)]
pub struct Coin {
    pub denom: String,
    pub amount: u128,
}

/// When the chain calls the contract back about a sub-message.
#[derive(Clone, Copy, Debug, PartialEq, Eq)]
pub enum ReplyOn {
    Always,
    Error,
    Success,
    Never,
}

/// A message to another module or contract.
#[derive(Clone, Debug, PartialEq, Eq)]
pub enum CosmosMsg {
    /// Send coins to an address.
    BankSend { to_address: String, amount: Vec<Coin> },
    /// Execute a contract with a JSON message.
    WasmExecute { contract_addr: String, msg: Vec<u8>, funds: Vec<Coin> },
    /// Instantiate a contract from stored code with a JSON message.
    WasmInstantiate {
        admin: Option<String>,
        code_id: u64,
        msg: Vec<u8>,
        funds: Vec<Coin>,
        label: String,
    },
}

/// A message dispatched after the contract's own execution.
#[derive(Clone, Debug, PartialEq, Eq)]
pub struct SubMsg {
    pub id: u64,
    pub msg: CosmosMsg,
    pub gas_limit: Option<u64>,
    pub reply_on: ReplyOn,
}

/// The result of a successful execution: the sub-messages, in order.
#[derive(Clone, Debug, PartialEq, Eq)]
pub struct Response {
    pub messages: Vec<SubMsg>,
}

pub struct CoinView {
    pub denom: Seq<char>,
    pub amount: u128,
}

pub enum CosmosMsgView {
    BankSend { to_address: Seq<char>, amount: Seq<CoinView> },
    WasmExecute { contract_addr: Seq<char>, msg: Seq<u8>, funds: Seq<CoinView> },
    WasmInstantiate {
        admin: Option<Seq<char>>,
        code_id: u64,
        msg: Seq<u8>,
        funds: Seq<CoinView>,
        label: Seq<char>,
    },
}

pub struct SubMsgView {
    pub id: u64,
    pub msg: CosmosMsgView,
    pub gas_limit: Option<u64>,
    pub reply_on: ReplyOn,
}

impl View for Coin {
    type V = CoinView;

    open spec fn view(&self) -> CoinView {
        CoinView { denom: self.denom@, amount: self.amount }
    }
}

pub open spec fn coins_view(coins: Seq<Coin>) -> Seq<CoinView> {
    coins.map_values(|c: Coin| c@)
}

impl View for CosmosMsg {
    type V = CosmosMsgView;

    open spec fn view(&self) -> CosmosMsgView {
        match self {
            CosmosMsg::BankSend { to_address, amount } => CosmosMsgView::BankSend {
                to_address: to_address@,
                amount: coins_view(amount@),
            },
            CosmosMsg::WasmExecute { contract_addr, msg, funds } => CosmosMsgView::WasmExecute {
                contract_addr: contract_addr@,
                msg: msg@,
                funds: coins_view(funds@),
            },
            CosmosMsg::WasmInstantiate { admin, code_id, msg, funds, label } => {
                CosmosMsgView::WasmInstantiate {
                    admin: match admin {
                        Some(a) => Some(a@),
                        None => None,
                    },
                    code_id: *code_id,
                    msg: msg@,
                    funds: coins_view(funds@),
                    label: label@,
                }
            },
        }
    }
}

impl View for SubMsg {
    type V = SubMsgView;

    open spec fn view(&self) -> SubMsgView {
        SubMsgView { id: self.id, msg: self.msg@, gas_limit: self.gas_limit, reply_on: self.reply_on }
    }
}

impl View for Response {
    type V = Seq<SubMsgView>;

    open spec fn view(&self) -> Seq<SubMsgView> {
        self.messages@.map_values(|m: SubMsg| m@)
    }
}

/// A response with no sub-messages.
pub fn empty_response() -> (r: Response)
    ensures
        r@ == Seq::<SubMsgView>::empty(),
{
    let r = Response { messages: Vec::new() };
    assert(r@ =~= Seq::<SubMsgView>::empty());
    r
}

/// The sub-message that executes `contract_addr` with `msg` and no funds,
/// with id 0, calling back only when it fails.
pub open spec fn execute_on_error(contract_addr: Seq<char>, msg: Seq<u8>) -> SubMsgView {
    SubMsgView {
        id: 0,
        msg: CosmosMsgView::WasmExecute { contract_addr, msg, funds: Seq::empty() },
        gas_limit: None,
        reply_on: ReplyOn::Error,
    }
}

/// Builds the sub-message that executes `contract_addr` with `msg` and no
/// funds, with id 0, calling back only when it fails.
pub fn wasm_execute_submsg(contract_addr: String, msg: Vec<u8>) -> (m: SubMsg)
    ensures
        m@ == execute_on_error(contract_addr@, msg@),
{
    let funds: Vec<Coin> = Vec::new();
    let m = SubMsg {
        id: 0,
        msg: CosmosMsg::WasmExecute { contract_addr, msg, funds },
        gas_limit: None,
        reply_on: ReplyOn::Error,
    };
    assert(coins_view(funds@) =~= Seq::<CoinView>::empty());
    m
}

} // verus!
