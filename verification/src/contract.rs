//! The factory's entry points: what each request does to the state, and
//! what it answers.
use std::collections::BTreeMap;
use std::collections::HashMap;
use vstd::prelude::*;
use vstd::string::*;

use crate::error::{ContractError, QueryError};
use crate::external::{
    cw721_instantiate_json, cw721_mint_json, cw721_transfer_json, decode_instantiate_response,
    encode_cw721_instantiate, encode_cw721_mint, encode_cw721_transfer,
    instantiated_contract_address,
};
use crate::msg::{
    CancelTaskPara, CreateTaskPara, ExecuteMsg, FactoryView, GetStoryIdResp, PublishNftMsg,
    QueryMsg, QueryResponse, Story, StoryFactory, StoryNft, Submit, Task, UpdateTaskPara,
    WithdrawTaskSubmitPara,
};
use crate::response::{
    coins_view, empty_response, execute_on_error, wasm_execute_submsg, Coin, CoinView, CosmosMsg,
    CosmosMsgView, ReplyOn, Response, SubMsg, SubMsgView,
};
use crate::text::{
    decimal, i32_to_string, push_char, push_signed_decimal, signed_decimal, split_commas,
    split_commas_exec, u64_to_string,
};

verus! {

broadcast use {
    vstd::std_specs::hash::group_hash_axioms,
    vstd::std_specs::btree::group_btree_axioms,
    vstd::laws_cmp::group_laws_cmp,
};

// ---------------------------------------------------------------------------
// Fixed texts and numbers
// ---------------------------------------------------------------------------

/// The code id of the NFT contract that a story's collection instantiates.
pub const NFT_CODE_ID: u64 = 10;

pub open spec fn todo_status() -> Seq<char> {
    seq!['T', 'O', 'D', 'O']
}

pub open spec fn cancelled_status() -> Seq<char> {
    seq!['C', 'A', 'N', 'C', 'E', 'L', 'L', 'E', 'D']
}

pub open spec fn done_status() -> Seq<char> {
    seq!['D', 'O', 'N', 'E']
}

pub open spec fn pending_status() -> Seq<char> {
    seq!['P', 'E', 'N', 'D', 'I', 'N', 'G']
}

pub open spec fn withdrawn_status() -> Seq<char> {
    seq!['W', 'I', 'T', 'H', 'D', 'R', 'A', 'W', 'E', 'D']
}

pub open spec fn approved_status() -> Seq<char> {
    seq!['A', 'P', 'P', 'R', 'O', 'V', 'E', 'D']
}

/// The denomination that NFTs are paid in.
pub open spec fn fee_denom() -> Seq<char> {
    seq!['u', 'd', 's', 'm']
}

/// The label of an instantiated NFT contract.
pub open spec fn nft_label() -> Seq<char> {
    seq!['S', 't', 'o', 'r', 'y', ' ', 'N', 'F', 'T']
}

fn status_todo() -> (s: String)
    ensures
        s@ == todo_status(),
{
    proof {
        reveal_strlit("TODO");
    }
    String::from_str("TODO")
}

fn status_cancelled() -> (s: String)
    ensures
        s@ == cancelled_status(),
{
    proof {
        reveal_strlit("CANCELLED");
    }
    String::from_str("CANCELLED")
}

fn status_done() -> (s: String)
    ensures
        s@ == done_status(),
{
    proof {
        reveal_strlit("DONE");
    }
    String::from_str("DONE")
}

fn status_pending() -> (s: String)
    ensures
        s@ == pending_status(),
{
    proof {
        reveal_strlit("PENDING");
    }
    String::from_str("PENDING")
}

fn status_withdrawn() -> (s: String)
    ensures
        s@ == withdrawn_status(),
{
    proof {
        reveal_strlit("WITHDRAWED");
    }
    String::from_str("WITHDRAWED")
}

fn status_approved() -> (s: String)
    ensures
        s@ == approved_status(),
{
    proof {
        reveal_strlit("APPROVED");
    }
    String::from_str("APPROVED")
}

fn fee_denom_string() -> (s: String)
    ensures
        s@ == fee_denom(),
{
    proof {
        reveal_strlit("udsm");
    }
    String::from_str("udsm")
}

fn nft_label_string() -> (s: String)
    ensures
        s@ == nft_label(),
{
    proof {
        reveal_strlit("Story NFT");
    }
    String::from_str("Story NFT")
}

// ---------------------------------------------------------------------------
// Copies of records
// ---------------------------------------------------------------------------

fn copy_story(s: &Story) -> (r: Story)
    ensures
        r == *s,
{
    Story { story_id: s.story_id, author: s.author.clone(), post_id: s.post_id.clone() }
}

fn copy_nft_info(m: &PublishNftMsg) -> (r: PublishNftMsg)
    ensures
        r == *m,
{
    PublishNftMsg {
        story_id: m.story_id,
        name: m.name.clone(),
        image: m.image.clone(),
        description: m.description.clone(),
        uri_prefix: m.uri_prefix.clone(),
        token: m.token.clone(),
        price: m.price,
        total: m.total,
        author_reserve: m.author_reserve,
    }
}

fn copy_story_nft(n: &StoryNft) -> (r: StoryNft)
    ensures
        r == *n,
{
    StoryNft {
        nft_info: copy_nft_info(&n.nft_info),
        author: n.author.clone(),
        sold: n.sold,
        author_claimed: n.author_claimed,
    }
}

// ---------------------------------------------------------------------------
// Instantiation and queries
// ---------------------------------------------------------------------------

/// The state of a freshly instantiated factory: no records, and story ids
/// starting at 1.
pub open spec fn initial_factory() -> FactoryView {
    FactoryView {
        next_story_id: 1,
        stories: Map::empty(),
        story_nft: Map::empty(),
        nft_contracts: Map::empty(),
        story_task_id: Map::empty(),
        story_tasks: Map::empty(),
        task_submits: Map::empty(),
    }
}

/// Creates the factory's initial state.
pub fn instantiate() -> (s: StoryFactory)
    ensures
        s@ == initial_factory(),
        s@.wf(),
{
    StoryFactory {
        next_story_id: 1,
        stories: HashMap::new(),
        story_nft: HashMap::new(),
        nft_contracts: HashMap::new(),
        story_task_id: HashMap::new(),
        story_tasks: BTreeMap::new(),
        task_submits: BTreeMap::new(),
    }
}

/// The id that the next published story will get.
pub fn get_next_story_id(state: &StoryFactory) -> (r: GetStoryIdResp)
    ensures
        r.story_id == state@.next_story_id,
{
    GetStoryIdResp { story_id: state.next_story_id }
}

/// What a query for a story answers.
pub open spec fn story_info_result(s: FactoryView, story_id: u64) -> Result<Story, QueryError> {
    if s.stories.contains_key(story_id) {
        Ok(s.stories[story_id])
    } else {
        Err(QueryError::StoryNotFound)
    }
}

/// The story under `story_id`.
pub fn get_story_info(state: &StoryFactory, story_id: u64) -> (r: Result<Story, QueryError>)
    ensures
        r == story_info_result(state@, story_id),
{
    match state.stories.get(&story_id) {
        Some(story_info) => Ok(copy_story(story_info)),
        None => Err(QueryError::StoryNotFound),
    }
}

/// What a query for a story's NFT contract answers.
pub open spec fn nft_address_result(s: FactoryView, story_id: u64) -> Result<String, QueryError> {
    if s.nft_contracts.contains_key(story_id) {
        Ok(s.nft_contracts[story_id])
    } else {
        Err(QueryError::StoryNftNotFound)
    }
}

/// The address of the NFT contract instantiated for `story_id`.
pub fn get_nft_address(state: &StoryFactory, story_id: u64) -> (r: Result<String, QueryError>)
    ensures
        r == nft_address_result(state@, story_id),
{
    match state.nft_contracts.get(&story_id) {
        Some(nft_addr) => Ok(nft_addr.clone()),
        None => Err(QueryError::StoryNftNotFound),
    }
}

/// What a query for a story's NFT sale answers.
pub open spec fn nft_sale_result(s: FactoryView, story_id: u64) -> Result<StoryNft, QueryError> {
    if s.story_nft.contains_key(story_id) {
        Ok(s.story_nft[story_id])
    } else {
        Err(QueryError::StoryNftNotFound)
    }
}

/// The NFT sale of `story_id`.
pub fn get_nft_sale(state: &StoryFactory, story_id: u64) -> (r: Result<StoryNft, QueryError>)
    ensures
        r == nft_sale_result(state@, story_id),
{
    match state.story_nft.get(&story_id) {
        Some(nft_sale) => Ok(copy_story_nft(nft_sale)),
        None => Err(QueryError::StoryNftNotFound),
    }
}

/// What a query answers.
pub open spec fn query_result(s: FactoryView, msg: QueryMsg) -> Result<QueryResponse, QueryError> {
    match msg {
        QueryMsg::GetNextStoryId {} => Ok(QueryResponse::NextStoryId(GetStoryIdResp { story_id: s.next_story_id })),
        QueryMsg::GetStoryInfo { story_id } => match story_info_result(s, story_id) {
            Ok(story) => Ok(QueryResponse::StoryInfo(story)),
            Err(e) => Err(e),
        },
        QueryMsg::GetNftAddress { story_id } => match nft_address_result(s, story_id) {
            Ok(a) => Ok(QueryResponse::NftAddress(a)),
            Err(e) => Err(e),
        },
        QueryMsg::GetNftSale { story_id } => match nft_sale_result(s, story_id) {
            Ok(n) => Ok(QueryResponse::NftSale(n)),
            Err(e) => Err(e),
        },
    }
}

/// Answers a query.
pub fn query(state: &StoryFactory, msg: QueryMsg) -> (r: Result<QueryResponse, QueryError>)
    ensures
        r == query_result(state@, msg),
{
    match msg {
        QueryMsg::GetNextStoryId {} => Ok(QueryResponse::NextStoryId(get_next_story_id(state))),
        QueryMsg::GetStoryInfo { story_id } => match get_story_info(state, story_id) {
            Ok(story) => Ok(QueryResponse::StoryInfo(story)),
            Err(e) => Err(e),
        },
        QueryMsg::GetNftAddress { story_id } => match get_nft_address(state, story_id) {
            Ok(a) => Ok(QueryResponse::NftAddress(a)),
            Err(e) => Err(e),
        },
        QueryMsg::GetNftSale { story_id } => match get_nft_sale(state, story_id) {
            Ok(n) => Ok(QueryResponse::NftSale(n)),
            Err(e) => Err(e),
        },
    }
}

// ---------------------------------------------------------------------------
// Stories
// ---------------------------------------------------------------------------

/// What publishing a story does: the story gets the next id, with the sender
/// as its author, and the next id moves on by one.
pub open spec fn publish_story_post(old: FactoryView, new: FactoryView, sender: String, post_id: String, r: Result<Response, ContractError>) -> bool {
    &&& new == FactoryView {
        next_story_id: (old.next_story_id + 1) as u64,
        stories: old.stories.insert(old.next_story_id, Story { story_id: old.next_story_id, author: sender, post_id }),
        ..old
    }
    &&& r matches Ok(resp) && resp@ == Seq::<SubMsgView>::empty()
}

/// Publishes a story by the sender.
pub fn publish_story(state: &mut StoryFactory, sender: String, post_id: String) -> (r: Result<Response, ContractError>)
    requires
        old(state).next_story_id < u64::MAX,
    ensures
        publish_story_post(old(state)@, final(state)@, sender, post_id, r),
        old(state)@.wf() ==> final(state)@.wf(),
{
    let story_id = state.next_story_id;
    let new_story = Story { story_id, author: sender, post_id };
    state.stories.insert(story_id, new_story);
    state.next_story_id = story_id + 1;
    Ok(empty_response())
}

// ---------------------------------------------------------------------------
// NFT sales
// ---------------------------------------------------------------------------

/// Changing the counters of an existing sale keeps the factory consistent.
proof fn lemma_sale_update_keeps_wf(s: FactoryView, k: u64, v: StoryNft)
    requires
        s.wf(),
        s.story_nft.contains_key(k),
        v.author == s.story_nft[k].author,
        v.nft_info.story_id == s.story_nft[k].nft_info.story_id,
    ensures
        (FactoryView { story_nft: s.story_nft.insert(k, v), ..s }).wf(),
{
}

/// Opening a sale of an existing story, with its author, keeps the factory
/// consistent.
proof fn lemma_new_sale_keeps_wf(s: FactoryView, k: u64, v: StoryNft)
    requires
        s.wf(),
        s.stories.contains_key(k),
        v.author == s.stories[k].author,
        v.nft_info.story_id == k,
    ensures
        (FactoryView { story_nft: s.story_nft.insert(k, v), ..s }).wf(),
{
}

/// The URI of token number `n` of a collection whose URIs start with `prefix`.
pub open spec fn token_uri(prefix: Seq<char>, n: int) -> Seq<char> {
    prefix + seq!['/'] + signed_decimal(n) + seq!['.', 'j', 's', 'o', 'n']
}

/// Builds the URI of token number `n` of a collection.
pub fn build_token_uri(prefix: &String, n: i32) -> (s: String)
    ensures
        s@ == token_uri(prefix@, n as int),
{
    let mut s = prefix.clone();
    push_char(&mut s, '/');
    push_signed_decimal(&mut s, n as i64);
    push_char(&mut s, '.');
    push_char(&mut s, 'j');
    push_char(&mut s, 's');
    push_char(&mut s, 'o');
    push_char(&mut s, 'n');
    assert(s@ =~= token_uri(prefix@, n as int));
    s
}

/// Whether a sale has no token left: the tokens sold and claimed reach the total.
pub open spec fn sold_out(n: StoryNft) -> bool {
    n.nft_info.total <= n.sold + n.author_claimed
}

/// Whether the funds hold a coin of exactly `price` in the fee denomination.
pub open spec fn pays_price(funds: Seq<Coin>, price: int) -> bool {
    exists|i: int| 0 <= i < funds.len() && (#[trigger] funds[i]).denom@ == fee_denom() && funds[i].amount == price
}

/// Whether `funds` holds a coin equal to `fee`.
fn holds_coin(funds: &Vec<Coin>, fee: &Coin) -> (b: bool)
    ensures
        b == (exists|i: int| 0 <= i < funds@.len() && (#[trigger] funds@[i]).denom@ == fee.denom@ && funds@[i].amount == fee.amount),
{
    let mut i: usize = 0;
    while i < funds.len()
        invariant
            i <= funds@.len(),
            forall|j: int| 0 <= j < i ==> !((#[trigger] funds@[j]).denom@ == fee.denom@ && funds@[j].amount == fee.amount),
        decreases funds@.len() - i,
    {
        if funds[i].amount == fee.amount && funds[i].denom == fee.denom {
            return true;
        }
        i = i + 1;
    }
    false
}

/// The payment of one token of `n` to its author.
pub open spec fn fee_transfer(n: StoryNft) -> SubMsgView {
    SubMsgView {
        id: 0,
        msg: CosmosMsgView::BankSend {
            to_address: n.author@,
            amount: seq![CoinView { denom: fee_denom(), amount: n.nft_info.price as u128 }],
        },
        gas_limit: None,
        reply_on: ReplyOn::Never,
    }
}

/// The number of the token that the next mint of `n` creates.
pub open spec fn next_token_number(n: StoryNft) -> int {
    n.author_claimed + n.sold + 1
}

/// The message that mints token number `k` of a collection to `owner`.
pub open spec fn mint_submsg(nft_addr: Seq<char>, owner: Seq<char>, prefix: Seq<char>, k: int) -> SubMsgView {
    execute_on_error(nft_addr, cw721_mint_json(signed_decimal(k), owner, token_uri(prefix, k)))
}

/// The inputs on which minting a story's NFT panics: the sums of its
/// counters overflow, or its price does not convert to an amount.
pub open spec fn mint_story_nft_panics(s: FactoryView, funds: Seq<Coin>, story_id: u64) -> bool {
    &&& s.story_nft.contains_key(story_id)
    &&& {
        let n = s.story_nft[story_id];
        ||| !(i32::MIN <= n.sold + n.author_claimed <= i32::MAX)
        ||| !sold_out(n) && n.nft_info.price < 0
        ||| !sold_out(n) && pays_price(funds, n.nft_info.price as int) && n.sold == i32::MAX
    }
}

/// What minting one of a story's NFTs does. A sale that is missing or sold
/// out, or funds without the exact price, are refused with nothing changed.
/// Otherwise one more token counts as sold; then, if the story has no NFT
/// contract, the request is refused with that count kept; else the answer
/// pays the price to the author and mints the next token to the sender.
pub open spec fn mint_story_nft_post(old: FactoryView, new: FactoryView, sender: Seq<char>, funds: Seq<Coin>, story_id: u64, r: Result<Response, ContractError>) -> bool {
    if !old.story_nft.contains_key(story_id) {
        new == old && r == Err::<Response, ContractError>(ContractError::StoryNftNotFound { story_id })
    } else {
        let n = old.story_nft[story_id];
        if sold_out(n) {
            new == old && r == Err::<Response, ContractError>(ContractError::StoryNftSoldOut { story_id })
        } else if !pays_price(funds, n.nft_info.price as int) {
            new == old && r == Err::<Response, ContractError>(ContractError::PayNotEnough {})
        } else {
            &&& new == FactoryView {
                story_nft: old.story_nft.insert(story_id, StoryNft { sold: (n.sold + 1) as i32, ..n }),
                ..old
            }
            &&& if !old.nft_contracts.contains_key(story_id) {
                r == Err::<Response, ContractError>(ContractError::StoryNftNotFound { story_id })
            } else {
                r matches Ok(resp) && resp@ == seq![
                    fee_transfer(n),
                    mint_submsg(old.nft_contracts[story_id]@, sender, n.nft_info.uri_prefix@, next_token_number(n)),
                ]
            }
        }
    }
}

/// Mints one NFT of a story to the sender, against the price in `funds`.
pub fn mint_story_nft(state: &mut StoryFactory, sender: String, funds: Vec<Coin>, story_id: u64) -> (r: Result<Response, ContractError>)
    requires
        !mint_story_nft_panics(old(state)@, funds@, story_id),
    ensures
        mint_story_nft_post(old(state)@, final(state)@, sender@, funds@, story_id, r),
        old(state)@.wf() ==> final(state)@.wf(),
{
    let ghost n0 = state@.story_nft[story_id];
    let (transfer_sub, token_id, token_uri, updated) = match state.story_nft.get(&story_id) {
        None => {
            return Err(ContractError::StoryNftNotFound { story_id });
        },
        Some(n) => {
            if n.nft_info.total <= n.sold + n.author_claimed {
                return Err(ContractError::StoryNftSoldOut { story_id });
            }
            let fee_amount = Coin { amount: n.nft_info.price as u128, denom: fee_denom_string() };
            if !holds_coin(&funds, &fee_amount) {
                return Err(ContractError::PayNotEnough {});
            }
            let amount = vec![fee_amount];
            assert(coins_view(amount@) =~= seq![CoinView { denom: fee_denom(), amount: n0.nft_info.price as u128 }]);
            let transfer_msg = CosmosMsg::BankSend { to_address: n.author.clone(), amount };
            let transfer_sub = SubMsg { id: 0, msg: transfer_msg, gas_limit: None, reply_on: ReplyOn::Never };
            let number = (n.author_claimed + n.sold) + 1;
            let token_id = i32_to_string(number);
            let token_uri = build_token_uri(&n.nft_info.uri_prefix, number);
            let updated = StoryNft {
                sold: n.sold + 1,
                author_claimed: n.author_claimed,
                nft_info: copy_nft_info(&n.nft_info),
                author: n.author.clone(),
            };
            assert(transfer_sub@ == fee_transfer(n0));
            (transfer_sub, token_id, token_uri, updated)
        },
    };
    state.story_nft.insert(story_id, updated);
    proof {
        if old(state)@.wf() {
            lemma_sale_update_keeps_wf(old(state)@, story_id, updated);
        }
    }
    let nft_addr = match state.nft_contracts.get(&story_id) {
        Some(nft_address) => nft_address.clone(),
        None => {
            return Err(ContractError::StoryNftNotFound { story_id });
        },
    };
    let mint_msg = encode_cw721_mint(token_id, sender, token_uri).unwrap();
    let mint_sub = wasm_execute_submsg(nft_addr, mint_msg);
    let messages = vec![transfer_sub, mint_sub];
    let resp = Response { messages };
    assert(resp@ =~= seq![
        fee_transfer(n0),
        mint_submsg(old(state)@.nft_contracts[story_id]@, sender@, n0.nft_info.uri_prefix@, next_token_number(n0)),
    ]);
    Ok(resp)
}

/// The messages that mint `count` tokens of a collection to `owner`, numbered
/// on from `base + 1` (none when `count` is not positive).
pub open spec fn reserved_mints(nft_addr: Seq<char>, owner: Seq<char>, prefix: Seq<char>, base: int, count: int) -> Seq<SubMsgView> {
    Seq::new(if count > 0 { count as nat } else { 0 }, |i: int| mint_submsg(nft_addr, owner, prefix, base + i + 1))
}

/// The inputs on which claiming reserved NFTs panics: a sum of the sale's
/// counters, or of the claimed count and `mint_num`, overflows.
pub open spec fn claim_author_reserved_nft_panics(s: FactoryView, sender: Seq<char>, story_id: u64, mint_num: i32) -> bool {
    &&& s.nft_contracts.contains_key(story_id)
    &&& s.story_nft.contains_key(story_id)
    &&& s.story_nft[story_id].author@ == sender
    &&& {
        let n = s.story_nft[story_id];
        ||| !(i32::MIN <= n.sold + n.author_claimed <= i32::MAX)
        ||| !sold_out(n) && mint_num > 0 && n.sold + n.author_claimed + mint_num > i32::MAX
        ||| !sold_out(n) && !(i32::MIN <= n.author_claimed + mint_num <= i32::MAX)
    }
}

/// What the author's claim of `mint_num` reserved NFTs does. Without an NFT
/// contract or a sale, from anyone but the author, or on a sold-out sale it
/// is refused with nothing changed. Otherwise the claimed count grows by
/// `mint_num` and the answer mints that many tokens to the author, numbered
/// on from the tokens sold and claimed so far.
pub open spec fn claim_author_reserved_nft_post(old: FactoryView, new: FactoryView, sender: String, story_id: u64, mint_num: i32, r: Result<Response, ContractError>) -> bool {
    if !old.nft_contracts.contains_key(story_id) || !old.story_nft.contains_key(story_id) {
        new == old && r == Err::<Response, ContractError>(ContractError::StoryNftNotFound { story_id })
    } else {
        let n = old.story_nft[story_id];
        if n.author@ != sender@ {
            new == old && r == Err::<Response, ContractError>(ContractError::Unauthorized { sender })
        } else if sold_out(n) {
            new == old && r == Err::<Response, ContractError>(ContractError::StoryNftSoldOut { story_id })
        } else {
            {
                &&& new == FactoryView {
                    story_nft: old.story_nft.insert(story_id, StoryNft { author_claimed: (n.author_claimed + mint_num) as i32, ..n }),
                    ..old
                }
                &&& r matches Ok(resp) && resp@ == reserved_mints(
                    old.nft_contracts[story_id]@,
                    sender@,
                    n.nft_info.uri_prefix@,
                    n.author_claimed + n.sold,
                    mint_num as int,
                )
            }
        }
    }
}

/// Mints `mint_num` of a story's reserved NFTs to its author.
pub fn claim_author_reserved_nft(state: &mut StoryFactory, sender: String, story_id: u64, mint_num: i32) -> (r: Result<Response, ContractError>)
    requires
        !claim_author_reserved_nft_panics(old(state)@, sender@, story_id, mint_num),
    ensures
        claim_author_reserved_nft_post(old(state)@, final(state)@, sender, story_id, mint_num, r),
        old(state)@.wf() ==> final(state)@.wf(),
{
    let nft_addr = match state.nft_contracts.get(&story_id) {
        Some(nft_address) => nft_address.clone(),
        None => {
            return Err(ContractError::StoryNftNotFound { story_id });
        },
    };
    let ghost n0 = state@.story_nft[story_id];
    let (sub_msgs, updated) = match state.story_nft.get(&story_id) {
        None => {
            return Err(ContractError::StoryNftNotFound { story_id });
        },
        Some(n) => {
            if n.author != sender {
                return Err(ContractError::Unauthorized { sender });
            }
            if n.nft_info.total <= n.sold + n.author_claimed {
                return Err(ContractError::StoryNftSoldOut { story_id });
            }
            let base = n.author_claimed + n.sold;
            let prefix = &n.nft_info.uri_prefix;
            let mut sub_msgs: Vec<SubMsg> = Vec::new();
            let mut i: i32 = 0;
            while i < mint_num
                invariant
                    state@ == old(state)@,
                    old(state)@.nft_contracts.contains_key(story_id),
                    old(state)@.nft_contracts[story_id] == nft_addr,
                    old(state)@.story_nft.contains_key(story_id),
                    n0 == old(state)@.story_nft[story_id],
                    *n == n0,
                    n0.author@ == sender@,
                    !sold_out(n0),
                    0 <= i,
                    mint_num > 0 ==> i <= mint_num,
                    mint_num <= 0 ==> i == 0,
                    base == n0.author_claimed + n0.sold,
                    mint_num > 0 ==> base + mint_num <= i32::MAX,
                    prefix@ == n0.nft_info.uri_prefix@,
                    sub_msgs@.len() == i,
                    forall|j: int| 0 <= j < i ==> (#[trigger] sub_msgs@[j])@ == mint_submsg(nft_addr@, sender@, prefix@, base + j + 1),
                decreases mint_num - i,
            {
                let number = base + i + 1;
                let token_id = i32_to_string(number);
                let token_uri = build_token_uri(prefix, number);
                let mint_msg = encode_cw721_mint(token_id, sender.clone(), token_uri).unwrap();
                sub_msgs.push(wasm_execute_submsg(nft_addr.clone(), mint_msg));
                i = i + 1;
            }
            let updated = StoryNft {
                sold: n.sold,
                author_claimed: n.author_claimed + mint_num,
                nft_info: copy_nft_info(&n.nft_info),
                author: n.author.clone(),
            };
            (sub_msgs, updated)
        },
    };
    state.story_nft.insert(story_id, updated);
    proof {
        if old(state)@.wf() {
            lemma_sale_update_keeps_wf(old(state)@, story_id, updated);
        }
    }
    let resp = Response { messages: sub_msgs };
    assert(resp@ =~= reserved_mints(
        old(state)@.nft_contracts[story_id]@,
        sender@,
        n0.nft_info.uri_prefix@,
        n0.author_claimed + n0.sold,
        mint_num as int,
    ));
    Ok(resp)
}

/// The message that instantiates the NFT contract of `story_id`, with the
/// factory at `contract_address` as its minter; its reply carries the story id.
pub open spec fn nft_instantiate_submsg(story_id: u64, contract_address: Seq<char>) -> SubMsgView {
    SubMsgView {
        id: story_id,
        msg: CosmosMsgView::WasmInstantiate {
            admin: None,
            code_id: NFT_CODE_ID,
            msg: cw721_instantiate_json(decimal(story_id as nat), decimal(story_id as nat), contract_address),
            funds: Seq::empty(),
            label: nft_label(),
        },
        gas_limit: None,
        reply_on: ReplyOn::Success,
    }
}

/// What publishing a story's NFT collection does. A missing story, or a
/// sender who is not its author, is refused with nothing changed. Otherwise
/// the story gets a fresh sale of `info`, nothing sold or claimed, and the
/// answer instantiates the collection's NFT contract.
pub open spec fn publish_nft_post(old: FactoryView, new: FactoryView, contract_address: Seq<char>, sender: String, info: PublishNftMsg, r: Result<Response, ContractError>) -> bool {
    let story_id = info.story_id;
    if !old.stories.contains_key(story_id) {
        new == old && r == Err::<Response, ContractError>(ContractError::StoryNotFound { story_id })
    } else if old.stories[story_id].author@ != sender@ {
        new == old && r == Err::<Response, ContractError>(ContractError::Unauthorized { sender })
    } else {
        &&& new == FactoryView {
            story_nft: old.story_nft.insert(
                story_id,
                StoryNft { sold: 0, author: old.stories[story_id].author, author_claimed: 0, nft_info: info },
            ),
            ..old
        }
        &&& r matches Ok(resp) && resp@ == seq![nft_instantiate_submsg(story_id, contract_address)]
    }
}

/// Opens the NFT sale of a story, by its author.
pub fn publish_nft(
    state: &mut StoryFactory,
    contract_address: String,
    sender: String,
    story_id: u64,
    image: String,
    name: String,
    uri_prefix: String,
    description: String,
    price: i32,
    token: String,
    author_reserve: i32,
    total: i32,
) -> (r: Result<Response, ContractError>)
    ensures
        publish_nft_post(
            old(state)@,
            final(state)@,
            contract_address@,
            sender,
            (PublishNftMsg { story_id, name, image, description, uri_prefix, token, price, total, author_reserve }),
            r,
        ),
        r is Ok ==> final(state)@.story_nft.contains_key(story_id),
        r is Ok ==> final(state)@.story_nft[story_id].nft_info.image == image,
        r is Ok ==> final(state)@.story_nft[story_id].nft_info.description == description,
        r is Ok ==> final(state)@.story_nft[story_id].nft_info.name == name,
        r is Ok ==> final(state)@.story_nft[story_id].nft_info.uri_prefix == uri_prefix,
        r is Ok ==> final(state)@.story_nft[story_id].nft_info.token == token,
        r is Ok ==> final(state)@.story_nft[story_id].nft_info.price == price,
        r is Ok ==> final(state)@.story_nft[story_id].nft_info.total == total,
        r is Ok ==> final(state)@.story_nft[story_id].nft_info.author_reserve == author_reserve,
        old(state)@.wf() ==> final(state)@.wf(),
{
    let ghost minter = contract_address@;
    let nft_name = u64_to_string(story_id);
    let nft_symbol = u64_to_string(story_id);
    let init_msg = encode_cw721_instantiate(nft_name, nft_symbol, contract_address).unwrap();
    let funds: Vec<Coin> = Vec::new();
    let sub_msg = SubMsg {
        id: story_id,
        msg: CosmosMsg::WasmInstantiate { admin: None, code_id: NFT_CODE_ID, msg: init_msg, funds, label: nft_label_string() },
        gas_limit: None,
        reply_on: ReplyOn::Success,
    };
    assert(coins_view(funds@) =~= Seq::<CoinView>::empty());
    assert(sub_msg@ == nft_instantiate_submsg(story_id, minter));
    match state.stories.get(&story_id) {
        Some(story_info) => {
            if sender != story_info.author {
                return Err(ContractError::Unauthorized { sender });
            }
            let new_nft_info = PublishNftMsg { story_id, name, image, description, uri_prefix, token, price, total, author_reserve };
            let new_story_nft = StoryNft { sold: 0, author: story_info.author.clone(), author_claimed: 0, nft_info: new_nft_info };
            state.story_nft.insert(story_id, new_story_nft);
            proof {
                if old(state)@.wf() {
                    lemma_new_sale_keeps_wf(old(state)@, story_id, new_story_nft);
                }
            }
            let resp = Response { messages: vec![sub_msg] };
            assert(resp@ =~= seq![nft_instantiate_submsg(story_id, minter)]);
            Ok(resp)
        },
        None => Err(ContractError::StoryNotFound { story_id }),
    }
}

// ---------------------------------------------------------------------------
// Tasks and submissions
// ---------------------------------------------------------------------------

/// The messages that hand each token of a comma-separated reward list, held
/// by the NFT contract at `nft_addr`, to `recipient`.
pub open spec fn reward_transfers(nft_addr: Seq<char>, recipient: Seq<char>, rewards: Seq<char>) -> Seq<SubMsgView> {
    split_commas(rewards).map(|i: int, token_id: Seq<char>| execute_on_error(nft_addr, cw721_transfer_json(recipient, token_id)))
}

/// Builds the messages that hand each token of `rewards` to `recipient`.
fn build_reward_transfers(nft_addr: &String, recipient: &String, rewards: &String) -> (msgs: Vec<SubMsg>)
    ensures
        msgs@.map_values(|m: SubMsg| m@) == reward_transfers(nft_addr@, recipient@, rewards@),
{
    let pieces = split_commas_exec(rewards.as_str());
    let mut sub_msgs: Vec<SubMsg> = Vec::new();
    let mut j: usize = 0;
    while j < pieces.len()
        invariant
            j <= pieces@.len(),
            pieces@.len() == split_commas(rewards@).len(),
            forall|i: int| 0 <= i < pieces@.len() ==> (#[trigger] pieces@[i])@ == split_commas(rewards@)[i],
            sub_msgs@.len() == j,
            forall|i: int| 0 <= i < j ==> (#[trigger] sub_msgs@[i])@ == execute_on_error(nft_addr@, cw721_transfer_json(recipient@, split_commas(rewards@)[i])),
        decreases pieces@.len() - j,
    {
        let transfer_msg = encode_cw721_transfer(recipient.clone(), pieces[j].clone()).unwrap();
        sub_msgs.push(wasm_execute_submsg(nft_addr.clone(), transfer_msg));
        j = j + 1;
    }
    assert(sub_msgs@.map_values(|m: SubMsg| m@) =~= reward_transfers(nft_addr@, recipient@, rewards@));
    sub_msgs
}

/// Whether a sender may manage the tasks of a story: the story exists and the
/// sender wrote it. Otherwise the refusal that the request gets.
pub open spec fn story_author_check(old: FactoryView, sender: String, story_id: u64) -> Option<ContractError> {
    if !old.stories.contains_key(story_id) {
        Some(ContractError::StoryNotFound { story_id })
    } else if old.stories[story_id].author@ != sender@ {
        Some(ContractError::Unauthorized { sender })
    } else {
        None
    }
}

/// The inputs on which creating a task panics: the story's next task id
/// cannot grow.
pub open spec fn create_task_panics(s: FactoryView, sender: Seq<char>, story_id: u64) -> bool {
    &&& s.stories.contains_key(story_id)
    &&& s.stories[story_id].author@ == sender
    &&& s.story_task_id.contains_key(story_id)
    &&& s.story_task_id[story_id] == u64::MAX
}

/// The id that the next task of a story gets.
pub open spec fn next_task_id(s: FactoryView, story_id: u64) -> u64 {
    if s.story_task_id.contains_key(story_id) {
        s.story_task_id[story_id]
    } else {
        1
    }
}

/// What creating a task does: refused, with nothing changed, unless the
/// sender is the story's author; otherwise the task gets the story's next
/// task id, with the sender as creator and status "TODO", and that id moves
/// on by one.
pub open spec fn create_task_post(old: FactoryView, new: FactoryView, sender: String, para: CreateTaskPara, r: Result<Response, ContractError>) -> bool {
    let story_id = para.story_id;
    match story_author_check(old, sender, story_id) {
        Some(e) => new == old && r == Err::<Response, ContractError>(e),
        None => {
            let task_id = next_task_id(old, story_id);
            let key = (story_id, task_id);
            &&& new.story_tasks.contains_key(key)
            &&& new == FactoryView {
                story_task_id: old.story_task_id.insert(story_id, (task_id + 1) as u64),
                story_tasks: old.story_tasks.insert(key, Task {
                    id: task_id,
                    cid: para.cid,
                    creator: sender,
                    nft_address: para.nft_address,
                    reward_nfts: para.reward_nfts,
                    status: new.story_tasks[key].status,
                    next_submit_id: 1,
                }),
                ..old
            }
            &&& new.story_tasks[key].status@ == todo_status()
            &&& r matches Ok(resp) && resp@ == Seq::<SubMsgView>::empty()
        },
    }
}

/// Opens a task on a story, by its author.
pub fn create_task(state: &mut StoryFactory, sender: String, create_task_para: CreateTaskPara) -> (r: Result<Response, ContractError>)
    requires
        !create_task_panics(old(state)@, sender@, create_task_para.story_id),
    ensures
        create_task_post(old(state)@, final(state)@, sender, create_task_para, r),
        old(state)@.wf() ==> final(state)@.wf(),
{
    let story_id = create_task_para.story_id;
    match state.stories.get(&story_id) {
        Some(story_info) => {
            if sender != story_info.author {
                return Err(ContractError::Unauthorized { sender });
            }
        },
        None => {
            return Err(ContractError::StoryNotFound { story_id });
        },
    }
    let task_id: u64 = match state.story_task_id.get(&story_id) {
        Some(next_task_id) => *next_task_id,
        None => 1,
    };
    state.story_task_id.insert(story_id, task_id + 1);
    let new_task = Task {
        id: task_id,
        cid: create_task_para.cid,
        creator: sender,
        nft_address: create_task_para.nft_address,
        reward_nfts: create_task_para.reward_nfts,
        status: status_todo(),
        next_submit_id: 1,
    };
    state.story_tasks.insert((story_id, task_id), new_task);
    assert(final(state)@.story_tasks =~= old(state)@.story_tasks.insert((story_id, task_id), new_task));
    Ok(empty_response())
}

/// What updating a task does: refused, with nothing changed, unless the
/// sender is the story's author and the task exists; otherwise the task's
/// content id becomes `para.cid`.
pub open spec fn update_task_post(old: FactoryView, new: FactoryView, sender: String, para: UpdateTaskPara, r: Result<Response, ContractError>) -> bool {
    let key = (para.story_id, para.task_id);
    match story_author_check(old, sender, para.story_id) {
        Some(e) => new == old && r == Err::<Response, ContractError>(e),
        None => if !old.story_tasks.contains_key(key) {
            new == old && r == Err::<Response, ContractError>(
                ContractError::StoryTaskNotFound { story_id: para.story_id, task_id: para.task_id },
            )
        } else {
            &&& new == FactoryView {
                story_tasks: old.story_tasks.insert(key, Task { cid: para.cid, ..old.story_tasks[key] }),
                ..old
            }
            &&& r matches Ok(resp) && resp@ == Seq::<SubMsgView>::empty()
        },
    }
}

/// Changes the content id of a task, by the story's author.
pub fn update_task(state: &mut StoryFactory, sender: String, update_task_para: UpdateTaskPara) -> (r: Result<Response, ContractError>)
    ensures
        update_task_post(old(state)@, final(state)@, sender, update_task_para, r),
        old(state)@.wf() ==> final(state)@.wf(),
{
    let story_id = update_task_para.story_id;
    let task_id = update_task_para.task_id;
    match state.stories.get(&story_id) {
        Some(story_info) => {
            if sender != story_info.author {
                return Err(ContractError::Unauthorized { sender });
            }
        },
        None => {
            return Err(ContractError::StoryNotFound { story_id });
        },
    }
    match state.story_tasks.remove(&(story_id, task_id)) {
        Some(task_info) => {
            let updated = Task { cid: update_task_para.cid, ..task_info };
            state.story_tasks.insert((story_id, task_id), updated);
            assert(final(state)@.story_tasks =~= old(state)@.story_tasks.insert((story_id, task_id), updated));
            Ok(empty_response())
        },
        None => {
            assert(state@.story_tasks =~= old(state)@.story_tasks);
            Err(ContractError::StoryTaskNotFound { story_id, task_id })
        },
    }
}

/// What cancelling a task does: refused, with nothing changed, unless the
/// sender is the story's author and the task exists; otherwise the task's
/// status becomes "CANCELLED" and the answer hands every reward token back
/// to the sender.
pub open spec fn cancel_task_post(old: FactoryView, new: FactoryView, sender: String, para: CancelTaskPara, r: Result<Response, ContractError>) -> bool {
    let key = (para.story_id, para.task_id);
    match story_author_check(old, sender, para.story_id) {
        Some(e) => new == old && r == Err::<Response, ContractError>(e),
        None => if !old.story_tasks.contains_key(key) {
            new == old && r == Err::<Response, ContractError>(
                ContractError::StoryTaskNotFound { story_id: para.story_id, task_id: para.task_id },
            )
        } else {
            let task = old.story_tasks[key];
            {
                &&& new.story_tasks.contains_key(key)
                &&& new == FactoryView {
                    story_tasks: old.story_tasks.insert(key, Task { status: new.story_tasks[key].status, ..task }),
                    ..old
                }
                &&& new.story_tasks[key].status@ == cancelled_status()
                &&& r matches Ok(resp) && resp@ == reward_transfers(task.nft_address@, sender@, task.reward_nfts@)
            }
        },
    }
}

/// Cancels a task, by the story's author, and takes its rewards back.
pub fn cancel_task(state: &mut StoryFactory, sender: String, cancel_task_para: CancelTaskPara) -> (r: Result<Response, ContractError>)
    ensures
        cancel_task_post(old(state)@, final(state)@, sender, cancel_task_para, r),
        old(state)@.wf() ==> final(state)@.wf(),
{
    let story_id = cancel_task_para.story_id;
    let task_id = cancel_task_para.task_id;
    match state.stories.get(&story_id) {
        Some(story_info) => {
            if sender != story_info.author {
                return Err(ContractError::Unauthorized { sender });
            }
        },
        None => {
            return Err(ContractError::StoryNotFound { story_id });
        },
    }
    let sub_msgs = match state.story_tasks.get(&(story_id, task_id)) {
        Some(task_info) => build_reward_transfers(&task_info.nft_address, &sender, &task_info.reward_nfts),
        None => {
            return Err(ContractError::StoryTaskNotFound { story_id, task_id });
        },
    };
    let task_info = state.story_tasks.remove(&(story_id, task_id)).unwrap();
    let updated = Task { status: status_cancelled(), ..task_info };
    state.story_tasks.insert((story_id, task_id), updated);
    assert(final(state)@.story_tasks =~= old(state)@.story_tasks.insert((story_id, task_id), updated));
    Ok(Response { messages: sub_msgs })
}

/// The inputs on which submitting to a task panics: the task's next
/// submission id cannot grow.
pub open spec fn create_task_submit_panics(s: FactoryView, story_id: u64, task_id: u64) -> bool {
    &&& s.story_tasks.contains_key((story_id, task_id))
    &&& s.story_tasks[(story_id, task_id)].next_submit_id == u64::MAX
}

/// What submitting work to a task does: refused, with nothing changed, when
/// the task does not exist; otherwise the submission gets the task's next
/// submission id, with the sender as creator and status "PENDING", and that
/// id moves on by one.
pub open spec fn create_task_submit_post(old: FactoryView, new: FactoryView, sender: String, para: UpdateTaskPara, r: Result<Response, ContractError>) -> bool {
    let key = (para.story_id, para.task_id);
    if !old.story_tasks.contains_key(key) {
        new == old && r == Err::<Response, ContractError>(
            ContractError::StoryTaskNotFound { story_id: para.story_id, task_id: para.task_id },
        )
    } else {
        let task = old.story_tasks[key];
        let submit_id = task.next_submit_id;
        let skey = (para.story_id, para.task_id, submit_id);
        &&& new.task_submits.contains_key(skey)
        &&& new == FactoryView {
            story_tasks: old.story_tasks.insert(key, Task { next_submit_id: (submit_id + 1) as u64, ..task }),
            task_submits: old.task_submits.insert(skey, Submit {
                id: submit_id,
                cid: para.cid,
                creator: sender,
                status: new.task_submits[skey].status,
            }),
            ..old
        }
        &&& new.task_submits[skey].status@ == pending_status()
        &&& r matches Ok(resp) && resp@ == Seq::<SubMsgView>::empty()
    }
}

/// Submits work to a task.
pub fn create_task_submit(state: &mut StoryFactory, sender: String, create_submit_para: UpdateTaskPara) -> (r: Result<Response, ContractError>)
    requires
        !create_task_submit_panics(old(state)@, create_submit_para.story_id, create_submit_para.task_id),
    ensures
        create_task_submit_post(old(state)@, final(state)@, sender, create_submit_para, r),
        old(state)@.wf() ==> final(state)@.wf(),
{
    let story_id = create_submit_para.story_id;
    let task_id = create_submit_para.task_id;
    match state.story_tasks.remove(&(story_id, task_id)) {
        Some(task_info) => {
            let submit_id = task_info.next_submit_id;
            let new_submit = Submit { id: submit_id, cid: create_submit_para.cid, creator: sender, status: status_pending() };
            let updated = Task { next_submit_id: submit_id + 1, ..task_info };
            state.story_tasks.insert((story_id, task_id), updated);
            state.task_submits.insert((story_id, task_id, submit_id), new_submit);
            assert(final(state)@.story_tasks =~= old(state)@.story_tasks.insert((story_id, task_id), updated));
            Ok(empty_response())
        },
        None => {
            assert(state@.story_tasks =~= old(state)@.story_tasks);
            Err(ContractError::StoryTaskNotFound { story_id, task_id })
        },
    }
}

/// What withdrawing a submission does: refused, with nothing changed, when
/// it does not exist or the sender did not make it; otherwise its status
/// becomes "WITHDRAWED".
pub open spec fn withdraw_task_submit_post(old: FactoryView, new: FactoryView, sender: String, para: WithdrawTaskSubmitPara, r: Result<Response, ContractError>) -> bool {
    let skey = (para.story_id, para.task_id, para.submit_id);
    if !old.task_submits.contains_key(skey) {
        new == old && r == Err::<Response, ContractError>(
            ContractError::TaskSubmitNotFound { story_id: para.story_id, task_id: para.task_id, submit_id: para.submit_id },
        )
    } else if old.task_submits[skey].creator@ != sender@ {
        new == old && r == Err::<Response, ContractError>(ContractError::Unauthorized { sender })
    } else {
        &&& new.task_submits.contains_key(skey)
        &&& new == FactoryView {
            task_submits: old.task_submits.insert(skey, Submit { status: new.task_submits[skey].status, ..old.task_submits[skey] }),
            ..old
        }
        &&& new.task_submits[skey].status@ == withdrawn_status()
        &&& r matches Ok(resp) && resp@ == Seq::<SubMsgView>::empty()
    }
}

/// Withdraws a submission, by its creator.
pub fn withdraw_task_submit(state: &mut StoryFactory, sender: String, withdraw_submit_para: WithdrawTaskSubmitPara) -> (r: Result<Response, ContractError>)
    ensures
        withdraw_task_submit_post(old(state)@, final(state)@, sender, withdraw_submit_para, r),
        old(state)@.wf() ==> final(state)@.wf(),
{
    let story_id = withdraw_submit_para.story_id;
    let task_id = withdraw_submit_para.task_id;
    let submit_id = withdraw_submit_para.submit_id;
    match state.task_submits.get(&(story_id, task_id, submit_id)) {
        Some(submit_info) => {
            if submit_info.creator != sender {
                return Err(ContractError::Unauthorized { sender });
            }
        },
        None => {
            return Err(ContractError::TaskSubmitNotFound { story_id, task_id, submit_id });
        },
    }
    let submit_info = state.task_submits.remove(&(story_id, task_id, submit_id)).unwrap();
    let updated = Submit { status: status_withdrawn(), ..submit_info };
    state.task_submits.insert((story_id, task_id, submit_id), updated);
    assert(final(state)@.task_submits =~= old(state)@.task_submits.insert((story_id, task_id, submit_id), updated));
    Ok(empty_response())
}

/// What marking a task done does: refused, with nothing changed, when the
/// task does not exist, the sender did not create it, or the submission does
/// not exist; otherwise the task's status becomes "DONE", the submission's
/// "APPROVED", and the answer hands every reward token to the submission's
/// creator.
pub open spec fn mark_task_done_post(old: FactoryView, new: FactoryView, sender: String, para: WithdrawTaskSubmitPara, r: Result<Response, ContractError>) -> bool {
    let key = (para.story_id, para.task_id);
    let skey = (para.story_id, para.task_id, para.submit_id);
    if !old.story_tasks.contains_key(key) {
        new == old && r == Err::<Response, ContractError>(
            ContractError::StoryTaskNotFound { story_id: para.story_id, task_id: para.task_id },
        )
    } else if old.story_tasks[key].creator@ != sender@ {
        new == old && r == Err::<Response, ContractError>(ContractError::Unauthorized { sender })
    } else if !old.task_submits.contains_key(skey) {
        new == old && r == Err::<Response, ContractError>(
            ContractError::TaskSubmitNotFound { story_id: para.story_id, task_id: para.task_id, submit_id: para.submit_id },
        )
    } else {
        let task = old.story_tasks[key];
        let submit = old.task_submits[skey];
        {
            &&& new.story_tasks.contains_key(key)
            &&& new.task_submits.contains_key(skey)
            &&& new == FactoryView {
                story_tasks: old.story_tasks.insert(key, Task { status: new.story_tasks[key].status, ..task }),
                task_submits: old.task_submits.insert(skey, Submit { status: new.task_submits[skey].status, ..submit }),
                ..old
            }
            &&& new.story_tasks[key].status@ == done_status()
            &&& new.task_submits[skey].status@ == approved_status()
            &&& r matches Ok(resp) && resp@ == reward_transfers(task.nft_address@, submit.creator@, task.reward_nfts@)
        }
    }
}

/// Marks a task done, by its creator, approving one submission and handing it
/// the task's rewards.
pub fn mark_task_done(state: &mut StoryFactory, sender: String, mark_task_done_para: WithdrawTaskSubmitPara) -> (r: Result<Response, ContractError>)
    ensures
        mark_task_done_post(old(state)@, final(state)@, sender, mark_task_done_para, r),
        old(state)@.wf() ==> final(state)@.wf(),
{
    let story_id = mark_task_done_para.story_id;
    let task_id = mark_task_done_para.task_id;
    let submit_id = mark_task_done_para.submit_id;
    let sub_msgs = match state.story_tasks.get(&(story_id, task_id)) {
        Some(story_task_info) => {
            if story_task_info.creator != sender {
                return Err(ContractError::Unauthorized { sender });
            }
            match state.task_submits.get(&(story_id, task_id, submit_id)) {
                Some(task_submit_info) => build_reward_transfers(
                    &story_task_info.nft_address,
                    &task_submit_info.creator,
                    &story_task_info.reward_nfts,
                ),
                None => {
                    return Err(ContractError::TaskSubmitNotFound { story_id, task_id, submit_id });
                },
            }
        },
        None => {
            return Err(ContractError::StoryTaskNotFound { story_id, task_id });
        },
    };
    let task_info = state.story_tasks.remove(&(story_id, task_id)).unwrap();
    let updated_task = Task { status: status_done(), ..task_info };
    state.story_tasks.insert((story_id, task_id), updated_task);
    let submit_info = state.task_submits.remove(&(story_id, task_id, submit_id)).unwrap();
    let updated_submit = Submit { status: status_approved(), ..submit_info };
    state.task_submits.insert((story_id, task_id, submit_id), updated_submit);
    assert(final(state)@.story_tasks =~= old(state)@.story_tasks.insert((story_id, task_id), updated_task));
    assert(final(state)@.task_submits =~= old(state)@.task_submits.insert((story_id, task_id, submit_id), updated_submit));
    Ok(Response { messages: sub_msgs })
}

// ---------------------------------------------------------------------------
// Replies and dispatch
// ---------------------------------------------------------------------------

/// What recording a story's instantiated NFT contract does: a reply with id 0
/// reports a failed mint and is refused with nothing changed; otherwise the
/// story under the reply's id gets `contract_address` as its NFT contract.
pub open spec fn record_nft_contract_post(old: FactoryView, new: FactoryView, id: u64, contract_address: String, r: Result<Response, ContractError>) -> bool {
    if id == 0 {
        new == old && r == Err::<Response, ContractError>(ContractError::NftMintError {})
    } else {
        &&& new == FactoryView { nft_contracts: old.nft_contracts.insert(id, contract_address), ..old }
        &&& r matches Ok(resp) && resp@ == Seq::<SubMsgView>::empty()
    }
}

/// Records the address of the NFT contract instantiated for the story `id`.
pub fn record_nft_contract(state: &mut StoryFactory, id: u64, contract_address: String) -> (r: Result<Response, ContractError>)
    ensures
        record_nft_contract_post(old(state)@, final(state)@, id, contract_address, r),
        old(state)@.wf() ==> final(state)@.wf(),
{
    if id == 0 {
        return Err(ContractError::NftMintError {});
    }
    state.nft_contracts.insert(id, contract_address);
    Ok(empty_response())
}

/// What a reply does, given its id and the data of its success (none when
/// the sub-message failed or answered nothing). Id 0 is refused as a failed
/// mint. Otherwise the data must decode to the address of the instantiated
/// contract, which is recorded for the story `id`; where it does not there is
/// no result (the request cannot be served) and nothing changes.
pub open spec fn reply_post(old: FactoryView, new: FactoryView, id: u64, data: Option<Seq<u8>>, r: Option<Result<Response, ContractError>>) -> bool {
    if id == 0 {
        new == old && r == Some(Err::<Response, ContractError>(ContractError::NftMintError {}))
    } else {
        match data {
            None => new == old && r is None,
            Some(d) => match instantiated_contract_address(d) {
                None => new == old && r is None,
                Some(a) => {
                    &&& new.nft_contracts.contains_key(id)
                    &&& new == FactoryView { nft_contracts: old.nft_contracts.insert(id, new.nft_contracts[id]), ..old }
                    &&& new.nft_contracts[id]@ == a
                    &&& r matches Some(Ok(resp)) && resp@ == Seq::<SubMsgView>::empty()
                },
            },
        }
    }
}

/// Handles the reply to a sub-message: records the NFT contract that an
/// instantiation created.
pub fn reply(state: &mut StoryFactory, id: u64, data: Option<Vec<u8>>) -> (r: Option<Result<Response, ContractError>>)
    ensures
        reply_post(
            old(state)@,
            final(state)@,
            id,
            match data {
                Some(d) => Some(d@),
                None => None,
            },
            r,
        ),
        old(state)@.wf() ==> final(state)@.wf(),
{
    if id == 0 {
        return Some(Err(ContractError::NftMintError {}));
    }
    let contract_address = match data {
        Some(d) => match decode_instantiate_response(&d) {
            Some(a) => a,
            None => {
                return None;
            },
        },
        None => {
            return None;
        },
    };
    Some(record_nft_contract(state, id, contract_address))
}

/// The inputs on which an execution panics.
pub open spec fn execute_panics(s: FactoryView, sender: Seq<char>, funds: Seq<Coin>, msg: ExecuteMsg) -> bool {
    match msg {
        ExecuteMsg::PublishStory { .. } => s.next_story_id == u64::MAX,
        ExecuteMsg::MintStoryNft { story_id } => mint_story_nft_panics(s, funds, story_id),
        ExecuteMsg::ClaimAuthorReservedNft { story_id, mint_num } => claim_author_reserved_nft_panics(s, sender, story_id, mint_num),
        ExecuteMsg::CreateTask { create_task_para } => create_task_panics(s, sender, create_task_para.story_id),
        ExecuteMsg::CreateTaskSubmit { create_submit_para } => create_task_submit_panics(
            s,
            create_submit_para.story_id,
            create_submit_para.task_id,
        ),
        _ => false,
    }
}

/// What an execution does, by the request it carries.
pub open spec fn execute_post(old: FactoryView, new: FactoryView, contract_address: Seq<char>, sender: String, funds: Seq<Coin>, msg: ExecuteMsg, r: Result<Response, ContractError>) -> bool {
    match msg {
        ExecuteMsg::PublishStory { post_id } => publish_story_post(old, new, sender, post_id, r),
        ExecuteMsg::PublishStoryNft { story_id, image, name, uri_prefix, description, price, token, author_reserve, total } => publish_nft_post(
            old,
            new,
            contract_address,
            sender,
            PublishNftMsg { story_id, name, image, description, uri_prefix, token, price, total, author_reserve },
            r,
        ),
        ExecuteMsg::MintStoryNft { story_id } => mint_story_nft_post(old, new, sender@, funds, story_id, r),
        ExecuteMsg::ClaimAuthorReservedNft { story_id, mint_num } => claim_author_reserved_nft_post(old, new, sender, story_id, mint_num, r),
        ExecuteMsg::CreateTask { create_task_para } => create_task_post(old, new, sender, create_task_para, r),
        ExecuteMsg::UpdateTask { update_task_para } => update_task_post(old, new, sender, update_task_para, r),
        ExecuteMsg::CancelTask { cancel_task_para } => cancel_task_post(old, new, sender, cancel_task_para, r),
        ExecuteMsg::CreateTaskSubmit { create_submit_para } => create_task_submit_post(old, new, sender, create_submit_para, r),
        ExecuteMsg::WithdrawTaskSubmit { withdraw_submit_para } => withdraw_task_submit_post(old, new, sender, withdraw_submit_para, r),
        ExecuteMsg::MarkTaskDone { mark_task_done_para } => mark_task_done_post(old, new, sender, mark_task_done_para, r),
    }
}

/// Executes a request of `sender`, who attached `funds`, on the factory
/// deployed at `contract_address`.
pub fn execute(state: &mut StoryFactory, contract_address: String, sender: String, funds: Vec<Coin>, msg: ExecuteMsg) -> (r: Result<Response, ContractError>)
    requires
        !execute_panics(old(state)@, sender@, funds@, msg),
    ensures
        execute_post(old(state)@, final(state)@, contract_address@, sender, funds@, msg, r),
        old(state)@.wf() ==> final(state)@.wf(),
{
    match msg {
        ExecuteMsg::PublishStory { post_id } => publish_story(state, sender, post_id),
        ExecuteMsg::PublishStoryNft { story_id, image, name, uri_prefix, description, price, token, author_reserve, total } => publish_nft(
            state,
            contract_address,
            sender,
            story_id,
            image,
            name,
            uri_prefix,
            description,
            price,
            token,
            author_reserve,
            total,
        ),
        ExecuteMsg::MintStoryNft { story_id } => mint_story_nft(state, sender, funds, story_id),
        ExecuteMsg::ClaimAuthorReservedNft { story_id, mint_num } => claim_author_reserved_nft(state, sender, story_id, mint_num),
        ExecuteMsg::CreateTask { create_task_para } => create_task(state, sender, create_task_para),
        ExecuteMsg::UpdateTask { update_task_para } => update_task(state, sender, update_task_para),
        ExecuteMsg::CancelTask { cancel_task_para } => cancel_task(state, sender, cancel_task_para),
        ExecuteMsg::CreateTaskSubmit { create_submit_para } => create_task_submit(state, sender, create_submit_para),
        ExecuteMsg::WithdrawTaskSubmit { withdraw_submit_para } => withdraw_task_submit(state, sender, withdraw_submit_para),
        ExecuteMsg::MarkTaskDone { mark_task_done_para } => mark_task_done(state, sender, mark_task_done_para),
    }
}

/// Whether executing `msg` would panic (an overflowing counter, or a price
/// that is not an amount), so that a caller can refuse it first.
pub fn would_panic(state: &StoryFactory, sender: &String, funds: &Vec<Coin>, msg: &ExecuteMsg) -> (b: bool)
    ensures
        b == execute_panics(state@, sender@, funds@, *msg),
{
    match msg {
        ExecuteMsg::PublishStory { .. } => state.next_story_id == u64::MAX,
        ExecuteMsg::MintStoryNft { story_id } => match state.story_nft.get(story_id) {
            None => false,
            Some(n) => {
                let counted = n.sold as i64 + n.author_claimed as i64;
                if counted < i32::MIN as i64 || counted > i32::MAX as i64 {
                    true
                } else if n.nft_info.total as i64 <= counted {
                    false
                } else if n.nft_info.price < 0 {
                    true
                } else {
                    let fee = Coin { amount: n.nft_info.price as u128, denom: fee_denom_string() };
                    holds_coin(funds, &fee) && n.sold == i32::MAX
                }
            },
        },
        ExecuteMsg::ClaimAuthorReservedNft { story_id, mint_num } => {
            if !state.nft_contracts.contains_key(story_id) {
                return false;
            }
            match state.story_nft.get(story_id) {
                None => false,
                Some(n) => {
                    if n.author != *sender {
                        return false;
                    }
                    let counted = n.sold as i64 + n.author_claimed as i64;
                    if counted < i32::MIN as i64 || counted > i32::MAX as i64 {
                        true
                    } else if n.nft_info.total as i64 <= counted {
                        false
                    } else {
                        let claimed = n.author_claimed as i64 + *mint_num as i64;
                        (*mint_num > 0 && counted + *mint_num as i64 > i32::MAX as i64)
                            || claimed < i32::MIN as i64 || claimed > i32::MAX as i64
                    }
                },
            }
        },
        ExecuteMsg::CreateTask { create_task_para } => {
            let story_id = create_task_para.story_id;
            match state.stories.get(&story_id) {
                None => false,
                Some(story) => {
                    if story.author != *sender {
                        false
                    } else {
                        match state.story_task_id.get(&story_id) {
                            Some(next) => *next == u64::MAX,
                            None => false,
                        }
                    }
                },
            }
        },
        ExecuteMsg::CreateTaskSubmit { create_submit_para } => match state.story_tasks.get(
            &(create_submit_para.story_id, create_submit_para.task_id),
        ) {
            Some(task) => task.next_submit_id == u64::MAX,
            None => false,
        },
        _ => false,
    }
}

} // verus!
