//! Properties of the factory that span its entry points.
use vstd::prelude::*;

use crate::contract::{
    cancel_task_post, mark_task_done_post, publish_nft_post, update_task_post,
    claim_author_reserved_nft_panics, execute_panics, mint_story_nft_panics,
    claim_author_reserved_nft_post, execute_post, mint_story_nft_post, next_token_number,
    nft_address_result, publish_story_post, record_nft_contract_post, sold_out,
    story_info_result, pays_price,
};
use crate::error::ContractError;
use crate::external::{cw721_mint_json, cw721_transfer_json};
use crate::msg::{
    CancelTaskPara, ExecuteMsg, FactoryView, PublishNftMsg, Story, UpdateTaskPara,
    WithdrawTaskSubmitPara,
};
use crate::response::{Coin, CoinView, CosmosMsgView, ReplyOn, Response};
use crate::text::{signed_decimal, split_commas};

verus! {

/// Whether a mint request gets past every check of the sale: the sale
/// exists, is not sold out, and the funds hold its price. Such a request
/// counts the token as sold before it looks for the NFT contract.
pub open spec fn mint_passes_sale_checks(s: FactoryView, funds: Seq<Coin>, msg: ExecuteMsg) -> bool {
    match msg {
        ExecuteMsg::MintStoryNft { story_id } => {
            &&& s.story_nft.contains_key(story_id)
            &&& !sold_out(s.story_nft[story_id])
            &&& pays_price(funds, s.story_nft[story_id].nft_info.price as int)
        },
        _ => false,
    }
}

/// A refused request changes nothing, except a mint request that passed the
/// sale's checks: that one keeps the sold count it has taken.
pub proof fn lemma_refusal_changes_nothing(
    old: FactoryView,
    new: FactoryView,
    contract_address: Seq<char>,
    sender: String,
    funds: Seq<Coin>,
    msg: ExecuteMsg,
    r: Result<Response, ContractError>,
)
    requires
        execute_post(old, new, contract_address, sender, funds, msg, r),
        r is Err,
        !mint_passes_sale_checks(old, funds, msg),
    ensures
        new == old,
{
}

/// In a consistent factory, published stories never change and never go
/// away, and story ids are never handed out twice: the next story id never
/// decreases.
pub proof fn lemma_stories_are_permanent(
    old: FactoryView,
    new: FactoryView,
    contract_address: Seq<char>,
    sender: String,
    funds: Seq<Coin>,
    msg: ExecuteMsg,
    r: Result<Response, ContractError>,
    story_id: u64,
)
    requires
        old.wf(),
        !execute_panics(old, sender@, funds, msg),
        execute_post(old, new, contract_address, sender, funds, msg, r),
        old.stories.contains_key(story_id),
    ensures
        new.stories.contains_key(story_id),
        new.stories[story_id] == old.stories[story_id],
        old.next_story_id <= new.next_story_id,
{
}

/// The account that a request must come from to succeed, when there is one:
/// the story's author for its sale and its tasks, the task's creator to mark
/// it done, the submission's creator to withdraw it.
pub open spec fn required_sender(s: FactoryView, msg: ExecuteMsg) -> Option<Seq<char>> {
    match msg {
        ExecuteMsg::PublishStoryNft { story_id, .. } => if s.stories.contains_key(story_id) {
            Some(s.stories[story_id].author@)
        } else {
            None
        },
        ExecuteMsg::ClaimAuthorReservedNft { story_id, .. } => if s.story_nft.contains_key(story_id) {
            Some(s.story_nft[story_id].author@)
        } else {
            None
        },
        ExecuteMsg::CreateTask { create_task_para } => if s.stories.contains_key(create_task_para.story_id) {
            Some(s.stories[create_task_para.story_id].author@)
        } else {
            None
        },
        ExecuteMsg::UpdateTask { update_task_para } => if s.stories.contains_key(update_task_para.story_id) {
            Some(s.stories[update_task_para.story_id].author@)
        } else {
            None
        },
        ExecuteMsg::CancelTask { cancel_task_para } => if s.stories.contains_key(cancel_task_para.story_id) {
            Some(s.stories[cancel_task_para.story_id].author@)
        } else {
            None
        },
        ExecuteMsg::WithdrawTaskSubmit { withdraw_submit_para } => {
            let k = (withdraw_submit_para.story_id, withdraw_submit_para.task_id, withdraw_submit_para.submit_id);
            if s.task_submits.contains_key(k) {
                Some(s.task_submits[k].creator@)
            } else {
                None
            }
        },
        ExecuteMsg::MarkTaskDone { mark_task_done_para } => {
            let k = (mark_task_done_para.story_id, mark_task_done_para.task_id);
            if s.story_tasks.contains_key(k) {
                Some(s.story_tasks[k].creator@)
            } else {
                None
            }
        },
        _ => None,
    }
}

/// Whether a request needs a record that the state lacks to succeed.
pub open spec fn names_missing_record(s: FactoryView, msg: ExecuteMsg) -> bool {
    match msg {
        ExecuteMsg::PublishStoryNft { story_id, .. } => !s.stories.contains_key(story_id),
        ExecuteMsg::ClaimAuthorReservedNft { story_id, .. } => !s.story_nft.contains_key(story_id),
        ExecuteMsg::CreateTask { create_task_para } => !s.stories.contains_key(create_task_para.story_id),
        ExecuteMsg::UpdateTask { update_task_para } => !s.stories.contains_key(update_task_para.story_id),
        ExecuteMsg::CancelTask { cancel_task_para } => !s.stories.contains_key(cancel_task_para.story_id),
        ExecuteMsg::WithdrawTaskSubmit { withdraw_submit_para } => !s.task_submits.contains_key(
            (withdraw_submit_para.story_id, withdraw_submit_para.task_id, withdraw_submit_para.submit_id),
        ),
        ExecuteMsg::MarkTaskDone { mark_task_done_para } => !s.story_tasks.contains_key(
            (mark_task_done_para.story_id, mark_task_done_para.task_id),
        ),
        _ => false,
    }
}

/// Only the owner of a record can act on it: a request that succeeds came
/// from the account that `required_sender` names, and one that needs a
/// missing record never succeeds.
pub proof fn lemma_only_owner_succeeds(
    old: FactoryView,
    new: FactoryView,
    contract_address: Seq<char>,
    sender: String,
    funds: Seq<Coin>,
    msg: ExecuteMsg,
    r: Result<Response, ContractError>,
)
    requires
        execute_post(old, new, contract_address, sender, funds, msg, r),
        r is Ok,
    ensures
        !names_missing_record(old, msg),
        required_sender(old, msg) matches Some(owner) ==> owner == sender@,
{
}

/// A sale never sells past its total: a successful mint found a token left,
/// and afterwards the tokens sold and claimed are at most the total.
pub proof fn lemma_mint_never_oversells(
    old: FactoryView,
    new: FactoryView,
    sender: Seq<char>,
    funds: Seq<Coin>,
    story_id: u64,
    r: Result<Response, ContractError>,
)
    requires
        !mint_story_nft_panics(old, funds, story_id),
        mint_story_nft_post(old, new, sender, funds, story_id, r),
        r is Ok,
    ensures
        old.story_nft.contains_key(story_id),
        !sold_out(old.story_nft[story_id]),
        new.story_nft.contains_key(story_id),
        new.story_nft[story_id].sold == old.story_nft[story_id].sold + 1,
        new.story_nft[story_id].sold + new.story_nft[story_id].author_claimed <= new.story_nft[story_id].nft_info.total,
{
}

/// A sale moves the sale's token numbering on by one: the token it mints
/// is numbered `next_token_number` of the sale before, and the next token
/// after it.
pub proof fn lemma_mint_advances_token_number(
    old: FactoryView,
    new: FactoryView,
    buyer: Seq<char>,
    funds: Seq<Coin>,
    story_id: u64,
    r: Result<Response, ContractError>,
)
    requires
        !mint_story_nft_panics(old, funds, story_id),
        mint_story_nft_post(old, new, buyer, funds, story_id, r),
        r is Ok,
    ensures
        old.story_nft.contains_key(story_id),
        new.story_nft.contains_key(story_id),
        next_token_number(new.story_nft[story_id]) == next_token_number(old.story_nft[story_id]) + 1,
{
}

/// An author's claim of `mint_num` tokens moves the sale's token numbering on
/// by `mint_num`: its tokens are numbered on from `next_token_number` of the
/// sale before. Together with the sale's step of one, in any order, no token
/// number is handed out twice as long as no claim has a negative count.
pub proof fn lemma_claim_advances_token_number(
    old: FactoryView,
    new: FactoryView,
    sender: String,
    story_id: u64,
    mint_num: i32,
    r: Result<Response, ContractError>,
)
    requires
        !claim_author_reserved_nft_panics(old, sender@, story_id, mint_num),
        claim_author_reserved_nft_post(old, new, sender, story_id, mint_num, r),
        r is Ok,
    ensures
        old.story_nft.contains_key(story_id),
        new.story_nft.contains_key(story_id),
        next_token_number(new.story_nft[story_id]) == next_token_number(old.story_nft[story_id]) + mint_num,
{
}

/// A published story can be read back under the id it was given, and the
/// next story gets the following id.
pub proof fn lemma_published_story_is_readable(
    old: FactoryView,
    new: FactoryView,
    sender: String,
    post_id: String,
    r: Result<Response, ContractError>,
)
    requires
        old.next_story_id < u64::MAX,
        publish_story_post(old, new, sender, post_id, r),
    ensures
        story_info_result(new, old.next_story_id) == Ok::<Story, crate::error::QueryError>(
            Story { story_id: old.next_story_id, author: sender, post_id },
        ),
        new.next_story_id == old.next_story_id + 1,
{
}

/// The NFT contract that a reply records can be read back.
pub proof fn lemma_recorded_contract_is_readable(
    old: FactoryView,
    new: FactoryView,
    id: u64,
    contract_address: String,
    r: Result<Response, ContractError>,
)
    requires
        record_nft_contract_post(old, new, id, contract_address, r),
        id != 0,
    ensures
        nft_address_result(new, id) == Ok::<String, crate::error::QueryError>(contract_address),
{
}

/// Every task other than the one under `key` is the same before and after.
pub open spec fn other_tasks_unchanged(old: FactoryView, new: FactoryView, key: (u64, u64)) -> bool {
    forall|k: (u64, u64)| k != key ==> {
        &&& (#[trigger] new.story_tasks.contains_key(k)) == old.story_tasks.contains_key(k)
        &&& old.story_tasks.contains_key(k) ==> new.story_tasks[k] == old.story_tasks[k]
    }
}

/// Every submission other than the one under `key` is the same before and
/// after.
pub open spec fn other_submits_unchanged(old: FactoryView, new: FactoryView, key: (u64, u64, u64)) -> bool {
    forall|k: (u64, u64, u64)| k != key ==> {
        &&& (#[trigger] new.task_submits.contains_key(k)) == old.task_submits.contains_key(k)
        &&& old.task_submits.contains_key(k) ==> new.task_submits[k] == old.task_submits[k]
    }
}

/// Publishing a story's NFT collection by its author succeeds and stores a
/// fresh sale whose description is the request's fields, each in its own
/// place; no other story's sale changes. For a missing story, or a sender
/// who is not its author, it is refused with nothing changed.
pub proof fn lemma_publish_nft_stores_the_request(
    old: FactoryView,
    new: FactoryView,
    contract_address: Seq<char>,
    sender: String,
    story_id: u64,
    image: String,
    name: String,
    uri_prefix: String,
    description: String,
    price: i32,
    token: String,
    author_reserve: i32,
    total: i32,
    r: Result<Response, ContractError>,
)
    requires
        publish_nft_post(
            old,
            new,
            contract_address,
            sender,
            PublishNftMsg { story_id, name, image, description, uri_prefix, token, price, total, author_reserve },
            r,
        ),
    ensures
        !old.stories.contains_key(story_id) ==> new == old && r == Err::<Response, ContractError>(
            ContractError::StoryNotFound { story_id },
        ),
        old.stories.contains_key(story_id) && old.stories[story_id].author@ != sender@ ==> new == old && r
            == Err::<Response, ContractError>(ContractError::Unauthorized { sender }),
        old.stories.contains_key(story_id) && old.stories[story_id].author@ == sender@ ==> {
            &&& r is Ok
            &&& new.story_nft.contains_key(story_id)
            &&& new.story_nft[story_id].nft_info.story_id == story_id
            &&& new.story_nft[story_id].nft_info.name == name
            &&& new.story_nft[story_id].nft_info.image == image
            &&& new.story_nft[story_id].nft_info.description == description
            &&& new.story_nft[story_id].nft_info.uri_prefix == uri_prefix
            &&& new.story_nft[story_id].nft_info.token == token
            &&& new.story_nft[story_id].nft_info.price == price
            &&& new.story_nft[story_id].nft_info.total == total
            &&& new.story_nft[story_id].nft_info.author_reserve == author_reserve
            &&& new.story_nft[story_id].sold == 0
            &&& new.story_nft[story_id].author_claimed == 0
            &&& new.story_nft[story_id].author == old.stories[story_id].author
            &&& forall|k: u64| k != story_id ==> {
                &&& (#[trigger] new.story_nft.contains_key(k)) == old.story_nft.contains_key(k)
                &&& old.story_nft.contains_key(k) ==> new.story_nft[k] == old.story_nft[k]
            }
            &&& new.stories == old.stories
            &&& new.nft_contracts == old.nft_contracts
            &&& new.story_tasks == old.story_tasks
        },
{
}

/// Updating a task acts on the task that the request names, (story id, task
/// id): by the story's author it succeeds when that task exists, replaces its
/// content id and keeps the rest of it and every other task; when that task
/// does not exist it is refused with nothing changed.
pub proof fn lemma_update_task_acts_on_the_named_task(
    old: FactoryView,
    new: FactoryView,
    sender: String,
    para: UpdateTaskPara,
    r: Result<Response, ContractError>,
)
    requires
        update_task_post(old, new, sender, para, r),
        old.stories.contains_key(para.story_id),
        old.stories[para.story_id].author@ == sender@,
    ensures
        old.story_tasks.contains_key((para.story_id, para.task_id)) ==> {
            &&& r is Ok
            &&& new.story_tasks.contains_key((para.story_id, para.task_id))
            &&& new.story_tasks[(para.story_id, para.task_id)].cid == para.cid
            &&& new.story_tasks[(para.story_id, para.task_id)].id == old.story_tasks[(para.story_id, para.task_id)].id
            &&& new.story_tasks[(para.story_id, para.task_id)].status == old.story_tasks[(para.story_id, para.task_id)].status
            &&& new.story_tasks[(para.story_id, para.task_id)].creator == old.story_tasks[(para.story_id, para.task_id)].creator
            &&& new.story_tasks[(para.story_id, para.task_id)].reward_nfts == old.story_tasks[(para.story_id, para.task_id)].reward_nfts
            &&& other_tasks_unchanged(old, new, (para.story_id, para.task_id))
            &&& new.task_submits == old.task_submits
        },
        !old.story_tasks.contains_key((para.story_id, para.task_id)) ==> new == old && r
            == Err::<Response, ContractError>(
            ContractError::StoryTaskNotFound { story_id: para.story_id, task_id: para.task_id },
        ),
{
}

/// Cancelling a task acts on the task that the request names: by the
/// story's author it succeeds when that task exists, marks it "CANCELLED",
/// keeps every other task, and answers one transfer back to the sender for
/// each comma-separated token of that task's rewards, in order, on that
/// task's NFT contract; when that task does not exist it is refused with
/// nothing changed.
pub proof fn lemma_cancel_task_returns_the_named_rewards(
    old: FactoryView,
    new: FactoryView,
    sender: String,
    para: CancelTaskPara,
    r: Result<Response, ContractError>,
)
    requires
        cancel_task_post(old, new, sender, para, r),
        old.stories.contains_key(para.story_id),
        old.stories[para.story_id].author@ == sender@,
    ensures
        old.story_tasks.contains_key((para.story_id, para.task_id)) ==> {
            let task = old.story_tasks[(para.story_id, para.task_id)];
            let tokens = split_commas(task.reward_nfts@);
            &&& r matches Ok(resp) && {
                &&& resp@.len() == tokens.len()
                &&& forall|i: int| 0 <= i < tokens.len() ==> (#[trigger] resp@[i]).msg == CosmosMsgView::WasmExecute {
                    contract_addr: task.nft_address@,
                    msg: cw721_transfer_json(sender@, tokens[i]),
                    funds: Seq::empty(),
                }
            }
            &&& new.story_tasks.contains_key((para.story_id, para.task_id))
            &&& new.story_tasks[(para.story_id, para.task_id)].status@ == seq!['C', 'A', 'N', 'C', 'E', 'L', 'L', 'E', 'D']
            &&& new.story_tasks[(para.story_id, para.task_id)].cid == task.cid
            &&& new.story_tasks[(para.story_id, para.task_id)].reward_nfts == task.reward_nfts
            &&& other_tasks_unchanged(old, new, (para.story_id, para.task_id))
            &&& new.task_submits == old.task_submits
        },
        !old.story_tasks.contains_key((para.story_id, para.task_id)) ==> new == old && r
            == Err::<Response, ContractError>(
            ContractError::StoryTaskNotFound { story_id: para.story_id, task_id: para.task_id },
        ),
{
}

/// Marking a task done acts on the task and the submission that the request
/// names: when that task exists, the sender created it and that submission
/// exists, it succeeds, marks the task "DONE" and the submission
/// "APPROVED", keeps every other task and submission, and answers one
/// transfer to that submission's creator for each comma-separated token of
/// the task's rewards, in order; when that submission does not exist it is
/// refused with nothing changed.
pub proof fn lemma_mark_task_done_rewards_the_named_submission(
    old: FactoryView,
    new: FactoryView,
    sender: String,
    para: WithdrawTaskSubmitPara,
    r: Result<Response, ContractError>,
)
    requires
        mark_task_done_post(old, new, sender, para, r),
        old.story_tasks.contains_key((para.story_id, para.task_id)),
        old.story_tasks[(para.story_id, para.task_id)].creator@ == sender@,
    ensures
        old.task_submits.contains_key((para.story_id, para.task_id, para.submit_id)) ==> {
            let task = old.story_tasks[(para.story_id, para.task_id)];
            let submit = old.task_submits[(para.story_id, para.task_id, para.submit_id)];
            let tokens = split_commas(task.reward_nfts@);
            &&& r matches Ok(resp) && {
                &&& resp@.len() == tokens.len()
                &&& forall|i: int| 0 <= i < tokens.len() ==> (#[trigger] resp@[i]).msg == CosmosMsgView::WasmExecute {
                    contract_addr: task.nft_address@,
                    msg: cw721_transfer_json(submit.creator@, tokens[i]),
                    funds: Seq::empty(),
                }
            }
            &&& new.story_tasks.contains_key((para.story_id, para.task_id))
            &&& new.story_tasks[(para.story_id, para.task_id)].status@ == seq!['D', 'O', 'N', 'E']
            &&& new.task_submits.contains_key((para.story_id, para.task_id, para.submit_id))
            &&& new.task_submits[(para.story_id, para.task_id, para.submit_id)].status@ == seq!['A', 'P', 'P', 'R', 'O', 'V', 'E', 'D']
            &&& new.task_submits[(para.story_id, para.task_id, para.submit_id)].creator == submit.creator
            &&& new.task_submits[(para.story_id, para.task_id, para.submit_id)].cid == submit.cid
            &&& other_tasks_unchanged(old, new, (para.story_id, para.task_id))
            &&& other_submits_unchanged(old, new, (para.story_id, para.task_id, para.submit_id))
        },
        !old.task_submits.contains_key((para.story_id, para.task_id, para.submit_id)) ==> new == old && r
            == Err::<Response, ContractError>(
            ContractError::TaskSubmitNotFound {
                story_id: para.story_id,
                task_id: para.task_id,
                submit_id: para.submit_id,
            },
        ),
{
}

/// Whether some coin anywhere in the funds is exactly `price` of "udsm".
pub open spec fn funds_hold_udsm(funds: Seq<Coin>, price: int) -> bool {
    exists|i: int| 0 <= i < funds.len() && (#[trigger] funds[i]).denom@ == seq!['u', 'd', 's', 'm'] && funds[i].amount == price
}

/// On a sale with a token left, a mint is refused for payment exactly when
/// no coin of the funds, wherever it stands, is the price in "udsm"; when one
/// is and the story has its NFT contract, the mint succeeds: it pays that
/// price in "udsm" to the author, mints the next numbered token with its URI
/// to the buyer, and counts one more token sold.
pub proof fn lemma_mint_accepts_any_paying_coin(
    old: FactoryView,
    new: FactoryView,
    buyer: Seq<char>,
    funds: Seq<Coin>,
    story_id: u64,
    r: Result<Response, ContractError>,
)
    requires
        !mint_story_nft_panics(old, funds, story_id),
        mint_story_nft_post(old, new, buyer, funds, story_id, r),
        old.story_nft.contains_key(story_id),
        old.story_nft[story_id].nft_info.total > old.story_nft[story_id].sold + old.story_nft[story_id].author_claimed,
    ensures
        (r == Err::<Response, ContractError>(ContractError::PayNotEnough {})) == !funds_hold_udsm(
            funds,
            old.story_nft[story_id].nft_info.price as int,
        ),
        funds_hold_udsm(funds, old.story_nft[story_id].nft_info.price as int) && old.nft_contracts.contains_key(story_id) ==> {
            let n = old.story_nft[story_id];
            let number = n.author_claimed + n.sold + 1;
            let uri = n.nft_info.uri_prefix@ + seq!['/'] + signed_decimal(number) + seq!['.', 'j', 's', 'o', 'n'];
            &&& r matches Ok(resp) && {
                &&& resp@.len() == 2
                &&& resp@[0].msg == CosmosMsgView::BankSend {
                    to_address: n.author@,
                    amount: seq![CoinView { denom: seq!['u', 'd', 's', 'm'], amount: n.nft_info.price as u128 }],
                }
                &&& resp@[0].reply_on == ReplyOn::Never
                &&& resp@[1].msg == CosmosMsgView::WasmExecute {
                    contract_addr: old.nft_contracts[story_id]@,
                    msg: cw721_mint_json(signed_decimal(number), buyer, uri),
                    funds: Seq::empty(),
                }
            }
            &&& new.story_nft[story_id].sold == n.sold + 1
            &&& new.story_nft[story_id].author_claimed == n.author_claimed
        },
{
}

} // verus!
