use cosmwasm_std::{to_json_binary, Empty};
use cw721_base::msg::{ExecuteMsg as Cw721ExecuteMsg, InstantiateMsg as Cw721InstantiateMsg};
use story_factory::contract::{
    cancel_task, claim_author_reserved_nft, create_task, create_task_submit, execute,
    get_nft_address, get_nft_sale, get_next_story_id, get_story_info, instantiate,
    mark_task_done, mint_story_nft, publish_nft, publish_story, query, record_nft_contract,
    reply, update_task, withdraw_task_submit, would_panic,
};
use story_factory::error::{ContractError, QueryError};
use story_factory::msg::{
    CancelTaskPara, CreateTaskPara, ExecuteMsg, QueryMsg, QueryResponse, StoryFactory,
    UpdateTaskPara, WithdrawTaskSubmitPara,
};
use story_factory::response::{Coin, CosmosMsg, ReplyOn, SubMsg};

const FACTORY: &str = "factory_addr";
const AUTHOR: &str = "author";
const READER: &str = "reader";
const NFT_ADDR: &str = "nft_addr";

fn s(x: &str) -> String {
    x.to_string()
}

fn coin(amount: u128, denom: &str) -> Coin {
    Coin { denom: s(denom), amount }
}

fn mint_bytes(token_id: &str, owner: &str, uri: &str) -> Vec<u8> {
    let msg = Cw721ExecuteMsg::<(), Empty>::Mint {
        token_id: s(token_id),
        owner: s(owner),
        token_uri: Some(s(uri)),
        extension: (),
    };
    to_json_binary(&msg).unwrap().0
}

fn transfer_bytes(recipient: &str, token_id: &str) -> Vec<u8> {
    let msg = Cw721ExecuteMsg::<String, String>::TransferNft { recipient: s(recipient), token_id: s(token_id) };
    to_json_binary(&msg).unwrap().0
}

fn exec_on_error(addr: &str, bytes: Vec<u8>) -> SubMsg {
    SubMsg {
        id: 0,
        msg: CosmosMsg::WasmExecute { contract_addr: s(addr), msg: bytes, funds: vec![] },
        gas_limit: None,
        reply_on: ReplyOn::Error,
    }
}

/// The protobuf answer to an instantiation naming `addr`.
fn instantiate_reply_data(addr: &str) -> Vec<u8> {
    let mut data = vec![0x0a, addr.len() as u8];
    data.extend_from_slice(addr.as_bytes());
    data
}

/// A factory with one story by AUTHOR and its NFT sale of `total` tokens at
/// `price`, with the NFT contract recorded.
fn factory_with_sale(price: i32, total: i32) -> StoryFactory {
    let mut state = instantiate();
    publish_story(&mut state, s(AUTHOR), s("post-1")).unwrap();
    publish_nft(
        &mut state,
        s(FACTORY),
        s(AUTHOR),
        1,
        s("image"),
        s("name"),
        s("ipfs://prefix"),
        s("description"),
        price,
        s("udsm"),
        2,
        total,
    )
    .unwrap();
    record_nft_contract(&mut state, 1, s(NFT_ADDR)).unwrap();
    state
}

fn factory_with_task(rewards: &str) -> StoryFactory {
    let mut state = instantiate();
    publish_story(&mut state, s(AUTHOR), s("post-1")).unwrap();
    create_task(
        &mut state,
        s(AUTHOR),
        CreateTaskPara { story_id: 1, cid: s("cid-1"), nft_address: s(NFT_ADDR), reward_nfts: s(rewards) },
    )
    .unwrap();
    state
}

#[test]
fn instantiate_starts_empty() {
    let state = instantiate();
    assert_eq!(state.next_story_id, 1);
    assert!(state.stories.is_empty());
    assert!(state.story_nft.is_empty());
    assert!(state.nft_contracts.is_empty());
    assert!(state.story_task_id.is_empty());
    assert!(state.story_tasks.is_empty());
    assert!(state.task_submits.is_empty());
    assert_eq!(get_next_story_id(&state).story_id, 1);
}

#[test]
fn published_stories_get_consecutive_ids() {
    let mut state = instantiate();
    let r = publish_story(&mut state, s(AUTHOR), s("post-a")).unwrap();
    assert!(r.messages.is_empty());
    publish_story(&mut state, s(READER), s("post-b")).unwrap();
    assert_eq!(get_next_story_id(&state).story_id, 3);
    let first = get_story_info(&state, 1).unwrap();
    assert_eq!(first.story_id, 1);
    assert_eq!(first.author, AUTHOR);
    assert_eq!(first.post_id, "post-a");
    let second = get_story_info(&state, 2).unwrap();
    assert_eq!(second.author, READER);
    assert_eq!(second.post_id, "post-b");
}

#[test]
fn missing_records_are_reported_by_queries() {
    let state = instantiate();
    assert_eq!(get_story_info(&state, 1), Err(QueryError::StoryNotFound));
    assert_eq!(get_nft_address(&state, 1), Err(QueryError::StoryNftNotFound));
    assert_eq!(get_nft_sale(&state, 1), Err(QueryError::StoryNftNotFound));
    assert_eq!(QueryError::StoryNotFound.message(), "story ID not found");
    assert_eq!(QueryError::StoryNftNotFound.message(), "story NFT not found");
}

#[test]
fn query_dispatches_every_question() {
    let state = factory_with_sale(100, 10);
    assert_eq!(
        query(&state, QueryMsg::GetNextStoryId {}),
        Ok(QueryResponse::NextStoryId(story_factory::msg::GetStoryIdResp { story_id: 2 }))
    );
    match query(&state, QueryMsg::GetStoryInfo { story_id: 1 }) {
        Ok(QueryResponse::StoryInfo(story)) => assert_eq!(story.post_id, "post-1"),
        other => panic!("unexpected {:?}", other),
    }
    assert_eq!(query(&state, QueryMsg::GetNftAddress { story_id: 1 }), Ok(QueryResponse::NftAddress(s(NFT_ADDR))));
    match query(&state, QueryMsg::GetNftSale { story_id: 1 }) {
        Ok(QueryResponse::NftSale(sale)) => {
            assert_eq!(sale.sold, 0);
            assert_eq!(sale.nft_info.price, 100);
        },
        other => panic!("unexpected {:?}", other),
    }
    assert_eq!(query(&state, QueryMsg::GetStoryInfo { story_id: 9 }), Err(QueryError::StoryNotFound));
    assert_eq!(query(&state, QueryMsg::GetNftSale { story_id: 9 }), Err(QueryError::StoryNftNotFound));
}

#[test]
fn publish_nft_instantiates_the_collection() {
    let mut state = instantiate();
    publish_story(&mut state, s(AUTHOR), s("post-1")).unwrap();
    let r = publish_nft(
        &mut state,
        s(FACTORY),
        s(AUTHOR),
        1,
        s("image"),
        s("name"),
        s("ipfs://prefix"),
        s("description"),
        5,
        s("udsm"),
        2,
        10,
    )
    .unwrap();
    let expected_msg = to_json_binary(&Cw721InstantiateMsg { name: s("1"), symbol: s("1"), minter: s(FACTORY) }).unwrap().0;
    assert_eq!(
        r.messages,
        vec![SubMsg {
            id: 1,
            msg: CosmosMsg::WasmInstantiate {
                admin: None,
                code_id: 10,
                msg: expected_msg,
                funds: vec![],
                label: s("Story NFT"),
            },
            gas_limit: None,
            reply_on: ReplyOn::Success,
        }]
    );
    let sale = get_nft_sale(&state, 1).unwrap();
    assert_eq!(sale.sold, 0);
    assert_eq!(sale.author_claimed, 0);
    assert_eq!(sale.author, AUTHOR);
    assert_eq!(sale.nft_info.story_id, 1);
    assert_eq!(sale.nft_info.name, "name");
    assert_eq!(sale.nft_info.total, 10);
    assert_eq!(sale.nft_info.author_reserve, 2);
}

#[test]
fn publish_nft_refuses_strangers_and_missing_stories() {
    let mut state = instantiate();
    publish_story(&mut state, s(AUTHOR), s("post-1")).unwrap();
    let before = state.clone();
    let r = publish_nft(&mut state, s(FACTORY), s(READER), 1, s("i"), s("n"), s("p"), s("d"), 1, s("t"), 0, 1);
    assert_eq!(r, Err(ContractError::Unauthorized { sender: s(READER) }));
    let r = publish_nft(&mut state, s(FACTORY), s(AUTHOR), 7, s("i"), s("n"), s("p"), s("d"), 1, s("t"), 0, 1);
    assert_eq!(r, Err(ContractError::StoryNotFound { story_id: 7 }));
    assert_eq!(state, before);
}

#[test]
fn reply_records_the_instantiated_contract() {
    let mut state = instantiate();
    let r = reply(&mut state, 3, Some(instantiate_reply_data("contract_xyz")));
    assert!(matches!(r, Some(Ok(ref resp)) if resp.messages.is_empty()));
    assert_eq!(get_nft_address(&state, 3), Ok(s("contract_xyz")));
}

#[test]
fn reply_with_id_zero_reports_a_failed_mint() {
    let mut state = instantiate();
    assert_eq!(reply(&mut state, 0, None), Some(Err(ContractError::NftMintError {})));
    assert_eq!(record_nft_contract(&mut state, 0, s("x")), Err(ContractError::NftMintError {}));
    assert!(state.nft_contracts.is_empty());
}

#[test]
fn reply_without_readable_data_has_no_result() {
    let mut state = instantiate();
    assert_eq!(reply(&mut state, 2, None), None);
    assert_eq!(reply(&mut state, 2, Some(vec![0xff, 0x01])), None);
    assert!(state.nft_contracts.is_empty());
}

#[test]
fn mint_pays_the_author_and_mints_the_next_token() {
    let mut state = factory_with_sale(100, 10);
    let r = mint_story_nft(&mut state, s(READER), vec![coin(5, "uatom"), coin(100, "udsm")], 1).unwrap();
    assert_eq!(
        r.messages,
        vec![
            SubMsg {
                id: 0,
                msg: CosmosMsg::BankSend { to_address: s(AUTHOR), amount: vec![coin(100, "udsm")] },
                gas_limit: None,
                reply_on: ReplyOn::Never,
            },
            exec_on_error(NFT_ADDR, mint_bytes("1", READER, "ipfs://prefix/1.json")),
        ]
    );
    assert_eq!(get_nft_sale(&state, 1).unwrap().sold, 1);
    let r = mint_story_nft(&mut state, s(READER), vec![coin(100, "udsm")], 1).unwrap();
    assert_eq!(r.messages[1], exec_on_error(NFT_ADDR, mint_bytes("2", READER, "ipfs://prefix/2.json")));
    assert_eq!(get_nft_sale(&state, 1).unwrap().sold, 2);
}

#[test]
fn mint_refuses_wrong_payment() {
    let mut state = factory_with_sale(100, 10);
    let before = state.clone();
    assert_eq!(mint_story_nft(&mut state, s(READER), vec![], 1), Err(ContractError::PayNotEnough {}));
    assert_eq!(mint_story_nft(&mut state, s(READER), vec![coin(99, "udsm")], 1), Err(ContractError::PayNotEnough {}));
    assert_eq!(mint_story_nft(&mut state, s(READER), vec![coin(100, "uatom")], 1), Err(ContractError::PayNotEnough {}));
    assert_eq!(mint_story_nft(&mut state, s(READER), vec![coin(101, "udsm")], 1), Err(ContractError::PayNotEnough {}));
    assert_eq!(state, before);
}

#[test]
fn mint_refuses_missing_and_sold_out_sales() {
    let mut state = factory_with_sale(1, 1);
    assert_eq!(mint_story_nft(&mut state, s(READER), vec![coin(1, "udsm")], 2), Err(ContractError::StoryNftNotFound { story_id: 2 }));
    mint_story_nft(&mut state, s(READER), vec![coin(1, "udsm")], 1).unwrap();
    let before = state.clone();
    assert_eq!(mint_story_nft(&mut state, s(READER), vec![coin(1, "udsm")], 1), Err(ContractError::StoryNftSoldOut { story_id: 1 }));
    assert_eq!(state, before);
}

#[test]
fn mint_without_nft_contract_keeps_the_sold_count() {
    let mut state = instantiate();
    publish_story(&mut state, s(AUTHOR), s("p")).unwrap();
    publish_nft(&mut state, s(FACTORY), s(AUTHOR), 1, s("i"), s("n"), s("pre"), s("d"), 3, s("t"), 0, 5).unwrap();
    let r = mint_story_nft(&mut state, s(READER), vec![coin(3, "udsm")], 1);
    assert_eq!(r, Err(ContractError::StoryNftNotFound { story_id: 1 }));
    assert_eq!(get_nft_sale(&state, 1).unwrap().sold, 1);
}

#[test]
fn claim_mints_reserved_tokens_to_the_author() {
    let mut state = factory_with_sale(100, 10);
    mint_story_nft(&mut state, s(READER), vec![coin(100, "udsm")], 1).unwrap();
    let r = claim_author_reserved_nft(&mut state, s(AUTHOR), 1, 3).unwrap();
    assert_eq!(
        r.messages,
        vec![
            exec_on_error(NFT_ADDR, mint_bytes("2", AUTHOR, "ipfs://prefix/2.json")),
            exec_on_error(NFT_ADDR, mint_bytes("3", AUTHOR, "ipfs://prefix/3.json")),
            exec_on_error(NFT_ADDR, mint_bytes("4", AUTHOR, "ipfs://prefix/4.json")),
        ]
    );
    let sale = get_nft_sale(&state, 1).unwrap();
    assert_eq!(sale.author_claimed, 3);
    assert_eq!(sale.sold, 1);
    let r = mint_story_nft(&mut state, s(READER), vec![coin(100, "udsm")], 1).unwrap();
    assert_eq!(r.messages[1], exec_on_error(NFT_ADDR, mint_bytes("5", READER, "ipfs://prefix/5.json")));
}

#[test]
fn claim_with_negative_count_mints_nothing() {
    let mut state = factory_with_sale(100, 10);
    let r = claim_author_reserved_nft(&mut state, s(AUTHOR), 1, -2).unwrap();
    assert!(r.messages.is_empty());
    assert_eq!(get_nft_sale(&state, 1).unwrap().author_claimed, -2);
}

#[test]
fn claim_refusals() {
    let mut state = factory_with_sale(100, 2);
    let before = state.clone();
    assert_eq!(claim_author_reserved_nft(&mut state, s(READER), 1, 1), Err(ContractError::Unauthorized { sender: s(READER) }));
    assert_eq!(claim_author_reserved_nft(&mut state, s(AUTHOR), 4, 1), Err(ContractError::StoryNftNotFound { story_id: 4 }));
    assert_eq!(state, before);
    claim_author_reserved_nft(&mut state, s(AUTHOR), 1, 2).unwrap();
    assert_eq!(claim_author_reserved_nft(&mut state, s(AUTHOR), 1, 1), Err(ContractError::StoryNftSoldOut { story_id: 1 }));
}

#[test]
fn claim_without_nft_contract_is_refused() {
    let mut state = instantiate();
    publish_story(&mut state, s(AUTHOR), s("p")).unwrap();
    publish_nft(&mut state, s(FACTORY), s(AUTHOR), 1, s("i"), s("n"), s("pre"), s("d"), 3, s("t"), 0, 5).unwrap();
    assert_eq!(claim_author_reserved_nft(&mut state, s(AUTHOR), 1, 1), Err(ContractError::StoryNftNotFound { story_id: 1 }));
}

#[test]
fn tasks_get_consecutive_ids_per_story() {
    let mut state = factory_with_task("7,8");
    create_task(&mut state, s(AUTHOR), CreateTaskPara { story_id: 1, cid: s("cid-2"), nft_address: s(NFT_ADDR), reward_nfts: s("9") }).unwrap();
    publish_story(&mut state, s(READER), s("post-2")).unwrap();
    create_task(&mut state, s(READER), CreateTaskPara { story_id: 2, cid: s("cid-3"), nft_address: s(NFT_ADDR), reward_nfts: s("1") }).unwrap();
    let t1 = &state.story_tasks[&(1, 1)];
    assert_eq!(t1.id, 1);
    assert_eq!(t1.cid, "cid-1");
    assert_eq!(t1.creator, AUTHOR);
    assert_eq!(t1.status, "TODO");
    assert_eq!(t1.next_submit_id, 1);
    assert_eq!(state.story_tasks[&(1, 2)].id, 2);
    assert_eq!(state.story_tasks[&(2, 1)].creator, READER);
    assert_eq!(state.story_task_id[&1], 3);
    assert_eq!(state.story_task_id[&2], 2);
}

#[test]
fn create_task_refusals() {
    let mut state = factory_with_task("1");
    let before = state.clone();
    let para = CreateTaskPara { story_id: 1, cid: s("c"), nft_address: s(NFT_ADDR), reward_nfts: s("1") };
    assert_eq!(create_task(&mut state, s(READER), para.clone()), Err(ContractError::Unauthorized { sender: s(READER) }));
    let para = CreateTaskPara { story_id: 5, ..para };
    assert_eq!(create_task(&mut state, s(AUTHOR), para), Err(ContractError::StoryNotFound { story_id: 5 }));
    assert_eq!(state, before);
}

#[test]
fn update_task_changes_the_content_id() {
    let mut state = factory_with_task("1");
    update_task(&mut state, s(AUTHOR), UpdateTaskPara { story_id: 1, task_id: 1, cid: s("cid-new") }).unwrap();
    assert_eq!(state.story_tasks[&(1, 1)].cid, "cid-new");
    assert_eq!(state.story_tasks[&(1, 1)].status, "TODO");
    let r = update_task(&mut state, s(AUTHOR), UpdateTaskPara { story_id: 1, task_id: 4, cid: s("x") });
    assert_eq!(r, Err(ContractError::StoryTaskNotFound { story_id: 1, task_id: 4 }));
    let r = update_task(&mut state, s(READER), UpdateTaskPara { story_id: 1, task_id: 1, cid: s("x") });
    assert_eq!(r, Err(ContractError::Unauthorized { sender: s(READER) }));
    assert_eq!(state.story_tasks[&(1, 1)].cid, "cid-new");
}

#[test]
fn cancel_task_returns_every_reward() {
    let mut state = factory_with_task("11,12,13");
    let r = cancel_task(&mut state, s(AUTHOR), CancelTaskPara { story_id: 1, task_id: 1 }).unwrap();
    assert_eq!(
        r.messages,
        vec![
            exec_on_error(NFT_ADDR, transfer_bytes(AUTHOR, "11")),
            exec_on_error(NFT_ADDR, transfer_bytes(AUTHOR, "12")),
            exec_on_error(NFT_ADDR, transfer_bytes(AUTHOR, "13")),
        ]
    );
    assert_eq!(state.story_tasks[&(1, 1)].status, "CANCELLED");
}

#[test]
fn cancel_task_with_empty_rewards_sends_one_empty_token() {
    let mut state = factory_with_task("");
    let r = cancel_task(&mut state, s(AUTHOR), CancelTaskPara { story_id: 1, task_id: 1 }).unwrap();
    assert_eq!(r.messages, vec![exec_on_error(NFT_ADDR, transfer_bytes(AUTHOR, ""))]);
}

#[test]
fn cancel_task_refusals() {
    let mut state = factory_with_task("1");
    let before = state.clone();
    assert_eq!(
        cancel_task(&mut state, s(READER), CancelTaskPara { story_id: 1, task_id: 1 }),
        Err(ContractError::Unauthorized { sender: s(READER) })
    );
    assert_eq!(
        cancel_task(&mut state, s(AUTHOR), CancelTaskPara { story_id: 1, task_id: 2 }),
        Err(ContractError::StoryTaskNotFound { story_id: 1, task_id: 2 })
    );
    assert_eq!(
        cancel_task(&mut state, s(AUTHOR), CancelTaskPara { story_id: 3, task_id: 1 }),
        Err(ContractError::StoryNotFound { story_id: 3 })
    );
    assert_eq!(state, before);
}

#[test]
fn submissions_get_consecutive_ids() {
    let mut state = factory_with_task("1");
    create_task_submit(&mut state, s(READER), UpdateTaskPara { story_id: 1, task_id: 1, cid: s("work-1") }).unwrap();
    create_task_submit(&mut state, s("other"), UpdateTaskPara { story_id: 1, task_id: 1, cid: s("work-2") }).unwrap();
    let first = &state.task_submits[&(1, 1, 1)];
    assert_eq!(first.id, 1);
    assert_eq!(first.cid, "work-1");
    assert_eq!(first.creator, READER);
    assert_eq!(first.status, "PENDING");
    assert_eq!(state.task_submits[&(1, 1, 2)].creator, "other");
    assert_eq!(state.story_tasks[&(1, 1)].next_submit_id, 3);
    let r = create_task_submit(&mut state, s(READER), UpdateTaskPara { story_id: 1, task_id: 9, cid: s("w") });
    assert_eq!(r, Err(ContractError::StoryTaskNotFound { story_id: 1, task_id: 9 }));
}

#[test]
fn only_the_submitter_withdraws() {
    let mut state = factory_with_task("1");
    create_task_submit(&mut state, s(READER), UpdateTaskPara { story_id: 1, task_id: 1, cid: s("work") }).unwrap();
    let para = WithdrawTaskSubmitPara { story_id: 1, task_id: 1, submit_id: 1 };
    assert_eq!(withdraw_task_submit(&mut state, s(AUTHOR), para.clone()), Err(ContractError::Unauthorized { sender: s(AUTHOR) }));
    assert_eq!(state.task_submits[&(1, 1, 1)].status, "PENDING");
    withdraw_task_submit(&mut state, s(READER), para).unwrap();
    assert_eq!(state.task_submits[&(1, 1, 1)].status, "WITHDRAWED");
    let missing = WithdrawTaskSubmitPara { story_id: 1, task_id: 1, submit_id: 2 };
    assert_eq!(
        withdraw_task_submit(&mut state, s(READER), missing),
        Err(ContractError::TaskSubmitNotFound { story_id: 1, task_id: 1, submit_id: 2 })
    );
}

#[test]
fn mark_task_done_rewards_the_submitter() {
    let mut state = factory_with_task("5,6");
    create_task_submit(&mut state, s(READER), UpdateTaskPara { story_id: 1, task_id: 1, cid: s("work") }).unwrap();
    let para = WithdrawTaskSubmitPara { story_id: 1, task_id: 1, submit_id: 1 };
    let r = mark_task_done(&mut state, s(AUTHOR), para).unwrap();
    assert_eq!(
        r.messages,
        vec![
            exec_on_error(NFT_ADDR, transfer_bytes(READER, "5")),
            exec_on_error(NFT_ADDR, transfer_bytes(READER, "6")),
        ]
    );
    assert_eq!(state.story_tasks[&(1, 1)].status, "DONE");
    assert_eq!(state.task_submits[&(1, 1, 1)].status, "APPROVED");
}

#[test]
fn mark_task_done_refusals() {
    let mut state = factory_with_task("5");
    create_task_submit(&mut state, s(READER), UpdateTaskPara { story_id: 1, task_id: 1, cid: s("work") }).unwrap();
    let before = state.clone();
    let para = WithdrawTaskSubmitPara { story_id: 1, task_id: 1, submit_id: 1 };
    assert_eq!(mark_task_done(&mut state, s(READER), para.clone()), Err(ContractError::Unauthorized { sender: s(READER) }));
    let missing = WithdrawTaskSubmitPara { submit_id: 4, ..para.clone() };
    assert_eq!(
        mark_task_done(&mut state, s(AUTHOR), missing),
        Err(ContractError::TaskSubmitNotFound { story_id: 1, task_id: 1, submit_id: 4 })
    );
    let no_task = WithdrawTaskSubmitPara { task_id: 3, ..para };
    assert_eq!(
        mark_task_done(&mut state, s(AUTHOR), no_task),
        Err(ContractError::StoryTaskNotFound { story_id: 1, task_id: 3 })
    );
    assert_eq!(state, before);
}

#[test]
fn execute_dispatches_requests() {
    let mut state = instantiate();
    execute(&mut state, s(FACTORY), s(AUTHOR), vec![], ExecuteMsg::PublishStory { post_id: s("p") }).unwrap();
    let r = execute(
        &mut state,
        s(FACTORY),
        s(AUTHOR),
        vec![],
        ExecuteMsg::PublishStoryNft {
            story_id: 1,
            image: s("i"),
            name: s("n"),
            uri_prefix: s("u"),
            description: s("d"),
            price: 4,
            token: s("udsm"),
            author_reserve: 1,
            total: 3,
        },
    )
    .unwrap();
    assert_eq!(r.messages.len(), 1);
    reply(&mut state, 1, Some(instantiate_reply_data(NFT_ADDR))).unwrap().unwrap();
    let r = execute(&mut state, s(FACTORY), s(READER), vec![coin(4, "udsm")], ExecuteMsg::MintStoryNft { story_id: 1 }).unwrap();
    assert_eq!(r.messages[1], exec_on_error(NFT_ADDR, mint_bytes("1", READER, "u/1.json")));
    execute(&mut state, s(FACTORY), s(AUTHOR), vec![], ExecuteMsg::ClaimAuthorReservedNft { story_id: 1, mint_num: 1 }).unwrap();
    let para = CreateTaskPara { story_id: 1, cid: s("c"), nft_address: s(NFT_ADDR), reward_nfts: s("2") };
    execute(&mut state, s(FACTORY), s(AUTHOR), vec![], ExecuteMsg::CreateTask { create_task_para: para }).unwrap();
    let para = UpdateTaskPara { story_id: 1, task_id: 1, cid: s("c2") };
    execute(&mut state, s(FACTORY), s(AUTHOR), vec![], ExecuteMsg::UpdateTask { update_task_para: para }).unwrap();
    let para = UpdateTaskPara { story_id: 1, task_id: 1, cid: s("w") };
    execute(&mut state, s(FACTORY), s(READER), vec![], ExecuteMsg::CreateTaskSubmit { create_submit_para: para }).unwrap();
    let para = WithdrawTaskSubmitPara { story_id: 1, task_id: 1, submit_id: 1 };
    execute(&mut state, s(FACTORY), s(READER), vec![], ExecuteMsg::WithdrawTaskSubmit { withdraw_submit_para: para.clone() }).unwrap();
    execute(&mut state, s(FACTORY), s(AUTHOR), vec![], ExecuteMsg::MarkTaskDone { mark_task_done_para: para }).unwrap();
    let para = CancelTaskPara { story_id: 1, task_id: 1 };
    execute(&mut state, s(FACTORY), s(AUTHOR), vec![], ExecuteMsg::CancelTask { cancel_task_para: para }).unwrap();
    assert_eq!(state.story_tasks[&(1, 1)].status, "CANCELLED");
    assert_eq!(state.task_submits[&(1, 1, 1)].status, "APPROVED");
    assert_eq!(state.story_nft[&1].sold, 1);
    assert_eq!(state.story_nft[&1].author_claimed, 1);
}

#[test]
fn would_panic_flags_overflowing_requests() {
    let mut state = factory_with_sale(-1, 10);
    assert!(would_panic(&state, &s(READER), &vec![], &ExecuteMsg::MintStoryNft { story_id: 1 }));
    assert!(!would_panic(&state, &s(READER), &vec![], &ExecuteMsg::MintStoryNft { story_id: 2 }));
    assert!(!would_panic(&state, &s(AUTHOR), &vec![], &ExecuteMsg::ClaimAuthorReservedNft { story_id: 1, mint_num: 3 }));
    assert!(!would_panic(&state, &s(AUTHOR), &vec![], &ExecuteMsg::ClaimAuthorReservedNft { story_id: 1, mint_num: i32::MAX }));
    claim_author_reserved_nft(&mut state, s(AUTHOR), 1, 1).unwrap();
    assert!(would_panic(&state, &s(AUTHOR), &vec![], &ExecuteMsg::ClaimAuthorReservedNft { story_id: 1, mint_num: i32::MAX }));
    claim_author_reserved_nft(&mut state, s(AUTHOR), 1, -2).unwrap();
    assert!(would_panic(&state, &s(AUTHOR), &vec![], &ExecuteMsg::ClaimAuthorReservedNft { story_id: 1, mint_num: i32::MIN }));
    assert!(!would_panic(&state, &s(READER), &vec![], &ExecuteMsg::ClaimAuthorReservedNft { story_id: 1, mint_num: i32::MAX }));
    state.next_story_id = u64::MAX;
    assert!(would_panic(&state, &s(AUTHOR), &vec![], &ExecuteMsg::PublishStory { post_id: s("p") }));
    let fresh = factory_with_sale(7, 10);
    assert!(!would_panic(&fresh, &s(READER), &vec![coin(7, "udsm")], &ExecuteMsg::MintStoryNft { story_id: 1 }));
}

#[test]
fn stories_survive_every_other_request() {
    let mut state = factory_with_sale(3, 5);
    let story = get_story_info(&state, 1).unwrap();
    mint_story_nft(&mut state, s(READER), vec![coin(3, "udsm")], 1).unwrap();
    claim_author_reserved_nft(&mut state, s(AUTHOR), 1, 1).unwrap();
    create_task(&mut state, s(AUTHOR), CreateTaskPara { story_id: 1, cid: s("c"), nft_address: s(NFT_ADDR), reward_nfts: s("1") }).unwrap();
    cancel_task(&mut state, s(AUTHOR), CancelTaskPara { story_id: 1, task_id: 1 }).unwrap();
    publish_story(&mut state, s(READER), s("post-2")).unwrap();
    assert_eq!(get_story_info(&state, 1).unwrap(), story);
    assert_eq!(get_next_story_id(&state).story_id, 3);
}
