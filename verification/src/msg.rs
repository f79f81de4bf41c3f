//! The contract's messages, the records it keeps, and the factory state that
//! holds them.
use std::collections::BTreeMap;
use std::collections::HashMap;
use vstd::prelude::*;

verus! {

/// The state changes that a sender can ask for.
#[derive(Clone, Debug, PartialEq, Eq)]
pub enum ExecuteMsg {
    PublishStory { post_id: String },
    PublishStoryNft {
        story_id: u64,
        image: String,
        name: String,
        uri_prefix: String,
        description: String,
        price: i32,
        token: String,
        author_reserve: i32,
        total: i32,
    },
    MintStoryNft { story_id: u64 },
    ClaimAuthorReservedNft { story_id: u64, mint_num: i32 },
    CreateTask { create_task_para: CreateTaskPara },
    UpdateTask { update_task_para: UpdateTaskPara },
    CancelTask { cancel_task_para: CancelTaskPara },
    CreateTaskSubmit { create_submit_para: UpdateTaskPara },
    WithdrawTaskSubmit { withdraw_submit_para: WithdrawTaskSubmitPara },
    MarkTaskDone { mark_task_done_para: WithdrawTaskSubmitPara },
}

/// The answer to a query for the next story id.
#[derive(Clone, Debug, PartialEq, Eq)]
pub struct GetStoryIdResp {
    pub story_id: u64,
}

/// The questions that can be asked of the factory.
#[derive(Clone, Debug, PartialEq, Eq)]
pub enum QueryMsg {
    GetNextStoryId {},
    GetStoryInfo { story_id: u64 },
    GetNftAddress { story_id: u64 },
    GetNftSale { story_id: u64 },
}

/// What a query answers.
#[derive(Clone, Debug, PartialEq, Eq)]
pub enum QueryResponse {
    NextStoryId(GetStoryIdResp),
    StoryInfo(Story),
    NftAddress(String),
    NftSale(StoryNft),
}

/// A published story: its id, its author's address and the post it points to.
#[derive(Clone, Debug, PartialEq, Eq)]
pub struct Story {
    pub story_id: u64,
    pub author: String,
    pub post_id: String,
}

/// The description of a story's NFT collection, as its author published it.
#[derive(Clone, Debug, PartialEq, Eq)]
pub struct PublishNftMsg {
    pub story_id: u64,
    pub name: String,
    pub image: String,
    pub description: String,
    pub uri_prefix: String,
    pub token: String,
    pub price: i32,
    pub total: i32,
    pub author_reserve: i32,
}

/// The sale of a story's NFTs: how many were sold and how many the author
/// claimed for free.
#[derive(Clone, Debug, PartialEq, Eq)]
pub struct StoryNft {
    pub nft_info: PublishNftMsg,
    pub author: String,
    pub sold: i32,
    pub author_claimed: i32,
}

/// What a story's author gives to open a task.
#[derive(Clone, Debug, PartialEq, Eq)]
pub struct CreateTaskPara {
    pub story_id: u64,
    pub cid: String,
    pub nft_address: String,
    pub reward_nfts: String,
}

/// Names a task and carries a content id (to update the task, or to submit
/// work for it).
#[derive(Clone, Debug, PartialEq, Eq)]
pub struct UpdateTaskPara {
    pub story_id: u64,
    pub task_id: u64,
    pub cid: String,
}

/// Names a task.
#[derive(Clone, Debug, PartialEq, Eq)]
pub struct CancelTaskPara {
    pub story_id: u64,
    pub task_id: u64,
}

/// Names a submission to a task.
#[derive(Clone, Debug, PartialEq, Eq)]
pub struct WithdrawTaskSubmitPara {
    pub story_id: u64,
    pub task_id: u64,
    pub submit_id: u64,
}

/// A task of a story, with the comma-separated token ids that reward it.
#[derive(Clone, Debug, PartialEq, Eq)]
pub struct Task {
    pub id: u64,
    pub cid: String,
    pub creator: String,
    pub nft_address: String,
    pub reward_nfts: String,
    pub status: String,
    pub next_submit_id: u64,
}

/// A submission of work to a task.
#[derive(Clone, Debug, PartialEq, Eq)]
pub struct Submit {
    pub id: u64,
    pub cid: String,
    pub creator: String,
    pub status: String,
}

/// The whole state of the factory.
///
/// Tasks are kept under the pair (story id, task id) and submissions under
/// the triple (story id, task id, submission id).
#[derive(Clone, Debug, PartialEq, Eq)]
pub struct StoryFactory {
    pub next_story_id: u64,
    pub stories: HashMap<u64, Story>,
    pub story_nft: HashMap<u64, StoryNft>,
    pub nft_contracts: HashMap<u64, String>,
    pub story_task_id: HashMap<u64, u64>,
    pub story_tasks: BTreeMap<(u64, u64), Task>,
    pub task_submits: BTreeMap<(u64, u64, u64), Submit>,
}

/// The factory state as maps.
pub struct FactoryView {
    pub next_story_id: u64,
    pub stories: Map<u64, Story>,
    pub story_nft: Map<u64, StoryNft>,
    pub nft_contracts: Map<u64, String>,
    pub story_task_id: Map<u64, u64>,
    pub story_tasks: Map<(u64, u64), Task>,
    pub task_submits: Map<(u64, u64, u64), Submit>,
}

impl View for StoryFactory {
    type V = FactoryView;

    open spec fn view(&self) -> FactoryView {
        FactoryView {
            next_story_id: self.next_story_id,
            stories: self.stories@,
            story_nft: self.story_nft@,
            nft_contracts: self.nft_contracts@,
            story_task_id: self.story_task_id@,
            story_tasks: self.story_tasks@,
            task_submits: self.task_submits@,
        }
    }
}

impl FactoryView {
    /// The factory's bookkeeping is consistent: every record sits under its
    /// own id, ids are handed out in order and never reused, and every sale,
    /// task and submission belongs to something that exists.
    pub open spec fn wf(self) -> bool {
        &&& 1 <= self.next_story_id
        &&& forall|k: u64| #[trigger] self.stories.contains_key(k) ==> {
            &&& self.stories[k].story_id == k
            &&& 1 <= k < self.next_story_id
        }
        &&& forall|k: u64| #[trigger] self.story_nft.contains_key(k) ==> {
            &&& self.stories.contains_key(k)
            &&& self.story_nft[k].author == self.stories[k].author
            &&& self.story_nft[k].nft_info.story_id == k
        }
        &&& forall|k: u64| #[trigger] self.story_task_id.contains_key(k) ==> {
            &&& self.stories.contains_key(k)
            &&& 2 <= self.story_task_id[k]
        }
        &&& forall|k: (u64, u64)| #[trigger] self.story_tasks.contains_key(k) ==> {
            &&& self.story_task_id.contains_key(k.0)
            &&& 1 <= k.1 < self.story_task_id[k.0]
            &&& self.story_tasks[k].id == k.1
            &&& 1 <= self.story_tasks[k].next_submit_id
        }
        &&& forall|k: (u64, u64, u64)| #[trigger] self.task_submits.contains_key(k) ==> {
            &&& self.story_tasks.contains_key((k.0, k.1))
            &&& 1 <= k.2 < self.story_tasks[(k.0, k.1)].next_submit_id
            &&& self.task_submits[k].id == k.2
        }
    }
}

} // verus!
