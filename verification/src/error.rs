//! The ways a request to the contract can be refused.
use cosmwasm_std::StdError;
use vstd::prelude::*;

verus! {

/// Why an execution was refused.
#[derive(Debug, PartialEq)]
pub enum ContractError {
    /// An error of the chain itself (loading or storing the state); no
    /// request of the library answers it.
    StdError(StdError),
    Unauthorized { sender: String },
    StoryNotFound { story_id: u64 },
    StoryNftNotFound { story_id: u64 },
    StoryNftSoldOut { story_id: u64 },
    MsgStoryNftNotFound { msg_story_id: u64 },
    PayNotEnough {},
    NftMintError {},
    Test1 { amount: u128 },
    Test2 { denom: String, amount: u128 },
    StoryTaskNotFound { story_id: u64, task_id: u64 },
    TaskSubmitNotFound { story_id: u64, task_id: u64, submit_id: u64 },
}

/// Why a query found nothing.
#[derive(Clone, Copy, Debug, PartialEq, Eq)]
pub enum QueryError {
    /// No story has the id asked for.
    StoryNotFound,
    /// The story has no NFT contract or no NFT sale.
    StoryNftNotFound,
}

impl QueryError {
    /// The text of the generic error that the chain reports for this refusal.
    pub fn message(&self) -> (m: &'static str)
        ensures
            m@ == self.message_spec(),
    {
        match self {
            QueryError::StoryNotFound => {
                proof {
                    reveal_strlit("story ID not found");
                }
                "story ID not found"
            },
            QueryError::StoryNftNotFound => {
                proof {
                    reveal_strlit("story NFT not found");
                }
                "story NFT not found"
            },
        }
    }

    pub open spec fn message_spec(&self) -> Seq<char> {
        match self {
            QueryError::StoryNotFound => seq!['s', 't', 'o', 'r', 'y', ' ', 'I', 'D', ' ', 'n', 'o', 't', ' ', 'f', 'o', 'u', 'n', 'd'],
            QueryError::StoryNftNotFound => seq!['s', 't', 'o', 'r', 'y', ' ', 'N', 'F', 'T', ' ', 'n', 'o', 't', ' ', 'f', 'o', 'u', 'n', 'd'],
        }
    }
}

} // verus!
