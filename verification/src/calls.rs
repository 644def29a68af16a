//! Which calls to the provider's API one invocation makes.

use vstd::prelude::*;

verus! {

/// One call to the provider's API. `B` is the body of an update.
pub enum ApiCall<B> {
    /// List the rewards of this broadcaster.
    GetRewards { broadcaster_id: String },
    /// Change this reward of this broadcaster as `body` says.
    Update { broadcaster_id: String, reward_id: String, body: B },
}

/// The calls that list the rewards of the user whom the token belongs to.
pub fn plan_get_rewards<B>(broadcaster_id: String) -> (calls: Vec<ApiCall<B>>)
    ensures
        calls@ == seq![ApiCall::<B>::GetRewards { broadcaster_id }],
{
    let mut calls: Vec<ApiCall<B>> = Vec::new();
    calls.push(ApiCall::GetRewards { broadcaster_id });
    calls
}

/// The calls that a script's result stands for: one update where the script
/// gave both a reward and a body, for the broadcaster it named or else for
/// the user whom the token belongs to; none where either is missing.
pub open spec fn planned_update<B>(
    default_broadcaster_id: String,
    reward_id: Option<String>,
    body: Option<B>,
    broadcaster_id: Option<String>,
) -> Seq<ApiCall<B>> {
    match (reward_id, body) {
        (Some(reward_id), Some(body)) => seq![
            ApiCall::Update {
                broadcaster_id: match broadcaster_id {
                    Some(named) => named,
                    None => default_broadcaster_id,
                },
                reward_id,
                body,
            },
        ],
        _ => Seq::empty(),
    }
}

/// Plans the calls for what a script's result holds.
pub fn plan_update<B>(
    default_broadcaster_id: String,
    reward_id: Option<String>,
    body: Option<B>,
    broadcaster_id: Option<String>,
) -> (calls: Vec<ApiCall<B>>)
    ensures
        calls@ == planned_update(default_broadcaster_id, reward_id, body, broadcaster_id),
{
    let mut calls: Vec<ApiCall<B>> = Vec::new();
    match (reward_id, body) {
        (Some(reward_id), Some(body)) => {
            let broadcaster_id = match broadcaster_id {
                Some(named) => named,
                None => default_broadcaster_id,
            };
            calls.push(ApiCall::Update { broadcaster_id, reward_id, body });
        },
        _ => {},
    }
    calls
}

} // verus!
