use vstd::prelude::*;

verus! {

/// One sender ever seen.
#[derive(Clone, Debug)]
pub struct Model {
    pub user_id: i64,
    /// Latest known display name.
    pub nickname: String,
    pub first_seen: i64,
    pub last_seen: i64,
    pub message_count: i64,
}

} // verus!
