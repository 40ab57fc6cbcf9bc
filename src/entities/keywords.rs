use vstd::prelude::*;

verus! {

/// One keyword of a stored message.
#[derive(Clone, Debug)]
pub struct Model {
    pub id: i64,
    /// Row id of the owning message.
    pub message_id: i64,
    pub word: String,
    /// Characters in `word`.
    pub word_length: i32,
    pub group_id: Option<i64>,
    pub user_id: i64,
    pub created_at: i64,
}

} // verus!
