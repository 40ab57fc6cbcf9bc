use vstd::prelude::*;

verus! {

/// One stored chat message.
#[derive(Clone, Debug)]
pub struct Model {
    /// Row id assigned by the store; 0 until stored.
    pub id: i64,
    /// The host's message id.
    pub message_id: i64,
    pub user_id: i64,
    /// Absent for a private message.
    pub group_id: Option<i64>,
    pub msg_type: String,
    pub sub_type: Option<String>,
    /// Serialized payload, capped in length.
    pub raw_json: String,
    /// Display text, capped in length.
    pub clean_text: String,
    /// Characters in `clean_text`.
    pub text_length: i32,
    pub has_image: bool,
    pub has_at: bool,
    pub is_reply: bool,
    pub sender_nickname: String,
    pub sender_card: Option<String>,
    pub sender_role: Option<String>,
    /// Unix time of the event.
    pub created_at: i64,
    /// Local hour, 0 to 23.
    pub hour_of_day: i32,
    /// Local weekday, 0 for Sunday to 6.
    pub day_of_week: i32,
}

} // verus!
