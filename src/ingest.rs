use vstd::prelude::*;
use vstd::string::StringSliceAdditionalSpecFns;
use vstd::utf8::{
    decode_utf8, decode_utf8_encode_utf8, decode_utf8_split, encode_utf8, encode_utf8_decode_utf8,
    encode_utf8_valid_utf8, is_char_boundary, is_char_boundary_start_end_of_seq, valid_utf8,
    valid_utf8_split,
};
use crate::clock::event_time_fields;
use crate::config::ConfigSnapshot;
use crate::entities::{keywords, messages, users};
use crate::segment::{keyword_words, lengths_match, segmented, select, trimmed, Segmenter};
use crate::config::texts;
use crate::text::{contains_text, seq_contains};

verus! {

/// Longest display text kept, in bytes of its UTF-8 encoding.
pub const MAX_TEXT_LEN: usize = 4000;

/// Longest serialized payload kept, in bytes of its UTF-8 encoding.
pub const MAX_JSON_LEN: usize = 10000;

/// Appended to a text that was cut short.
pub const TRUNCATION_MARKER: &'static str = "...(truncated)";

/// Payload fragment of an image segment.
pub const IMAGE_MARKER: &'static str = "\"type\":\"image\"";

/// Payload fragment of a mention segment.
pub const AT_MARKER: &'static str = "\"type\":\"at\"";

/// Payload fragment of a reply segment.
pub const REPLY_MARKER: &'static str = "\"type\":\"reply\"";

/// One chat event as delivered by the host.
#[derive(Clone, Debug)]
pub struct InboundMessage {
    pub message_id: i64,
    pub user_id: i64,
    pub group_id: Option<i64>,
    pub message_type: String,
    pub sub_type: String,
    /// The serialized payload.
    pub raw_json: String,
    /// The plain display text, when the payload has one.
    pub text: Option<String>,
    pub nickname: Option<String>,
    pub card: Option<String>,
    pub role: Option<String>,
    /// Unix time of the event.
    pub time: i64,
}

/// The rows one message produces: the message, its keywords (owner id still
/// unassigned), and the sender's upsert.
#[derive(Clone, Debug)]
pub struct PendingWrite {
    pub message: messages::Model,
    pub keywords: Vec<keywords::Model>,
    pub user_upsert: users::Model,
}

/// Bytes in the UTF-8 encoding of a text.
pub open spec fn utf8_len(s: Seq<char>) -> nat {
    encode_utf8(s).len()
}

/// The last character boundary of `bytes` at or before byte `i`.
pub open spec fn last_boundary(bytes: Seq<u8>, i: nat) -> nat
    decreases i,
{
    if i == 0 || is_char_boundary(bytes, i as int) {
        i
    } else {
        last_boundary(bytes, (i - 1) as nat)
    }
}

/// The longest prefix of a text whose UTF-8 encoding is at most `max` bytes
/// and ends on a character boundary.
pub open spec fn byte_prefix(s: Seq<char>, max: nat) -> Seq<char> {
    decode_utf8(encode_utf8(s).take(last_boundary(encode_utf8(s), max) as int))
}

/// A text capped at `max` bytes: a longer one keeps its longest prefix of at
/// most `max` bytes that ends on a character boundary, followed by a marker.
pub open spec fn capped(s: Seq<char>, max: nat) -> Seq<char> {
    if utf8_len(s) > max {
        byte_prefix(s, max) + TRUNCATION_MARKER@
    } else {
        s
    }
}

/// Every character takes at least one byte.
pub proof fn lemma_chars_within_bytes(s: Seq<char>)
    ensures
        s.len() <= utf8_len(s),
    decreases s.len(),
{
    if s.len() > 0 {
        lemma_chars_within_bytes(s.drop_first());
    }
}

/// The byte prefix of a text is a prefix of its characters, at most `max` bytes long.
pub proof fn lemma_byte_prefix_is_prefix(s: Seq<char>, max: nat)
    requires
        max <= utf8_len(s),
    ensures
        byte_prefix(s, max).len() <= s.len(),
        s.take(byte_prefix(s, max).len() as int) == byte_prefix(s, max),
        utf8_len(byte_prefix(s, max)) <= max,
{
    let bytes = encode_utf8(s);
    encode_utf8_valid_utf8(s);
    let cut = last_boundary(bytes, max);
    lemma_last_boundary(bytes, max);
    encode_utf8_decode_utf8(s);
    valid_utf8_split(bytes, cut as int);
    decode_utf8_split(bytes, cut as int);
    let head = bytes.subrange(0, cut as int);
    assert(bytes.take(cut as int) =~= head);
    let tail = decode_utf8(bytes.subrange(cut as int, bytes.len() as int));
    assert(s == decode_utf8(head) + tail);
    assert(s.take(decode_utf8(head).len() as int) =~= decode_utf8(head));
    decode_utf8_encode_utf8(head);
}

proof fn lemma_last_boundary(bytes: Seq<u8>, i: nat)
    requires
        valid_utf8(bytes),
        i <= bytes.len(),
    ensures
        last_boundary(bytes, i) <= i,
        is_char_boundary(bytes, last_boundary(bytes, i) as int),
    decreases i,
{
    is_char_boundary_start_end_of_seq(bytes);
    if i > 0 && !is_char_boundary(bytes, i as int) {
        lemma_last_boundary(bytes, (i - 1) as nat);
    }
}

/// An optional text, empty when absent.
pub open spec fn text_or_empty(s: Option<String>) -> Seq<char> {
    match s {
        Some(t) => t@,
        None => Seq::empty(),
    }
}

/// The view of an optional string.
pub open spec fn opt_view(s: Option<String>) -> Option<Seq<char>> {
    match s {
        Some(t) => Some(t@),
        None => None,
    }
}

/// The display text stored for an event.
pub open spec fn clean_text_of(ev: InboundMessage) -> Seq<char> {
    capped(text_or_empty(ev.text), MAX_TEXT_LEN as nat)
}

/// The payload stored for an event.
pub open spec fn raw_json_of(ev: InboundMessage) -> Seq<char> {
    capped(ev.raw_json@, MAX_JSON_LEN as nat)
}

/// The message row an event yields, with the given local hour and weekday.
pub open spec fn message_row_of(ev: InboundMessage, hour: i32, dow: i32, m: messages::Model) -> bool {
    &&& m.id == 0
    &&& m.message_id == ev.message_id
    &&& m.user_id == ev.user_id
    &&& m.group_id == ev.group_id
    &&& m.msg_type@ == ev.message_type@
    &&& opt_view(m.sub_type) == Some(ev.sub_type@)
    &&& m.raw_json@ == raw_json_of(ev)
    &&& m.clean_text@ == clean_text_of(ev)
    &&& m.text_length as int == clean_text_of(ev).len()
    &&& m.has_image == seq_contains(raw_json_of(ev), IMAGE_MARKER@)
    &&& m.has_at == seq_contains(raw_json_of(ev), AT_MARKER@)
    &&& m.is_reply == seq_contains(raw_json_of(ev), REPLY_MARKER@)
    &&& m.sender_nickname@ == text_or_empty(ev.nickname)
    &&& opt_view(m.sender_card) == opt_view(ev.card)
    &&& opt_view(m.sender_role) == opt_view(ev.role)
    &&& m.created_at == ev.time
    &&& m.hour_of_day == hour
    &&& m.day_of_week == dow
}

/// The sender upsert an event yields: a first sighting with a count of one.
pub open spec fn user_row_of(ev: InboundMessage, u: users::Model) -> bool {
    &&& u.user_id == ev.user_id
    &&& u.nickname@ == text_or_empty(ev.nickname)
    &&& u.first_seen == ev.time
    &&& u.last_seen == ev.time
    &&& u.message_count == 1
}

/// The keyword rows an event yields from chosen words, owner id unassigned.
pub open spec fn keyword_rows_of(ev: InboundMessage, words: Seq<(String, i32)>, ks: Seq<keywords::Model>) -> bool {
    &&& ks.len() == words.len()
    &&& forall|i: int| 0 <= i < ks.len() ==> {
        &&& (#[trigger] ks[i]).id == 0
        &&& ks[i].message_id == 0
        &&& ks[i].word@ == words[i].0@
        &&& ks[i].word_length == words[i].1
        &&& ks[i].group_id == ev.group_id
        &&& ks[i].user_id == ev.user_id
        &&& ks[i].created_at == ev.time
    }
}

/// Caps a text at `max` bytes; a longer text keeps its longest prefix of at
/// most `max` bytes that ends on a character boundary, followed by the
/// truncation marker.
pub fn truncate_with_marker(s: &str, max: usize) -> (r: String)
    ensures
        r@ == capped(s@, max as nat),
        utf8_len(s@) > max ==> exists|k: int|
            0 <= k <= s@.len() && utf8_len(#[trigger] s@.take(k)) <= max
                && r@ == s@.take(k) + TRUNCATION_MARKER@,
{
    let n = s.as_bytes().len();
    if n <= max {
        return String::from_str(s);
    }
    let ghost bytes = s.spec_bytes();
    proof {
        encode_utf8_valid_utf8(s@);
        is_char_boundary_start_end_of_seq(bytes);
    }
    let mut cut: usize = max;
    while cut > 0 && !s.is_char_boundary(cut)
        invariant
            bytes == s.spec_bytes(),
            valid_utf8(bytes),
            cut <= max < bytes.len(),
            last_boundary(bytes, cut as nat) == last_boundary(bytes, max as nat),
        decreases cut,
    {
        cut = cut - 1;
    }
    let (head, _rest) = s.split_at(cut);
    proof {
        assert(bytes.take(cut as int) =~= head.spec_bytes());
        encode_utf8_decode_utf8(head@);
        lemma_byte_prefix_is_prefix(s@, max as nat);
    }
    let mut out = String::from_str(head);
    out.append(TRUNCATION_MARKER);
    out
}

fn copy_opt(s: &Option<String>) -> (r: Option<String>)
    ensures
        opt_view(r) == opt_view(*s),
{
    match s {
        Some(t) => Some(t.clone()),
        None => None,
    }
}

fn text_or_default(s: &Option<String>) -> (r: String)
    ensures
        r@ == text_or_empty(*s),
{
    match s {
        Some(t) => t.clone(),
        None => String::new(),
    }
}

/// The message row of an event, with its local hour and weekday.
pub fn message_row(ev: &InboundMessage, hour: i32, dow: i32) -> (r: messages::Model)
    ensures
        message_row_of(*ev, hour, dow, r),
{
    let text = text_or_default(&ev.text);
    let clean_text = truncate_with_marker(text.as_str(), MAX_TEXT_LEN);
    let raw_json = truncate_with_marker(ev.raw_json.as_str(), MAX_JSON_LEN);
    let text_length = clean_text.as_str().unicode_len();
    proof {
        reveal_strlit("...(truncated)");
        lemma_chars_within_bytes(text@);
        if utf8_len(text@) > MAX_TEXT_LEN {
            lemma_byte_prefix_is_prefix(text@, MAX_TEXT_LEN as nat);
            lemma_chars_within_bytes(byte_prefix(text@, MAX_TEXT_LEN as nat));
        }
    }
    assert(text_length <= MAX_TEXT_LEN + 14);
    let has_image = contains_text(raw_json.as_str(), IMAGE_MARKER);
    let has_at = contains_text(raw_json.as_str(), AT_MARKER);
    let is_reply = contains_text(raw_json.as_str(), REPLY_MARKER);
    messages::Model {
        id: 0,
        message_id: ev.message_id,
        user_id: ev.user_id,
        group_id: ev.group_id,
        msg_type: ev.message_type.clone(),
        sub_type: Some(ev.sub_type.clone()),
        raw_json,
        clean_text,
        text_length: text_length as i32,
        has_image,
        has_at,
        is_reply,
        sender_nickname: text_or_default(&ev.nickname),
        sender_card: copy_opt(&ev.card),
        sender_role: copy_opt(&ev.role),
        created_at: ev.time,
        hour_of_day: hour,
        day_of_week: dow,
    }
}

/// The sender upsert of an event.
pub fn user_row(ev: &InboundMessage) -> (r: users::Model)
    ensures
        user_row_of(*ev, r),
{
    users::Model {
        user_id: ev.user_id,
        nickname: text_or_default(&ev.nickname),
        first_seen: ev.time,
        last_seen: ev.time,
        message_count: 1,
    }
}

/// The keyword rows of an event from its chosen words, owner id unassigned.
pub fn keyword_rows(ev: &InboundMessage, words: &Vec<(String, i32)>) -> (r: Vec<keywords::Model>)
    ensures
        keyword_rows_of(*ev, words@, r@),
{
    let mut out: Vec<keywords::Model> = Vec::new();
    let mut i: usize = 0;
    while i < words.len()
        invariant
            i <= words@.len(),
            keyword_rows_of(*ev, words@.subrange(0, i as int), out@),
        decreases words@.len() - i,
    {
        let row = keywords::Model {
            id: 0,
            message_id: 0,
            word: words[i].0.clone(),
            word_length: words[i].1,
            group_id: ev.group_id,
            user_id: ev.user_id,
            created_at: ev.time,
        };
        out.push(row);
        i = i + 1;
        assert forall|j: int| 0 <= j < out@.len() implies (#[trigger] out@[j]).word@ == words@.subrange(0, i as int)[j].0@ by {}
    }
    assert(words@.subrange(0, words@.len() as int) =~= words@);
    out
}

/// The complete write unit of an event, given its local hour and weekday and
/// the keywords chosen from its display text.
pub fn prepare_write(ev: &InboundMessage, hour: i32, dow: i32, words: &Vec<(String, i32)>) -> (r: PendingWrite)
    ensures
        message_row_of(*ev, hour, dow, r.message),
        user_row_of(*ev, r.user_upsert),
        keyword_rows_of(*ev, words@, r.keywords@),
{
    PendingWrite {
        message: message_row(ev, hour, dow),
        keywords: keyword_rows(ev, words),
        user_upsert: user_row(ev),
    }
}

/// Turns inbound events into write units.
pub struct Ingestor {
    segmenter: Segmenter,
}

impl Ingestor {
    /// An ingestor with the built-in segmentation dictionary.
    pub fn new() -> (r: Self) {
        Ingestor { segmenter: Segmenter::new() }
    }

    /// Builds the write unit of an event: derived local time fields, capped text
    /// and payload, feature flags, the sender upsert, and the keywords of the
    /// stored display text under the snapshot's tokenizer settings.
    pub fn prepare(&self, ev: &InboundMessage, snapshot: &ConfigSnapshot) -> (r: PendingWrite)
        ensures
            exists|hour: i32, dow: i32| 0 <= hour < 24 && 0 <= dow < 7 && #[trigger] message_row_of(*ev, hour, dow, r.message),
            user_row_of(*ev, r.user_upsert),
            exists|words: Seq<(String, i32)>| {
                &&& #[trigger] keyword_rows_of(*ev, words, r.keywords@)
                &&& lengths_match(words)
                &&& (!snapshot.tokenizer_enabled || trimmed(clean_text_of(*ev)).len() == 0) ==> words.len() == 0
                &&& snapshot.tokenizer_enabled && trimmed(clean_text_of(*ev)).len() > 0 ==> keyword_words(words) == select(
                    segmented(clean_text_of(*ev)),
                    snapshot.min_word_length as nat,
                    texts(snapshot.stop_words@),
                )
            },
    {
        let (hour, dow) = event_time_fields(ev.time);
        let message = message_row(ev, hour, dow);
        let words = self.segmenter.keywords(message.clean_text.as_str(), snapshot);
        let keywords = keyword_rows(ev, &words);
        assert(message.clean_text@ == clean_text_of(*ev));
        let r = PendingWrite { message, keywords, user_upsert: user_row(ev) };
        assert(keyword_rows_of(*ev, words@, r.keywords@));
        r
    }
}

/// Keyword rows handed their owning message's row id; nothing else changes.
pub fn with_message_id(ks: &Vec<keywords::Model>, message_id: i64) -> (r: Vec<keywords::Model>)
    ensures
        r@.len() == ks@.len(),
        forall|i: int| 0 <= i < r@.len() ==> {
            &&& (#[trigger] r@[i]).message_id == message_id
            &&& r@[i].id == ks@[i].id
            &&& r@[i].word@ == ks@[i].word@
            &&& r@[i].word_length == ks@[i].word_length
            &&& r@[i].group_id == ks@[i].group_id
            &&& r@[i].user_id == ks@[i].user_id
            &&& r@[i].created_at == ks@[i].created_at
        },
{
    let mut out: Vec<keywords::Model> = Vec::new();
    let mut i: usize = 0;
    while i < ks.len()
        invariant
            i <= ks@.len(),
            out@.len() == i,
            forall|j: int| 0 <= j < i ==> {
                &&& (#[trigger] out@[j]).message_id == message_id
                &&& out@[j].id == ks@[j].id
                &&& out@[j].word@ == ks@[j].word@
                &&& out@[j].word_length == ks@[j].word_length
                &&& out@[j].group_id == ks@[j].group_id
                &&& out@[j].user_id == ks@[j].user_id
                &&& out@[j].created_at == ks@[j].created_at
            },
        decreases ks@.len() - i,
    {
        let k = &ks[i];
        out.push(keywords::Model {
            id: k.id,
            message_id,
            word: k.word.clone(),
            word_length: k.word_length,
            group_id: k.group_id,
            user_id: k.user_id,
            created_at: k.created_at,
        });
        i = i + 1;
    }
    out
}

} // verus!
