use vstd::prelude::*;
use crate::text::{contains_id, position_of, str_equal};

verus! {

/// Reply given when recording was switched on for a group.
pub const REPLY_ENABLED: &'static str = "✅ 已开启本群消息记录";

/// Reply given when recording was already on for a group.
pub const REPLY_ALREADY_ENABLED: &'static str = "⚠️ 本群记录已处于开启状态";

/// Reply given when recording was switched off for a group.
pub const REPLY_DISABLED: &'static str = "🛑 已关闭本群消息记录";

/// Reply given when recording was already off for a group.
pub const REPLY_ALREADY_DISABLED: &'static str = "⚠️ 本群记录已处于关闭状态";

/// How group lists are interpreted.
#[derive(Clone, Copy, Debug, PartialEq, Eq, Structural)]
pub enum RecordMode {
    /// Record every group except those on the blacklist.
    Blacklist,
    /// Record only the groups on the whitelist.
    Whitelist,
}

/// The per-group recording lists.
#[derive(Clone, Debug)]
pub struct GroupLists {
    pub whitelist: Vec<i64>,
    pub blacklist: Vec<i64>,
}

/// Segmentation settings.
#[derive(Clone, Debug)]
pub struct TokenizerConfig {
    pub enabled: bool,
    pub min_word_length: usize,
    pub stop_words: Vec<String>,
}

/// The live recording configuration.
#[derive(Clone, Debug)]
pub struct Config {
    pub mode: RecordMode,
    pub record_private: bool,
    pub admins: Vec<i64>,
    pub tokenizer: TokenizerConfig,
    pub groups: GroupLists,
}

/// An owned copy of the configuration, usable without holding any lock.
#[derive(Clone, Debug)]
pub struct ConfigSnapshot {
    pub mode: RecordMode,
    pub record_private: bool,
    pub admins: Vec<i64>,
    pub whitelist: Vec<i64>,
    pub blacklist: Vec<i64>,
    pub tokenizer_enabled: bool,
    pub min_word_length: usize,
    pub stop_words: Vec<String>,
}

/// Whether a group is recorded under the given mode and lists.
pub open spec fn records_group(mode: RecordMode, whitelist: Seq<i64>, blacklist: Seq<i64>, group_id: i64) -> bool {
    match mode {
        RecordMode::Whitelist => whitelist.contains(group_id),
        RecordMode::Blacklist => !blacklist.contains(group_id),
    }
}

/// Whether a group role grants administration rights.
pub open spec fn is_admin_role(role: Option<Seq<char>>) -> bool {
    match role {
        Some(r) => r == "admin"@ || r == "owner"@,
        None => false,
    }
}

/// Whether a user may change the recording configuration.
pub open spec fn admin_rule(admins: Seq<i64>, user_id: i64, role: Option<Seq<char>>, bot_admins: Seq<i64>) -> bool {
    admins.contains(user_id) || bot_admins.contains(user_id) || is_admin_role(role)
}

/// The texts of a list of strings.
pub open spec fn texts(words: Seq<String>) -> Seq<Seq<char>> {
    words.map_values(|w: String| w@)
}

/// The view of an optional string slice.
pub open spec fn opt_str_view(s: Option<&str>) -> Option<Seq<char>> {
    match s {
        Some(r) => Some(r@),
        None => None,
    }
}

fn is_admin_role_exec(role: Option<&str>) -> (r: bool)
    ensures
        r == is_admin_role(opt_str_view(role)),
{
    match role {
        Some(r) => {
            proof {
                reveal_strlit("admin");
                reveal_strlit("owner");
            }
            str_equal(r, "admin") || str_equal(r, "owner")
        },
        None => false,
    }
}

fn copy_ids(ids: &Vec<i64>) -> (r: Vec<i64>)
    ensures
        r@ == ids@,
{
    let mut out: Vec<i64> = Vec::new();
    let mut i: usize = 0;
    while i < ids.len()
        invariant
            i <= ids@.len(),
            out@ == ids@.subrange(0, i as int),
        decreases ids@.len() - i,
    {
        out.push(ids[i]);
        i = i + 1;
        assert(out@ =~= ids@.subrange(0, i as int));
    }
    assert(ids@.subrange(0, ids@.len() as int) =~= ids@);
    out
}

fn copy_words(words: &Vec<String>) -> (r: Vec<String>)
    ensures
        texts(r@) == texts(words@),
{
    let mut out: Vec<String> = Vec::new();
    let mut i: usize = 0;
    while i < words.len()
        invariant
            i <= words@.len(),
            out@.len() == i,
            forall|j: int| 0 <= j < i ==> #[trigger] out@[j]@ == words@[j]@,
        decreases words@.len() - i,
    {
        let w = words[i].clone();
        out.push(w);
        i = i + 1;
    }
    assert(texts(out@) =~= texts(words@));
    out
}

fn word_listed(words: &Vec<String>, word: &str) -> (r: bool)
    ensures
        r == texts(words@).contains(word@),
{
    let mut i: usize = 0;
    while i < words.len()
        invariant
            i <= words@.len(),
            forall|j: int| 0 <= j < i ==> words@[j]@ != word@,
        decreases words@.len() - i,
    {
        if str_equal(words[i].as_str(), word) {
            assert(texts(words@)[i as int] == word@);
            return true;
        }
        i = i + 1;
    }
    assert forall|j: int| 0 <= j < texts(words@).len() implies texts(words@)[j] != word@ by {
        assert(words@[j]@ != word@);
    }
    false
}

/// Minimum keyword length, in characters, of the built-in configuration.
pub const DEFAULT_MIN_WORD_LENGTH: usize = 2;

/// The stop words of the built-in configuration.
pub open spec fn default_stop_words() -> Seq<Seq<char>> {
    seq![
        "的"@,
        "了"@,
        "在"@,
        "是"@,
        "我"@,
        "你"@,
        "他"@,
        "她"@,
        "它"@,
        "有"@,
        "和"@,
        "与"@,
        "这"@,
        "那"@,
        "就"@,
        "也"@,
        "都"@,
        "而"@,
        "及"@,
        "着"@,
        "或"@,
        "一个"@,
        "没有"@,
        "不是"@,
        "什么"@,
        "怎么"@,
        "[图片]"@,
        "[表情]"@,
        "[语音]"@,
        "[视频]"@,
    ]
}

fn default_stop_word_list() -> (r: Vec<String>)
    ensures
        texts(r@) == default_stop_words(),
{
    let mut words: Vec<String> = Vec::new();
    words.push(String::from_str("的"));
    words.push(String::from_str("了"));
    words.push(String::from_str("在"));
    words.push(String::from_str("是"));
    words.push(String::from_str("我"));
    words.push(String::from_str("你"));
    words.push(String::from_str("他"));
    words.push(String::from_str("她"));
    words.push(String::from_str("它"));
    words.push(String::from_str("有"));
    words.push(String::from_str("和"));
    words.push(String::from_str("与"));
    words.push(String::from_str("这"));
    words.push(String::from_str("那"));
    words.push(String::from_str("就"));
    words.push(String::from_str("也"));
    words.push(String::from_str("都"));
    words.push(String::from_str("而"));
    words.push(String::from_str("及"));
    words.push(String::from_str("着"));
    words.push(String::from_str("或"));
    words.push(String::from_str("一个"));
    words.push(String::from_str("没有"));
    words.push(String::from_str("不是"));
    words.push(String::from_str("什么"));
    words.push(String::from_str("怎么"));
    words.push(String::from_str("[图片]"));
    words.push(String::from_str("[表情]"));
    words.push(String::from_str("[语音]"));
    words.push(String::from_str("[视频]"));
    assert(texts(words@) =~= default_stop_words());
    words
}

impl Default for Config {
    /// The built-in configuration: whitelist mode with empty lists, no private
    /// messages, no admins, and the tokenizer on with the default stop words.
    fn default() -> (r: Self)
        ensures
            r.mode == RecordMode::Whitelist,
            !r.record_private,
            r.admins@.len() == 0,
            r.tokenizer.enabled,
            r.tokenizer.min_word_length == DEFAULT_MIN_WORD_LENGTH,
            texts(r.tokenizer.stop_words@) == default_stop_words(),
            r.groups.whitelist@.len() == 0,
            r.groups.blacklist@.len() == 0,
    {
        Config {
            mode: RecordMode::Whitelist,
            record_private: false,
            admins: Vec::new(),
            tokenizer: TokenizerConfig {
                enabled: true,
                min_word_length: DEFAULT_MIN_WORD_LENGTH,
                stop_words: default_stop_word_list(),
            },
            groups: GroupLists { whitelist: Vec::new(), blacklist: Vec::new() },
        }
    }
}

impl ConfigSnapshot {
    /// Copies every field that ingestion and command handling read.
    pub fn from_config(cfg: &Config) -> (r: Self)
        ensures
            r.mode == cfg.mode,
            r.record_private == cfg.record_private,
            r.admins@ == cfg.admins@,
            r.whitelist@ == cfg.groups.whitelist@,
            r.blacklist@ == cfg.groups.blacklist@,
            r.tokenizer_enabled == cfg.tokenizer.enabled,
            r.min_word_length == cfg.tokenizer.min_word_length,
            texts(r.stop_words@) == texts(cfg.tokenizer.stop_words@),
    {
        ConfigSnapshot {
            mode: cfg.mode,
            record_private: cfg.record_private,
            admins: copy_ids(&cfg.admins),
            whitelist: copy_ids(&cfg.groups.whitelist),
            blacklist: copy_ids(&cfg.groups.blacklist),
            tokenizer_enabled: cfg.tokenizer.enabled,
            min_word_length: cfg.tokenizer.min_word_length,
            stop_words: copy_words(&cfg.tokenizer.stop_words),
        }
    }

    pub fn should_record_group(&self, group_id: i64) -> (r: bool)
        ensures
            r == records_group(self.mode, self.whitelist@, self.blacklist@, group_id),
    {
        match self.mode {
            RecordMode::Whitelist => contains_id(self.whitelist.as_slice(), group_id),
            RecordMode::Blacklist => !contains_id(self.blacklist.as_slice(), group_id),
        }
    }

    pub fn should_record_private(&self) -> (r: bool)
        ensures
            r == self.record_private,
    {
        self.record_private
    }

    /// Whether an event is recorded: a group message by the group rules, a
    /// private message by the private-message flag.
    pub fn should_record(&self, group_id: Option<i64>) -> (r: bool)
        ensures
            r == match group_id {
                Some(g) => records_group(self.mode, self.whitelist@, self.blacklist@, g),
                None => self.record_private,
            },
    {
        match group_id {
            Some(g) => self.should_record_group(g),
            None => self.should_record_private(),
        }
    }

    /// Configured admins, bot admins, and group admins or owners may manage recording.
    pub fn is_admin(&self, user_id: i64, sender_role: Option<&str>, bot_admins: &[i64]) -> (r: bool)
        ensures
            r == admin_rule(self.admins@, user_id, opt_str_view(sender_role), bot_admins@),
    {
        if contains_id(self.admins.as_slice(), user_id) {
            return true;
        }
        if contains_id(bot_admins, user_id) {
            return true;
        }
        is_admin_role_exec(sender_role)
    }

    pub fn is_stop_word(&self, word: &str) -> (r: bool)
        ensures
            r == texts(self.stop_words@).contains(word@),
    {
        word_listed(&self.stop_words, word)
    }
}

impl Config {
    pub fn is_stop_word(&self, word: &str) -> (r: bool)
        ensures
            r == texts(self.tokenizer.stop_words@).contains(word@),
    {
        word_listed(&self.tokenizer.stop_words, word)
    }

    pub fn should_record_group(&self, group_id: i64) -> (r: bool)
        ensures
            r == records_group(self.mode, self.groups.whitelist@, self.groups.blacklist@, group_id),
    {
        match self.mode {
            RecordMode::Whitelist => contains_id(self.groups.whitelist.as_slice(), group_id),
            RecordMode::Blacklist => !contains_id(self.groups.blacklist.as_slice(), group_id),
        }
    }

    pub fn should_record_private(&self) -> (r: bool)
        ensures
            r == self.record_private,
    {
        self.record_private
    }

    /// Takes an owned copy of the configuration.
    pub fn snapshot(&self) -> (r: ConfigSnapshot)
        ensures
            r.mode == self.mode,
            r.record_private == self.record_private,
            r.admins@ == self.admins@,
            r.whitelist@ == self.groups.whitelist@,
            r.blacklist@ == self.groups.blacklist@,
            r.tokenizer_enabled == self.tokenizer.enabled,
            r.min_word_length == self.tokenizer.min_word_length,
            texts(r.stop_words@) == texts(self.tokenizer.stop_words@),
    {
        ConfigSnapshot::from_config(self)
    }

    pub fn is_admin(&self, user_id: i64, sender_role: Option<&str>, bot_admins: &[i64]) -> (r: bool)
        ensures
            r == admin_rule(self.admins@, user_id, opt_str_view(sender_role), bot_admins@),
    {
        if contains_id(self.admins.as_slice(), user_id) {
            return true;
        }
        if contains_id(bot_admins, user_id) {
            return true;
        }
        is_admin_role_exec(sender_role)
    }

    /// Turns recording on for a group: adds it to the whitelist, or removes its
    /// first occurrence from the blacklist. Nothing else changes.
    pub fn enable_group(&mut self, group_id: i64) -> (r: &'static str)
        ensures
            final(self).mode == old(self).mode,
            final(self).record_private == old(self).record_private,
            final(self).admins@ == old(self).admins@,
            final(self).tokenizer == old(self).tokenizer,
            old(self).mode == RecordMode::Whitelist ==> {
                &&& final(self).groups.blacklist@ == old(self).groups.blacklist@
                &&& if old(self).groups.whitelist@.contains(group_id) {
                    final(self).groups.whitelist@ == old(self).groups.whitelist@ && r@ == REPLY_ALREADY_ENABLED@
                } else {
                    final(self).groups.whitelist@ == old(self).groups.whitelist@.push(group_id) && r@ == REPLY_ENABLED@
                }
            },
            old(self).mode == RecordMode::Blacklist ==> {
                &&& final(self).groups.whitelist@ == old(self).groups.whitelist@
                &&& if old(self).groups.blacklist@.contains(group_id) {
                    exists|p: int| #![trigger old(self).groups.blacklist@[p]]
                        0 <= p < old(self).groups.blacklist@.len()
                        && old(self).groups.blacklist@[p] == group_id
                        && (forall|j: int| 0 <= j < p ==> old(self).groups.blacklist@[j] != group_id)
                        && final(self).groups.blacklist@ == old(self).groups.blacklist@.remove(p)
                        && r@ == REPLY_ENABLED@
                } else {
                    final(self).groups.blacklist@ == old(self).groups.blacklist@ && r@ == REPLY_ALREADY_ENABLED@
                }
            },
    {
        match self.mode {
            RecordMode::Whitelist => {
                if !contains_id(self.groups.whitelist.as_slice(), group_id) {
                    self.groups.whitelist.push(group_id);
                    REPLY_ENABLED
                } else {
                    REPLY_ALREADY_ENABLED
                }
            },
            RecordMode::Blacklist => {
                match position_of(&self.groups.blacklist, group_id) {
                    Some(pos) => {
                        self.groups.blacklist.remove(pos);
                        REPLY_ENABLED
                    },
                    None => REPLY_ALREADY_ENABLED,
                }
            },
        }
    }

    /// Turns recording off for a group: removes its first occurrence from the
    /// whitelist, or adds it to the blacklist. Nothing else changes.
    pub fn disable_group(&mut self, group_id: i64) -> (r: &'static str)
        ensures
            final(self).mode == old(self).mode,
            final(self).record_private == old(self).record_private,
            final(self).admins@ == old(self).admins@,
            final(self).tokenizer == old(self).tokenizer,
            old(self).mode == RecordMode::Blacklist ==> {
                &&& final(self).groups.whitelist@ == old(self).groups.whitelist@
                &&& if old(self).groups.blacklist@.contains(group_id) {
                    final(self).groups.blacklist@ == old(self).groups.blacklist@ && r@ == REPLY_ALREADY_DISABLED@
                } else {
                    final(self).groups.blacklist@ == old(self).groups.blacklist@.push(group_id) && r@ == REPLY_DISABLED@
                }
            },
            old(self).mode == RecordMode::Whitelist ==> {
                &&& final(self).groups.blacklist@ == old(self).groups.blacklist@
                &&& if old(self).groups.whitelist@.contains(group_id) {
                    exists|p: int| #![trigger old(self).groups.whitelist@[p]]
                        0 <= p < old(self).groups.whitelist@.len()
                        && old(self).groups.whitelist@[p] == group_id
                        && (forall|j: int| 0 <= j < p ==> old(self).groups.whitelist@[j] != group_id)
                        && final(self).groups.whitelist@ == old(self).groups.whitelist@.remove(p)
                        && r@ == REPLY_DISABLED@
                } else {
                    final(self).groups.whitelist@ == old(self).groups.whitelist@ && r@ == REPLY_ALREADY_DISABLED@
                }
            },
    {
        match self.mode {
            RecordMode::Whitelist => {
                match position_of(&self.groups.whitelist, group_id) {
                    Some(pos) => {
                        self.groups.whitelist.remove(pos);
                        REPLY_DISABLED
                    },
                    None => REPLY_ALREADY_DISABLED,
                }
            },
            RecordMode::Blacklist => {
                if !contains_id(self.groups.blacklist.as_slice(), group_id) {
                    self.groups.blacklist.push(group_id);
                    REPLY_DISABLED
                } else {
                    REPLY_ALREADY_DISABLED
                }
            },
        }
    }
}

} // verus!
