//! Decoding of chat-message events out of their JSON objects.

use vstd::prelude::*;

use crate::chat::{
    message_type_from_snake, Badge, BadgeV, ChannelChatMessage, ChannelChatMessageV, ChatMessage,
    ChatMessageV, Cheermote, CheermoteV, Emote, EmoteV, Fragment, FragmentV, Mention, MentionV,
    Reply, ReplyV,
};
use crate::ids::{message_id_spec, MessageId};
use crate::json::{
    arr_field, field_of, json_view, json_view_seq, lemma_json_view_seq, opt_bool_field,
    opt_text_field, text_field, u32_field, views_of, Json, JsonV,
};

verus! {

/// The badge a well-shaped badge object denotes.
pub open spec fn badge_spec(j: JsonV) -> Option<BadgeV> {
    match (text_field(j, "set_id"@), text_field(j, "id"@), text_field(j, "info"@)) {
        (Some(set_id), Some(id), Some(info)) => Some(BadgeV { set_id, id, info }),
        _ => None,
    }
}

impl Badge {
    /// Reads a badge out of its JSON object.
    pub fn decode(j: &Json) -> (r: Option<Badge>)
        ensures
            r is Some <==> badge_spec(j@) is Some,
            r matches Some(x) ==> badge_spec(j@) == Some(x@),
    {
        let set_id = match j.get_text("set_id") {
            Some(t) => t.clone(),
            None => return None,
        };
        let id = match j.get_text("id") {
            Some(t) => t.clone(),
            None => return None,
        };
        let info = match j.get_text("info") {
            Some(t) => t.clone(),
            None => return None,
        };
        Some(Badge { set_id, id, info })
    }
}

/// The badges a sequence of badge objects denotes, when every element is
/// well-shaped.
pub open spec fn badges_spec(s: Seq<JsonV>) -> Option<Seq<BadgeV>>
    decreases s.len(),
{
    if s.len() == 0 {
        Some(Seq::empty())
    } else {
        match (badges_spec(s.drop_last()), badge_spec(s.last())) {
            (Some(r), Some(b)) => Some(r.push(b)),
            _ => None,
        }
    }
}

pub proof fn lemma_badges_spec_none(s: Seq<JsonV>, i: int)
    requires
        0 <= i < s.len(),
        badge_spec(s[i]) is None,
    ensures
        badges_spec(s) is None,
    decreases s.len(),
{
    if i < s.len() - 1 {
        assert(s.drop_last()[i] == s[i]);
        lemma_badges_spec_none(s.drop_last(), i);
    }
}

/// Reads a list of badges out of a JSON array.
#[verifier::loop_isolation(false)]
pub fn decode_badges(a: &Vec<Json>) -> (r: Option<Vec<Badge>>)
    ensures
        r is Some <==> badges_spec(json_view_seq(a@)) is Some,
        r matches Some(v) ==> badges_spec(json_view_seq(a@)) == Some(views_of(v@)),
{
    let ghost full: Seq<JsonV> = json_view_seq(a@);
    proof {
        lemma_json_view_seq(a@);
        assert(full.take(0) =~= Seq::<JsonV>::empty());
        assert(views_of(Seq::<Badge>::empty()) =~= Seq::<BadgeV>::empty());
    }
    let mut out: Vec<Badge> = Vec::new();
    let mut i: usize = 0;
    while i < a.len()
        invariant
            i <= a.len(),
            out@.len() == i as int,
            badges_spec(full.take(i as int)) == Some(views_of(out@)),
        decreases a.len() - i,
    {
        let b = match Badge::decode(&a[i]) {
            Some(x) => x,
            None => {
                proof {
                    lemma_badges_spec_none(full, i as int);
                }
                return None;
            }
        };
        let ghost prev = out@;
        out.push(b);
        proof {
            assert(full.take(i as int + 1).drop_last() =~= full.take(i as int));
            assert(full.take(i as int + 1).last() == full[i as int]);
            assert(views_of(out@) =~= views_of(prev).push(out@.last()@));
        }
        i += 1;
    }
    proof {
        assert(full.take(a@.len() as int) =~= full);
    }
    Some(out)
}

/// The cheermote a well-shaped cheermote object denotes.
pub open spec fn cheermote_spec(j: JsonV) -> Option<CheermoteV> {
    match (text_field(j, "prefix"@), u32_field(j, "bits"@), u32_field(j, "tier"@)) {
        (Some(prefix), Some(bits), Some(tier)) => Some(CheermoteV { prefix, bits, tier }),
        _ => None,
    }
}

impl Cheermote {
    /// Reads a cheermote out of its JSON object.
    pub fn decode(j: &Json) -> (r: Option<Cheermote>)
        ensures
            r is Some <==> cheermote_spec(j@) is Some,
            r matches Some(x) ==> cheermote_spec(j@) == Some(x@),
    {
        let prefix = match j.get_text("prefix") {
            Some(t) => t.clone(),
            None => return None,
        };
        let bits = match j.get_u32("bits") {
            Some(n) => n,
            None => return None,
        };
        let tier = match j.get_u32("tier") {
            Some(n) => n,
            None => return None,
        };
        Some(Cheermote { prefix, bits, tier })
    }
}

/// The text an element of a string array denotes.
pub open spec fn text_item_spec(j: JsonV) -> Option<Seq<char>> {
    match j {
        JsonV::Text(t) => Some(t),
        _ => None,
    }
}

/// The texts a sequence of JSON values denotes, when every element is text.
pub open spec fn texts_spec(s: Seq<JsonV>) -> Option<Seq<Seq<char>>>
    decreases s.len(),
{
    if s.len() == 0 {
        Some(Seq::empty())
    } else {
        match (texts_spec(s.drop_last()), text_item_spec(s.last())) {
            (Some(r), Some(t)) => Some(r.push(t)),
            _ => None,
        }
    }
}

pub proof fn lemma_texts_spec_none(s: Seq<JsonV>, i: int)
    requires
        0 <= i < s.len(),
        text_item_spec(s[i]) is None,
    ensures
        texts_spec(s) is None,
    decreases s.len(),
{
    if i < s.len() - 1 {
        assert(s.drop_last()[i] == s[i]);
        lemma_texts_spec_none(s.drop_last(), i);
    }
}

/// Reads a list of strings out of a JSON array.
#[verifier::loop_isolation(false)]
pub fn decode_texts(a: &Vec<Json>) -> (r: Option<Vec<String>>)
    ensures
        r is Some <==> texts_spec(json_view_seq(a@)) is Some,
        r matches Some(v) ==> texts_spec(json_view_seq(a@)) == Some(views_of(v@)),
{
    let ghost full: Seq<JsonV> = json_view_seq(a@);
    proof {
        lemma_json_view_seq(a@);
        assert(full.take(0) =~= Seq::<JsonV>::empty());
        assert(views_of(Seq::<String>::empty()) =~= Seq::<Seq<char>>::empty());
    }
    let mut out: Vec<String> = Vec::new();
    let mut i: usize = 0;
    while i < a.len()
        invariant
            i <= a.len(),
            out@.len() == i as int,
            texts_spec(full.take(i as int)) == Some(views_of(out@)),
        decreases a.len() - i,
    {
        let t = match &a[i] {
            Json::Text(t) => t.clone(),
            _ => {
                proof {
                    lemma_texts_spec_none(full, i as int);
                }
                return None;
            }
        };
        let ghost prev = out@;
        out.push(t);
        proof {
            assert(full.take(i as int + 1).drop_last() =~= full.take(i as int));
            assert(full.take(i as int + 1).last() == full[i as int]);
            assert(views_of(out@) =~= views_of(prev).push(out@.last()@));
        }
        i += 1;
    }
    proof {
        assert(full.take(a@.len() as int) =~= full);
    }
    Some(out)
}

/// The emote a well-shaped emote object denotes.
pub open spec fn emote_spec(j: JsonV) -> Option<EmoteV> {
    match (
        text_field(j, "id"@),
        text_field(j, "emote_set_id"@),
        text_field(j, "owner_id"@),
        arr_field(j, "format"@),
    ) {
        (Some(id), Some(set_id), Some(owner_id), Some(format)) => match texts_spec(format) {
            Some(fs) => Some(EmoteV { id, set_id, owner_id, format: fs }),
            None => None,
        },
        _ => None,
    }
}

impl Emote {
    /// Reads an emote out of its JSON object; the wire name of the emote-set
    /// member is `emote_set_id`.
    pub fn decode(j: &Json) -> (r: Option<Emote>)
        ensures
            r is Some <==> emote_spec(j@) is Some,
            r matches Some(x) ==> emote_spec(j@) == Some(x@),
    {
        let id = match j.get_text("id") {
            Some(t) => t.clone(),
            None => return None,
        };
        let set_id = match j.get_text("emote_set_id") {
            Some(t) => t.clone(),
            None => return None,
        };
        let owner_id = match j.get_text("owner_id") {
            Some(t) => t.clone(),
            None => return None,
        };
        let format_arr = match j.get_arr("format") {
            Some(a) => a,
            None => return None,
        };
        let format = match decode_texts(format_arr) {
            Some(v) => v,
            None => return None,
        };
        Some(Emote { id, set_id, owner_id, format })
    }
}

/// The mention a well-shaped mention object denotes; the wire names carry a
/// `user_` prefix.
pub open spec fn mention_spec(j: JsonV) -> Option<MentionV> {
    match (text_field(j, "user_id"@), text_field(j, "user_name"@), text_field(j, "user_login"@)) {
        (Some(id), Some(name), Some(login)) => Some(MentionV { id, name, login }),
        _ => None,
    }
}

impl Mention {
    /// Reads a mention out of its JSON object.
    pub fn decode(j: &Json) -> (r: Option<Mention>)
        ensures
            r is Some <==> mention_spec(j@) is Some,
            r matches Some(x) ==> mention_spec(j@) == Some(x@),
    {
        let id = match j.get_text("user_id") {
            Some(t) => t.clone(),
            None => return None,
        };
        let name = match j.get_text("user_name") {
            Some(t) => t.clone(),
            None => return None,
        };
        let login = match j.get_text("user_login") {
            Some(t) => t.clone(),
            None => return None,
        };
        Some(Mention { id, name, login })
    }
}

/// The cheermote member of a fragment: absent or null, or a well-shaped
/// cheermote object.
pub open spec fn opt_cheermote(j: JsonV) -> Option<Option<CheermoteV>> {
    match field_of(j, "cheermote"@) {
        None => Some(None),
        Some(JsonV::Null) => Some(None),
        Some(c) => match cheermote_spec(c) {
            Some(cv) => Some(Some(cv)),
            None => None,
        },
    }
}

/// The emote member of a fragment: absent or null, or a well-shaped emote
/// object.
pub open spec fn opt_emote(j: JsonV) -> Option<Option<EmoteV>> {
    match field_of(j, "emote"@) {
        None => Some(None),
        Some(JsonV::Null) => Some(None),
        Some(e) => match emote_spec(e) {
            Some(ev) => Some(Some(ev)),
            None => None,
        },
    }
}

/// The mention member of a fragment: absent or null, or a well-shaped
/// mention object.
pub open spec fn opt_mention(j: JsonV) -> Option<Option<MentionV>> {
    match field_of(j, "mention"@) {
        None => Some(None),
        Some(JsonV::Null) => Some(None),
        Some(m) => match mention_spec(m) {
            Some(mv) => Some(Some(mv)),
            None => None,
        },
    }
}

/// The fragment a well-shaped fragment object denotes.
pub open spec fn fragment_spec(j: JsonV) -> Option<FragmentV> {
    match (
        text_field(j, "type"@),
        text_field(j, "text"@),
        opt_cheermote(j),
        opt_emote(j),
        opt_mention(j),
    ) {
        (Some(ftype), Some(text), Some(cheermote), Some(emote), Some(mention)) => Some(
            FragmentV { ftype, text, cheermote, emote, mention },
        ),
        _ => None,
    }
}

impl Fragment {
    /// Reads a message fragment out of its JSON object.
    pub fn decode(j: &Json) -> (r: Option<Fragment>)
        ensures
            r is Some <==> fragment_spec(j@) is Some,
            r matches Some(x) ==> fragment_spec(j@) == Some(x@),
    {
        let ftype = match j.get_text("type") {
            Some(t) => t.clone(),
            None => return None,
        };
        let text = match j.get_text("text") {
            Some(t) => t.clone(),
            None => return None,
        };
        let cheermote = match j.get_field("cheermote") {
            None => None,
            Some(Json::Null) => None,
            Some(c) => match Cheermote::decode(c) {
                Some(x) => Some(x),
                None => return None,
            },
        };
        let emote = match j.get_field("emote") {
            None => None,
            Some(Json::Null) => None,
            Some(e) => match Emote::decode(e) {
                Some(x) => Some(x),
                None => return None,
            },
        };
        let mention = match j.get_field("mention") {
            None => None,
            Some(Json::Null) => None,
            Some(m) => match Mention::decode(m) {
                Some(x) => Some(x),
                None => return None,
            },
        };
        Some(Fragment { ftype, text, cheermote, emote, mention })
    }
}

/// The fragments a sequence of fragment objects denotes, when every element
/// is well-shaped.
pub open spec fn fragments_spec(s: Seq<JsonV>) -> Option<Seq<FragmentV>>
    decreases s.len(),
{
    if s.len() == 0 {
        Some(Seq::empty())
    } else {
        match (fragments_spec(s.drop_last()), fragment_spec(s.last())) {
            (Some(r), Some(f)) => Some(r.push(f)),
            _ => None,
        }
    }
}

pub proof fn lemma_fragments_spec_none(s: Seq<JsonV>, i: int)
    requires
        0 <= i < s.len(),
        fragment_spec(s[i]) is None,
    ensures
        fragments_spec(s) is None,
    decreases s.len(),
{
    if i < s.len() - 1 {
        assert(s.drop_last()[i] == s[i]);
        lemma_fragments_spec_none(s.drop_last(), i);
    }
}

/// Reads a list of fragments out of a JSON array.
#[verifier::loop_isolation(false)]
pub fn decode_fragments(a: &Vec<Json>) -> (r: Option<Vec<Fragment>>)
    ensures
        r is Some <==> fragments_spec(json_view_seq(a@)) is Some,
        r matches Some(v) ==> fragments_spec(json_view_seq(a@)) == Some(views_of(v@)),
{
    let ghost full: Seq<JsonV> = json_view_seq(a@);
    proof {
        lemma_json_view_seq(a@);
        assert(full.take(0) =~= Seq::<JsonV>::empty());
        assert(views_of(Seq::<Fragment>::empty()) =~= Seq::<FragmentV>::empty());
    }
    let mut out: Vec<Fragment> = Vec::new();
    let mut i: usize = 0;
    while i < a.len()
        invariant
            i <= a.len(),
            out@.len() == i as int,
            fragments_spec(full.take(i as int)) == Some(views_of(out@)),
        decreases a.len() - i,
    {
        let f = match Fragment::decode(&a[i]) {
            Some(x) => x,
            None => {
                proof {
                    lemma_fragments_spec_none(full, i as int);
                }
                return None;
            }
        };
        let ghost prev = out@;
        out.push(f);
        proof {
            assert(full.take(i as int + 1).drop_last() =~= full.take(i as int));
            assert(full.take(i as int + 1).last() == full[i as int]);
            assert(views_of(out@) =~= views_of(prev).push(out@.last()@));
        }
        i += 1;
    }
    proof {
        assert(full.take(a@.len() as int) =~= full);
    }
    Some(out)
}

/// The structured message a well-shaped message object denotes.
pub open spec fn chat_message_spec(j: JsonV) -> Option<ChatMessageV> {
    match (text_field(j, "text"@), arr_field(j, "fragments"@)) {
        (Some(text), Some(frs)) => match fragments_spec(frs) {
            Some(fragments) => Some(ChatMessageV { text, fragments }),
            None => None,
        },
        _ => None,
    }
}

impl ChatMessage {
    /// Reads a structured chat message out of its JSON object.
    pub fn decode(j: &Json) -> (r: Option<ChatMessage>)
        ensures
            r is Some <==> chat_message_spec(j@) is Some,
            r matches Some(x) ==> chat_message_spec(j@) == Some(x@),
    {
        let text = match j.get_text("text") {
            Some(t) => t.clone(),
            None => return None,
        };
        let frs = match j.get_arr("fragments") {
            Some(a) => a,
            None => return None,
        };
        let fragments = match decode_fragments(frs) {
            Some(v) => v,
            None => return None,
        };
        Some(ChatMessage { text, fragments })
    }
}

/// The reply record a well-shaped reply object denotes.
pub open spec fn reply_spec(j: JsonV) -> Option<ReplyV> {
    match (
        text_field(j, "parent_message_id"@),
        text_field(j, "parent_message_body"@),
        text_field(j, "parent_user_id"@),
        text_field(j, "parent_user_name"@),
        text_field(j, "parent_user_login"@),
        text_field(j, "thread_message_id"@),
        text_field(j, "thread_user_id"@),
        text_field(j, "thread_user_name"@),
        text_field(j, "thread_user_login"@),
    ) {
        (
            Some(parent_message_id),
            Some(parent_message_body),
            Some(parent_user_id),
            Some(parent_user_name),
            Some(parent_user_login),
            Some(thread_message_id),
            Some(thread_user_id),
            Some(thread_user_name),
            Some(thread_user_login),
        ) => Some(
            ReplyV {
                parent_message_id,
                parent_message_body,
                parent_user_id,
                parent_user_name,
                parent_user_login,
                thread_message_id,
                thread_user_id,
                thread_user_name,
                thread_user_login,
            },
        ),
        _ => None,
    }
}

impl Reply {
    /// Reads a reply record out of its JSON object.
    pub fn decode(j: &Json) -> (r: Option<Reply>)
        ensures
            r is Some <==> reply_spec(j@) is Some,
            r matches Some(x) ==> reply_spec(j@) == Some(x@),
    {
        let parent_message_id = match j.get_text("parent_message_id") {
            Some(t) => t.clone(),
            None => return None,
        };
        let parent_message_body = match j.get_text("parent_message_body") {
            Some(t) => t.clone(),
            None => return None,
        };
        let parent_user_id = match j.get_text("parent_user_id") {
            Some(t) => t.clone(),
            None => return None,
        };
        let parent_user_name = match j.get_text("parent_user_name") {
            Some(t) => t.clone(),
            None => return None,
        };
        let parent_user_login = match j.get_text("parent_user_login") {
            Some(t) => t.clone(),
            None => return None,
        };
        let thread_message_id = match j.get_text("thread_message_id") {
            Some(t) => t.clone(),
            None => return None,
        };
        let thread_user_id = match j.get_text("thread_user_id") {
            Some(t) => t.clone(),
            None => return None,
        };
        let thread_user_name = match j.get_text("thread_user_name") {
            Some(t) => t.clone(),
            None => return None,
        };
        let thread_user_login = match j.get_text("thread_user_login") {
            Some(t) => t.clone(),
            None => return None,
        };
        Some(Reply {
            parent_message_id,
            parent_message_body,
            parent_user_id,
            parent_user_name,
            parent_user_login,
            thread_message_id,
            thread_user_id,
            thread_user_name,
            thread_user_login,
        })
    }
}

/// The reply member of a chat message: absent or null, or a well-shaped
/// reply object.
pub open spec fn opt_reply(j: JsonV) -> Option<Option<ReplyV>> {
    match field_of(j, "reply"@) {
        None => Some(None),
        Some(JsonV::Null) => Some(None),
        Some(r) => match reply_spec(r) {
            Some(rv) => Some(Some(rv)),
            None => None,
        },
    }
}

/// The source-badges member of a chat message: absent or null, or an array
/// of well-shaped badges.
pub open spec fn opt_source_badges(j: JsonV) -> Option<Option<Seq<BadgeV>>> {
    match field_of(j, "source_badges"@) {
        None => Some(None),
        Some(JsonV::Null) => Some(None),
        Some(JsonV::Arr(a)) => match badges_spec(a) {
            Some(bs) => Some(Some(bs)),
            None => None,
        },
        Some(_) => None,
    }
}

/// A chat-message event object is well-shaped when every mandatory member is
/// present with the right shape and every optional member, where present and
/// not null, has the right shape.
pub open spec fn ccm_ok(j: JsonV) -> bool {
    &&& text_field(j, "broadcaster_user_id"@) is Some
    &&& text_field(j, "broadcaster_user_name"@) is Some
    &&& text_field(j, "broadcaster_user_login"@) is Some
    &&& text_field(j, "chatter_user_id"@) is Some
    &&& text_field(j, "chatter_user_name"@) is Some
    &&& text_field(j, "chatter_user_login"@) is Some
    &&& text_field(j, "message_id"@) is Some
    &&& field_of(j, "message"@) is Some
    &&& chat_message_spec(field_of(j, "message"@)->Some_0) is Some
    &&& text_field(j, "message_type"@) is Some
    &&& message_type_from_snake(text_field(j, "message_type"@)->Some_0) is Some
    &&& arr_field(j, "badges"@) is Some
    &&& badges_spec(arr_field(j, "badges"@)->Some_0) is Some
    &&& opt_reply(j) is Some
    &&& opt_text_field(j, "channel_points_custom_reward_id"@) is Some
    &&& opt_text_field(j, "source_broadcaster_user_id"@) is Some
    &&& opt_text_field(j, "source_broadcaster_user_name"@) is Some
    &&& opt_text_field(j, "source_broadcaster_user_login"@) is Some
    &&& opt_text_field(j, "source_message_id"@) is Some
    &&& opt_source_badges(j) is Some
    &&& opt_bool_field(j, "is_source_only"@) is Some
}

/// The chat-message event a well-shaped event object denotes.
pub open spec fn ccm_of(j: JsonV) -> ChannelChatMessageV {
    ChannelChatMessageV {
        broadcaster_user_id: text_field(j, "broadcaster_user_id"@)->Some_0,
        broadcaster_user_name: text_field(j, "broadcaster_user_name"@)->Some_0,
        broadcaster_user_login: text_field(j, "broadcaster_user_login"@)->Some_0,
        chatter_user_id: text_field(j, "chatter_user_id"@)->Some_0,
        chatter_user_name: text_field(j, "chatter_user_name"@)->Some_0,
        chatter_user_login: text_field(j, "chatter_user_login"@)->Some_0,
        message_id: message_id_spec(text_field(j, "message_id"@)->Some_0),
        message: chat_message_spec(field_of(j, "message"@)->Some_0)->Some_0,
        message_type: message_type_from_snake(text_field(j, "message_type"@)->Some_0)->Some_0,
        badges: badges_spec(arr_field(j, "badges"@)->Some_0)->Some_0,
        reply: opt_reply(j)->Some_0,
        channel_points_custom_reward_id: opt_text_field(
            j,
            "channel_points_custom_reward_id"@,
        )->Some_0,
        source_broadcaster_user_id: opt_text_field(j, "source_broadcaster_user_id"@)->Some_0,
        source_broadcaster_user_name: opt_text_field(j, "source_broadcaster_user_name"@)->Some_0,
        source_broadcaster_user_login: opt_text_field(j, "source_broadcaster_user_login"@)->Some_0,
        source_message_id: opt_text_field(j, "source_message_id"@)->Some_0,
        source_badges: opt_source_badges(j)->Some_0,
        is_source_only: opt_bool_field(j, "is_source_only"@)->Some_0,
    }
}

impl ChannelChatMessage {
    /// Reads a chat-message event out of its JSON object.
    pub fn decode(j: &Json) -> (r: Option<ChannelChatMessage>)
        ensures
            r is Some <==> ccm_ok(j@),
            r matches Some(x) ==> x@ == ccm_of(j@),
    {
        let broadcaster_user_id = match j.get_text("broadcaster_user_id") {
            Some(t) => t.clone(),
            None => return None,
        };
        let broadcaster_user_name = match j.get_text("broadcaster_user_name") {
            Some(t) => t.clone(),
            None => return None,
        };
        let broadcaster_user_login = match j.get_text("broadcaster_user_login") {
            Some(t) => t.clone(),
            None => return None,
        };
        let chatter_user_id = match j.get_text("chatter_user_id") {
            Some(t) => t.clone(),
            None => return None,
        };
        let chatter_user_name = match j.get_text("chatter_user_name") {
            Some(t) => t.clone(),
            None => return None,
        };
        let chatter_user_login = match j.get_text("chatter_user_login") {
            Some(t) => t.clone(),
            None => return None,
        };
        let message_id_text = match j.get_text("message_id") {
            Some(t) => t.clone(),
            None => return None,
        };
        let message_id = MessageId::from_string(message_id_text);
        let message = match j.get_field("message") {
            Some(m) => match ChatMessage::decode(m) {
                Some(x) => x,
                None => return None,
            },
            None => return None,
        };
        let message_type = match j.get_text("message_type") {
            Some(t) => match crate::chat::MessageType::from_str_snake_case(t.as_str()) {
                Ok(x) => x,
                Err(_) => return None,
            },
            None => return None,
        };
        let badges = match j.get_arr("badges") {
            Some(a) => match decode_badges(a) {
                Some(v) => v,
                None => return None,
            },
            None => return None,
        };
        let reply = match j.get_field("reply") {
            None => None,
            Some(Json::Null) => None,
            Some(r) => match Reply::decode(r) {
                Some(x) => Some(x),
                None => return None,
            },
        };
        let channel_points_custom_reward_id = match j.get_opt_text(
            "channel_points_custom_reward_id",
        ) {
            Some(o) => o,
            None => return None,
        };
        let source_broadcaster_user_id = match j.get_opt_text("source_broadcaster_user_id") {
            Some(o) => o,
            None => return None,
        };
        let source_broadcaster_user_name = match j.get_opt_text("source_broadcaster_user_name") {
            Some(o) => o,
            None => return None,
        };
        let source_broadcaster_user_login = match j.get_opt_text("source_broadcaster_user_login") {
            Some(o) => o,
            None => return None,
        };
        let source_message_id = match j.get_opt_text("source_message_id") {
            Some(o) => o,
            None => return None,
        };
        let source_badges = match j.get_field("source_badges") {
            None => None,
            Some(Json::Null) => None,
            Some(Json::Arr(a)) => match decode_badges(a) {
                Some(v) => Some(v),
                None => return None,
            },
            Some(_) => return None,
        };
        let is_source_only = match j.get_opt_bool("is_source_only") {
            Some(o) => o,
            None => return None,
        };
        Some(ChannelChatMessage {
            broadcaster_user_id,
            broadcaster_user_name,
            broadcaster_user_login,
            chatter_user_id,
            chatter_user_name,
            chatter_user_login,
            message_id,
            message,
            message_type,
            badges,
            reply,
            channel_points_custom_reward_id,
            source_broadcaster_user_id,
            source_broadcaster_user_name,
            source_broadcaster_user_login,
            source_message_id,
            source_badges,
            is_source_only,
        })
    }
}

} // verus!
