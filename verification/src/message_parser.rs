//! Parsing Kick.com WebSocket frames into typed events.

use vstd::prelude::*;
use crate::decode::{
    struct_member, struct_shaped, field_string, field_opt_string, field_u64, field_opt_u32,
    field_value, field_opt_value, field_array, opt_node, struct_member_text, is_struct_shaped,
    decode_string, decode_opt_string, decode_u64, decode_opt_u32, decode_value, decode_opt_value,
    decode_array,
};
use crate::json::{JsonNode, JsonValue, json_of, member_str, object_lookup, opt_view, parse_json, element_views};
use crate::pattern::{regex_compiles, regex_replaced, regex_replace_all};
use crate::text::{seq_starts_with, seq_is_blank, is_blank, starts_with, str_eq, split_parts, split_char, spec_parse_usize, parse_usize, string_views};
use crate::types::{
    data_event_type,
    KickUser, KickChatroom, RawChatMessageData, RawMessageDeletedData, RawUserBannedData,
    RawUserUnbannedData, RawSubscriptionData, RawGiftedSubscriptionsData,
    RawPinnedMessageCreatedData, RawStreamHostData, RawPollUpdateData, RawPollOption,
    RawPollDeleteData, WebSocketMessage, ChatMessageEvent, MessageDeletedEvent, UserBannedEvent,
    UserUnbannedEvent, SubscriptionEvent, GiftedSubscriptionsEvent, PinnedMessageCreatedEvent,
    StreamHostEvent, PollUpdateEvent, PollOption, PollDeleteEvent, KickEventData, KickEventType,
    ParsedMessage, KickError, RawMessage, prefixed,
};

verus! {

// ---------------------------------------------------------------------------
// Records read out of event data
// ---------------------------------------------------------------------------

/// `u` is the `KickUser` record held by `n`.
pub open spec fn kick_user_matches(n: JsonNode, u: KickUser) -> bool {
    &&& struct_shaped(n, 4)
    &&& field_u64(struct_member(n, "id"@, 0, 4)) == Some(u.id)
    &&& field_string(struct_member(n, "username"@, 1, 4)) == Some(u.username@)
    &&& field_opt_string(struct_member(n, "display_name"@, 2, 4)) == Some(opt_view(u.display_name))
    &&& field_opt_string(struct_member(n, "avatar_url"@, 3, 4)) == Some(opt_view(u.avatar_url))
}

/// `c` is the `KickChatroom` record held by `n`.
pub open spec fn kick_chatroom_matches(n: JsonNode, c: KickChatroom) -> bool {
    &&& struct_shaped(n, 3)
    &&& field_u64(struct_member(n, "id"@, 0, 3)) == Some(c.id)
    &&& field_u64(struct_member(n, "channel_id"@, 1, 3)) == Some(c.channel_id)
    &&& field_string(struct_member(n, "name"@, 2, 3)) == Some(c.name@)
}

/// `r` is the `RawChatMessageData` record held by `n`.
pub open spec fn raw_chat_message_matches(n: JsonNode, r: RawChatMessageData) -> bool {
    &&& struct_shaped(n, 6)
    &&& field_string(struct_member(n, "id"@, 0, 6)) == Some(r.id@)
    &&& field_string(struct_member(n, "content"@, 1, 6)) == Some(r.content@)
    &&& field_string(struct_member(n, "type"@, 2, 6)) == Some(r.message_type@)
    &&& field_string(struct_member(n, "created_at"@, 3, 6)) == Some(r.created_at@)
    &&& match field_value(struct_member(n, "sender"@, 4, 6)) {
        Some(s) => kick_user_matches(s, r.sender),
        None => false,
    }
    &&& match field_value(struct_member(n, "chatroom"@, 5, 6)) {
        Some(c) => kick_chatroom_matches(c, r.chatroom),
        None => false,
    }
}

/// `r` is the `RawMessageDeletedData` record held by `n`.
pub open spec fn raw_message_deleted_matches(n: JsonNode, r: RawMessageDeletedData) -> bool {
    &&& struct_shaped(n, 2)
    &&& field_string(struct_member(n, "message_id"@, 0, 2)) == Some(r.message_id@)
    &&& field_u64(struct_member(n, "chatroom_id"@, 1, 2)) == Some(r.chatroom_id)
}

/// `r` is the `RawUserBannedData` record held by `n`.
pub open spec fn raw_user_banned_matches(n: JsonNode, r: RawUserBannedData) -> bool {
    &&& struct_shaped(n, 2)
    &&& field_opt_string(struct_member(n, "username"@, 0, 2)) == Some(opt_view(r.username))
    &&& field_opt_string(struct_member(n, "banned_username"@, 1, 2)) == Some(opt_view(r.banned_username))
}

/// `r` is the `RawUserUnbannedData` record held by `n`.
pub open spec fn raw_user_unbanned_matches(n: JsonNode, r: RawUserUnbannedData) -> bool {
    &&& struct_shaped(n, 1)
    &&& field_opt_string(struct_member(n, "username"@, 0, 1)) == Some(opt_view(r.username))
}

/// `r` is the `RawSubscriptionData` record held by `n`.
pub open spec fn raw_subscription_matches(n: JsonNode, r: RawSubscriptionData) -> bool {
    &&& struct_shaped(n, 2)
    &&& field_string(struct_member(n, "username"@, 0, 2)) == Some(r.username@)
    &&& field_opt_u32(struct_member(n, "months"@, 1, 2)) == Some(r.months)
}

/// `vs` are the values whose texts are `texts`.
pub open spec fn values_of_texts(texts: Seq<Seq<char>>, vs: Seq<JsonValue>) -> bool {
    &&& vs.len() == texts.len()
    &&& forall|i: int| 0 <= i < texts.len() ==> json_of(#[trigger] texts[i]) == Some(vs[i]@)
}

/// `r` is the `RawGiftedSubscriptionsData` record held by `n`.
pub open spec fn raw_gifted_subscriptions_matches(n: JsonNode, r: RawGiftedSubscriptionsData) -> bool {
    &&& struct_shaped(n, 3)
    &&& field_opt_string(struct_member(n, "gifted_by"@, 0, 3)) == Some(opt_view(r.gifted_by))
    &&& field_opt_value(struct_member(n, "gifter"@, 1, 3)) == Some(opt_node(r.gifter))
    &&& match field_array(struct_member(n, "recipients"@, 2, 3)) {
        Some(texts) => values_of_texts(texts, r.recipients@),
        None => false,
    }
}

/// `r` is the `RawPinnedMessageCreatedData` record held by `n`.
pub open spec fn raw_pinned_message_created_matches(n: JsonNode, r: RawPinnedMessageCreatedData) -> bool {
    &&& struct_shaped(n, 1)
    &&& match field_value(struct_member(n, "message"@, 0, 1)) {
        Some(m) => raw_chat_message_matches(m, r.message),
        None => false,
    }
}

/// `r` is the `RawStreamHostData` record held by `n`.
pub open spec fn raw_stream_host_matches(n: JsonNode, r: RawStreamHostData) -> bool {
    &&& struct_shaped(n, 2)
    &&& field_value(struct_member(n, "hoster"@, 0, 2)) == Some(r.hoster@)
    &&& field_value(struct_member(n, "hosted_channel"@, 1, 2)) == Some(r.hosted_channel@)
}

/// `o` is the `RawPollOption` record held by `n`.
pub open spec fn raw_poll_option_matches(n: JsonNode, o: RawPollOption) -> bool {
    &&& struct_shaped(n, 3)
    &&& field_string(struct_member(n, "id"@, 0, 3)) == Some(o.id@)
    &&& field_string(struct_member(n, "text"@, 1, 3)) == Some(o.text@)
    &&& field_opt_u32(struct_member(n, "votes"@, 2, 3)) == Some(o.votes)
}

/// `os` are the poll options whose texts are `texts`.
pub open spec fn poll_options_of_texts(texts: Seq<Seq<char>>, os: Seq<RawPollOption>) -> bool {
    &&& os.len() == texts.len()
    &&& forall|i: int|
        0 <= i < texts.len() ==> match json_of(#[trigger] texts[i]) {
            Some(m) => raw_poll_option_matches(m, os[i]),
            None => false,
        }
}

/// `r` is the `RawPollUpdateData` record held by `n`.
pub open spec fn raw_poll_update_matches(n: JsonNode, r: RawPollUpdateData) -> bool {
    &&& struct_shaped(n, 3)
    &&& field_string(struct_member(n, "id"@, 0, 3)) == Some(r.id@)
    &&& field_string(struct_member(n, "question"@, 1, 3)) == Some(r.question@)
    &&& match field_array(struct_member(n, "options"@, 2, 3)) {
        Some(texts) => poll_options_of_texts(texts, r.options@),
        None => false,
    }
}

/// `r` is the `RawPollDeleteData` record held by `n`.
pub open spec fn raw_poll_delete_matches(n: JsonNode, r: RawPollDeleteData) -> bool {
    &&& struct_shaped(n, 1)
    &&& field_string(struct_member(n, "id"@, 0, 1)) == Some(r.id@)
}

/// Reads a `KickUser` record.
pub fn decode_kick_user(n: &JsonValue) -> (res: Option<KickUser>)
    ensures
        res matches Some(u) ==> kick_user_matches(n@, u),
        res is None ==> forall|u: KickUser| !kick_user_matches(n@, u),
{
    if !is_struct_shaped(n, 4) {
        return None;
    }
    let id = decode_u64(&struct_member_text(n, "id", 0, 4))?;
    let username = decode_string(&struct_member_text(n, "username", 1, 4))?;
    let display_name = decode_opt_string(&struct_member_text(n, "display_name", 2, 4))?;
    let avatar_url = decode_opt_string(&struct_member_text(n, "avatar_url", 3, 4))?;
    Some(KickUser { id, username, display_name, avatar_url })
}

/// Reads a `KickChatroom` record.
pub fn decode_kick_chatroom(n: &JsonValue) -> (res: Option<KickChatroom>)
    ensures
        res matches Some(c) ==> kick_chatroom_matches(n@, c),
        res is None ==> forall|c: KickChatroom| !kick_chatroom_matches(n@, c),
{
    if !is_struct_shaped(n, 3) {
        return None;
    }
    let id = decode_u64(&struct_member_text(n, "id", 0, 3))?;
    let channel_id = decode_u64(&struct_member_text(n, "channel_id", 1, 3))?;
    let name = decode_string(&struct_member_text(n, "name", 2, 3))?;
    Some(KickChatroom { id, channel_id, name })
}

/// Reads a `RawChatMessageData` record.
pub fn decode_raw_chat_message(n: &JsonValue) -> (res: Option<RawChatMessageData>)
    ensures
        res matches Some(r) ==> raw_chat_message_matches(n@, r),
        res is None ==> forall|r: RawChatMessageData| !raw_chat_message_matches(n@, r),
{
    if !is_struct_shaped(n, 6) {
        return None;
    }
    let id = decode_string(&struct_member_text(n, "id", 0, 6))?;
    let content = decode_string(&struct_member_text(n, "content", 1, 6))?;
    let message_type = decode_string(&struct_member_text(n, "type", 2, 6))?;
    let created_at = decode_string(&struct_member_text(n, "created_at", 3, 6))?;
    let sender_node = decode_value(&struct_member_text(n, "sender", 4, 6))?;
    let sender = decode_kick_user(&sender_node)?;
    let chatroom_node = decode_value(&struct_member_text(n, "chatroom", 5, 6))?;
    let chatroom = decode_kick_chatroom(&chatroom_node)?;
    Some(RawChatMessageData { id, content, message_type, created_at, sender, chatroom })
}

/// Reads a `RawMessageDeletedData` record.
pub fn decode_raw_message_deleted(n: &JsonValue) -> (res: Option<RawMessageDeletedData>)
    ensures
        res matches Some(r) ==> raw_message_deleted_matches(n@, r),
        res is None ==> forall|r: RawMessageDeletedData| !raw_message_deleted_matches(n@, r),
{
    if !is_struct_shaped(n, 2) {
        return None;
    }
    let message_id = decode_string(&struct_member_text(n, "message_id", 0, 2))?;
    let chatroom_id = decode_u64(&struct_member_text(n, "chatroom_id", 1, 2))?;
    Some(RawMessageDeletedData { message_id, chatroom_id })
}

/// Reads a `RawUserBannedData` record.
pub fn decode_raw_user_banned(n: &JsonValue) -> (res: Option<RawUserBannedData>)
    ensures
        res matches Some(r) ==> raw_user_banned_matches(n@, r),
        res is None ==> forall|r: RawUserBannedData| !raw_user_banned_matches(n@, r),
{
    if !is_struct_shaped(n, 2) {
        return None;
    }
    let username = decode_opt_string(&struct_member_text(n, "username", 0, 2))?;
    let banned_username = decode_opt_string(&struct_member_text(n, "banned_username", 1, 2))?;
    Some(RawUserBannedData { username, banned_username })
}

/// Reads a `RawUserUnbannedData` record.
pub fn decode_raw_user_unbanned(n: &JsonValue) -> (res: Option<RawUserUnbannedData>)
    ensures
        res matches Some(r) ==> raw_user_unbanned_matches(n@, r),
        res is None ==> forall|r: RawUserUnbannedData| !raw_user_unbanned_matches(n@, r),
{
    if !is_struct_shaped(n, 1) {
        return None;
    }
    let username = decode_opt_string(&struct_member_text(n, "username", 0, 1))?;
    Some(RawUserUnbannedData { username })
}

/// Reads a `RawSubscriptionData` record.
pub fn decode_raw_subscription(n: &JsonValue) -> (res: Option<RawSubscriptionData>)
    ensures
        res matches Some(r) ==> raw_subscription_matches(n@, r),
        res is None ==> forall|r: RawSubscriptionData| !raw_subscription_matches(n@, r),
{
    if !is_struct_shaped(n, 2) {
        return None;
    }
    let username = decode_string(&struct_member_text(n, "username", 0, 2))?;
    let months = decode_opt_u32(&struct_member_text(n, "months", 1, 2))?;
    Some(RawSubscriptionData { username, months })
}

/// Parses each of `texts` as a JSON value.
pub fn parse_values(texts: &Vec<String>) -> (res: Option<Vec<JsonValue>>)
    ensures
        res matches Some(vs) ==> values_of_texts(element_views(texts@), vs@),
        res is None ==> forall|vs: Seq<JsonValue>| !values_of_texts(element_views(texts@), vs),
{
    let mut out: Vec<JsonValue> = Vec::new();
    let mut i: usize = 0;
    while i < texts.len()
        invariant
            i <= texts.len(),
            out@.len() == i,
            forall|k: int| 0 <= k < i ==> json_of(#[trigger] element_views(texts@)[k]) == Some(out@[k]@),
        decreases texts.len() - i,
    {
        match parse_json(texts[i].as_str()) {
            Ok(v) => {
                out.push(v);
            },
            Err(_) => {
                assert(json_of(element_views(texts@)[i as int]) is None);
                return None;
            },
        }
        i = i + 1;
    }
    Some(out)
}

/// Reads a `RawGiftedSubscriptionsData` record.
pub fn decode_raw_gifted_subscriptions(n: &JsonValue) -> (res: Option<RawGiftedSubscriptionsData>)
    ensures
        res matches Some(r) ==> raw_gifted_subscriptions_matches(n@, r),
        res is None ==> forall|r: RawGiftedSubscriptionsData| !raw_gifted_subscriptions_matches(n@, r),
{
    if !is_struct_shaped(n, 3) {
        return None;
    }
    let gifted_by = decode_opt_string(&struct_member_text(n, "gifted_by", 0, 3))?;
    let gifter = decode_opt_value(&struct_member_text(n, "gifter", 1, 3))?;
    let texts = decode_array(&struct_member_text(n, "recipients", 2, 3))?;
    let recipients = parse_values(&texts)?;
    Some(RawGiftedSubscriptionsData { gifted_by, gifter, recipients })
}

/// Reads a `RawPinnedMessageCreatedData` record.
pub fn decode_raw_pinned_message_created(n: &JsonValue) -> (res: Option<RawPinnedMessageCreatedData>)
    ensures
        res matches Some(r) ==> raw_pinned_message_created_matches(n@, r),
        res is None ==> forall|r: RawPinnedMessageCreatedData| !raw_pinned_message_created_matches(n@, r),
{
    if !is_struct_shaped(n, 1) {
        return None;
    }
    let message_node = decode_value(&struct_member_text(n, "message", 0, 1))?;
    let message = decode_raw_chat_message(&message_node)?;
    Some(RawPinnedMessageCreatedData { message })
}

/// Reads a `RawStreamHostData` record.
pub fn decode_raw_stream_host(n: &JsonValue) -> (res: Option<RawStreamHostData>)
    ensures
        res matches Some(r) ==> raw_stream_host_matches(n@, r),
        res is None ==> forall|r: RawStreamHostData| !raw_stream_host_matches(n@, r),
{
    if !is_struct_shaped(n, 2) {
        return None;
    }
    let hoster = decode_value(&struct_member_text(n, "hoster", 0, 2))?;
    let hosted_channel = decode_value(&struct_member_text(n, "hosted_channel", 1, 2))?;
    Some(RawStreamHostData { hoster, hosted_channel })
}

/// Reads a `RawPollOption` record.
pub fn decode_raw_poll_option(n: &JsonValue) -> (res: Option<RawPollOption>)
    ensures
        res matches Some(o) ==> raw_poll_option_matches(n@, o),
        res is None ==> forall|o: RawPollOption| !raw_poll_option_matches(n@, o),
{
    if !is_struct_shaped(n, 3) {
        return None;
    }
    let id = decode_string(&struct_member_text(n, "id", 0, 3))?;
    let text = decode_string(&struct_member_text(n, "text", 1, 3))?;
    let votes = decode_opt_u32(&struct_member_text(n, "votes", 2, 3))?;
    Some(RawPollOption { id, text, votes })
}

/// Reads each of `texts` as a `RawPollOption` record.
pub fn decode_poll_options(texts: &Vec<String>) -> (res: Option<Vec<RawPollOption>>)
    ensures
        res matches Some(os) ==> poll_options_of_texts(element_views(texts@), os@),
        res is None ==> forall|os: Seq<RawPollOption>| !poll_options_of_texts(element_views(texts@), os),
{
    let mut out: Vec<RawPollOption> = Vec::new();
    let mut i: usize = 0;
    while i < texts.len()
        invariant
            i <= texts.len(),
            out@.len() == i,
            forall|k: int|
                0 <= k < i ==> match json_of(#[trigger] element_views(texts@)[k]) {
                    Some(m) => raw_poll_option_matches(m, out@[k]),
                    None => false,
                },
        decreases texts.len() - i,
    {
        let ghost t = element_views(texts@)[i as int];
        match parse_json(texts[i].as_str()) {
            Ok(v) => {
                match decode_raw_poll_option(&v) {
                    Some(o) => {
                        out.push(o);
                    },
                    None => {
                        assert(json_of(t) == Some(v@));
                        return None;
                    },
                }
            },
            Err(_) => {
                assert(json_of(t) is None);
                return None;
            },
        }
        i = i + 1;
    }
    Some(out)
}

/// Reads a `RawPollUpdateData` record.
pub fn decode_raw_poll_update(n: &JsonValue) -> (res: Option<RawPollUpdateData>)
    ensures
        res matches Some(r) ==> raw_poll_update_matches(n@, r),
        res is None ==> forall|r: RawPollUpdateData| !raw_poll_update_matches(n@, r),
{
    if !is_struct_shaped(n, 3) {
        return None;
    }
    let id = decode_string(&struct_member_text(n, "id", 0, 3))?;
    let question = decode_string(&struct_member_text(n, "question", 1, 3))?;
    let texts = decode_array(&struct_member_text(n, "options", 2, 3))?;
    let options = decode_poll_options(&texts)?;
    Some(RawPollUpdateData { id, question, options })
}

/// Reads a `RawPollDeleteData` record.
pub fn decode_raw_poll_delete(n: &JsonValue) -> (res: Option<RawPollDeleteData>)
    ensures
        res matches Some(r) ==> raw_poll_delete_matches(n@, r),
        res is None ==> forall|r: RawPollDeleteData| !raw_poll_delete_matches(n@, r),
{
    if !is_struct_shaped(n, 1) {
        return None;
    }
    let id = decode_string(&struct_member_text(n, "id", 0, 1))?;
    Some(RawPollDeleteData { id })
}


// ---------------------------------------------------------------------------
// From raw records to events
// ---------------------------------------------------------------------------

/// The pattern of an emote code, `[emote:<digits>:<word>]`.
pub open spec fn emote_pattern() -> Seq<char> {
    "\\[emote:(\\d+):(\\w+)\\]"@
}

/// Message content with every emote code replaced by the emote's name.
pub open spec fn spec_clean_emotes(content: Seq<char>) -> Seq<char> {
    if content.len() == 0 {
        Seq::empty()
    } else if regex_compiles(emote_pattern()) {
        regex_replaced(emote_pattern(), content, "$2"@)
    } else {
        content
    }
}

/// `ev` is the chat message event made of `r`.
pub open spec fn chat_event_from(r: RawChatMessageData, ev: ChatMessageEvent) -> bool {
    &&& ev.id == r.id
    &&& ev.content@ == spec_clean_emotes(r.content@)
    &&& ev.message_type == r.message_type
    &&& ev.created_at == r.created_at
    &&& ev.sender == r.sender
    &&& ev.chatroom == r.chatroom
}

/// The user named by a JSON value: the value itself if it is a string, its
/// `username` member if it is an object whose `username` is a string.
pub open spec fn value_username(n: JsonNode) -> Option<Seq<char>> {
    match n {
        JsonNode::Str(s) => Some(s),
        JsonNode::Object(entries) => match object_lookup(entries, "username"@) {
            Some(t) => match json_of(t) {
                Some(JsonNode::Str(u)) => Some(u),
                _ => None,
            },
            None => None,
        },
        _ => None,
    }
}

/// The user named by a JSON value, or `unknown`.
pub open spec fn name_or_unknown(n: JsonNode) -> Seq<char> {
    match value_username(n) {
        Some(s) => s,
        None => "unknown"@,
    }
}

/// The name of the user who banned someone: `username`, else
/// `banned_username`, else `unknown`.
pub open spec fn banned_name(r: RawUserBannedData) -> Seq<char> {
    match (r.username, r.banned_username) {
        (Some(u), _) => u@,
        (None, Some(b)) => b@,
        (None, None) => "unknown"@,
    }
}

/// The gifter of gifted subscriptions: `gifted_by`, else the user named by
/// `gifter`, else `unknown`.
pub open spec fn gifter_name(r: RawGiftedSubscriptionsData) -> Seq<char> {
    match r.gifted_by {
        Some(g) => g@,
        None => match r.gifter {
            Some(v) => match value_username(v@) {
                Some(s) => s,
                None => "unknown"@,
            },
            None => "unknown"@,
        },
    }
}

/// Law: a user given in event data is named by the string itself, or by the
/// `username` string of an object; `unknown` only when neither gives a name.
pub proof fn law_users_named_by_string_or_username(n: JsonNode, name: Seq<char>)
    ensures
        n == JsonNode::Str(name) ==> name_or_unknown(n) == name,
        (n is Object && member_str(n, "username"@) == Some(name)) ==> name_or_unknown(n) == name,
        (!(n is Str) && member_str(n, "username"@) is None) ==> name_or_unknown(n) == "unknown"@,
{
}

/// Law: the gifter of gifted subscriptions is `gifted_by` when it is given;
/// else the gifter given as a string, or the `username` string of a gifter
/// object; `unknown` only when none of these names one.
pub proof fn law_gifter_named(r: RawGiftedSubscriptionsData, name: Seq<char>)
    ensures
        opt_view(r.gifted_by) == Some(name) ==> gifter_name(r) == name,
        (r.gifted_by is None && r.gifter is Some && r.gifter.unwrap()@ == JsonNode::Str(name)) ==> gifter_name(r)
            == name,
        (r.gifted_by is None && r.gifter is Some && r.gifter.unwrap()@ is Object && member_str(
            r.gifter.unwrap()@,
            "username"@,
        ) == Some(name)) ==> gifter_name(r) == name,
        (r.gifted_by is None && (r.gifter is None || (!(r.gifter.unwrap()@ is Str) && member_str(
            r.gifter.unwrap()@,
            "username"@,
        ) is None))) ==> gifter_name(r) == "unknown"@,
{
}

/// The user named by `v`, or `unknown`.
pub fn name_or_unknown_of(v: &JsonValue) -> (res: String)
    ensures
        res@ == name_or_unknown(v@),
{
    match v {
        JsonValue::String(s) => s.clone(),
        JsonValue::Object(entries) => {
            match crate::json::lookup_entry(entries, "username") {
                Some(t) => match parse_json(t.as_str()) {
                    Ok(JsonValue::String(u)) => u,
                    _ => String::from_str("unknown"),
                },
                None => String::from_str("unknown"),
            }
        },
        _ => String::from_str("unknown"),
    }
}

/// Message content with emote codes such as `[emote:123:wave]` replaced by
/// the emote's name (`wave`).
pub fn clean_emotes(content: &str) -> (res: String)
    ensures
        res@ == spec_clean_emotes(content@),
{
    if content.is_empty() {
        return String::new();
    }
    match regex_replace_all("\\[emote:(\\d+):(\\w+)\\]", content, "$2") {
        Some(s) => s,
        None => String::from_str(content),
    }
}

impl MessageParser {
    /// Parse a chat message event.
    pub fn parse_chat_message(data: RawChatMessageData) -> (res: ChatMessageEvent)
        ensures
            chat_event_from(data, res),
    {
        let content = clean_emotes(data.content.as_str());
        ChatMessageEvent {
            id: data.id,
            content,
            message_type: data.message_type,
            created_at: data.created_at,
            sender: data.sender,
            chatroom: data.chatroom,
        }
    }

    /// Parse a message deleted event.
    pub fn parse_message_deleted(data: RawMessageDeletedData) -> (res: MessageDeletedEvent)
        ensures
            res.message_id == data.message_id,
            res.chatroom_id == data.chatroom_id,
            res.event_type@ == "message_deleted"@,
    {
        MessageDeletedEvent {
            message_id: data.message_id,
            chatroom_id: data.chatroom_id,
            event_type: String::from_str("message_deleted"),
        }
    }

    /// Parse a user banned event.
    pub fn parse_user_banned(data: RawUserBannedData) -> (res: UserBannedEvent)
        ensures
            res.username@ == banned_name(data),
            res.event_type@ == "user_banned"@,
    {
        let username = match data.username {
            Some(u) => u,
            None => match data.banned_username {
                Some(b) => b,
                None => String::from_str("unknown"),
            },
        };
        UserBannedEvent { username, event_type: String::from_str("user_banned") }
    }

    /// Parse a user unbanned event.
    pub fn parse_user_unbanned(data: RawUserUnbannedData) -> (res: UserUnbannedEvent)
        ensures
            res.username@ == match data.username {
                Some(u) => u@,
                None => "unknown"@,
            },
            res.event_type@ == "user_unbanned"@,
    {
        let username = match data.username {
            Some(u) => u,
            None => String::from_str("unknown"),
        };
        UserUnbannedEvent { username, event_type: String::from_str("user_unbanned") }
    }

    /// Parse a subscription event.
    pub fn parse_subscription(data: RawSubscriptionData) -> (res: SubscriptionEvent)
        ensures
            res.username == data.username,
            res.months == data.months,
            res.event_type@ == "subscription"@,
    {
        SubscriptionEvent {
            username: data.username,
            months: data.months,
            event_type: String::from_str("subscription"),
        }
    }

    /// Parse a gifted subscriptions event.
    pub fn parse_gifted_subscriptions(data: RawGiftedSubscriptionsData) -> (res: GiftedSubscriptionsEvent)
        ensures
            res.gifted_by@ == gifter_name(data),
            res.recipients@.len() == data.recipients@.len(),
            forall|i: int|
                0 <= i < data.recipients@.len() ==> #[trigger] res.recipients@[i]@ == name_or_unknown(
                    data.recipients@[i]@,
                ),
            res.event_type@ == "gifted_subscriptions"@,
    {
        let gifted_by = match data.gifted_by {
            Some(g) => g,
            None => match &data.gifter {
                Some(v) => match v {
                    JsonValue::String(s) => s.clone(),
                    JsonValue::Object(entries) => match crate::json::lookup_entry(entries, "username") {
                        Some(t) => match parse_json(t.as_str()) {
                            Ok(JsonValue::String(u)) => u,
                            _ => String::from_str("unknown"),
                        },
                        None => String::from_str("unknown"),
                    },
                    _ => String::from_str("unknown"),
                },
                None => String::from_str("unknown"),
            },
        };
        let mut recipients: Vec<String> = Vec::new();
        let mut i: usize = 0;
        while i < data.recipients.len()
            invariant
                i <= data.recipients@.len(),
                recipients@.len() == i,
                forall|k: int| 0 <= k < i ==> #[trigger] recipients@[k]@ == name_or_unknown(data.recipients@[k]@),
            decreases data.recipients.len() - i,
        {
            let name = name_or_unknown_of(&data.recipients[i]);
            recipients.push(name);
            i = i + 1;
        }
        GiftedSubscriptionsEvent {
            gifted_by,
            recipients,
            event_type: String::from_str("gifted_subscriptions"),
        }
    }

    /// Parse a pinned message created event.
    pub fn parse_pinned_message_created(data: RawPinnedMessageCreatedData) -> (res: PinnedMessageCreatedEvent)
        ensures
            chat_event_from(data.message, res.message),
            res.event_type@ == "pinned_message_created"@,
    {
        PinnedMessageCreatedEvent {
            message: Self::parse_chat_message(data.message),
            event_type: String::from_str("pinned_message_created"),
        }
    }

    /// Parse a stream host event.
    pub fn parse_stream_host(data: RawStreamHostData) -> (res: StreamHostEvent)
        ensures
            res.hoster@ == name_or_unknown(data.hoster@),
            res.hosted_channel@ == name_or_unknown(data.hosted_channel@),
            res.event_type@ == "stream_host"@,
    {
        StreamHostEvent {
            hoster: name_or_unknown_of(&data.hoster),
            hosted_channel: name_or_unknown_of(&data.hosted_channel),
            event_type: String::from_str("stream_host"),
        }
    }

    /// Parse a poll update event.
    pub fn parse_poll_update(data: RawPollUpdateData) -> (res: PollUpdateEvent)
        ensures
            res.poll_id == data.id,
            res.question == data.question,
            res.options@.len() == data.options@.len(),
            forall|i: int|
                0 <= i < data.options@.len() ==> {
                    &&& (#[trigger] res.options@[i]).id == data.options@[i].id
                    &&& res.options@[i].text == data.options@[i].text
                    &&& res.options@[i].votes == match data.options@[i].votes {
                        Some(v) => v,
                        None => 0,
                    }
                },
            res.event_type@ == "poll_update"@,
    {
        let mut options: Vec<PollOption> = Vec::new();
        let mut i: usize = 0;
        while i < data.options.len()
            invariant
                i <= data.options@.len(),
                options@.len() == i,
                forall|k: int|
                    0 <= k < i ==> {
                        &&& (#[trigger] options@[k]).id == data.options@[k].id
                        &&& options@[k].text == data.options@[k].text
                        &&& options@[k].votes == match data.options@[k].votes {
                            Some(v) => v,
                            None => 0,
                        }
                    },
            decreases data.options.len() - i,
        {
            let opt = &data.options[i];
            let votes: u32 = match opt.votes {
                Some(v) => v,
                None => 0,
            };
            options.push(PollOption { id: opt.id.clone(), text: opt.text.clone(), votes });
            i = i + 1;
        }
        PollUpdateEvent {
            poll_id: data.id,
            question: data.question,
            options,
            event_type: String::from_str("poll_update"),
        }
    }

    /// Parse a poll delete event.
    pub fn parse_poll_delete(data: RawPollDeleteData) -> (res: PollDeleteEvent)
        ensures
            res.poll_id == data.id,
            res.event_type@ == "poll_delete"@,
    {
        PollDeleteEvent { poll_id: data.id, event_type: String::from_str("poll_delete") }
    }
}

/// Parser for processing WebSocket messages from Kick.com.
pub struct MessageParser;

// ---------------------------------------------------------------------------
// Frames
// ---------------------------------------------------------------------------

/// The standard event type of a Kick event name.
pub open spec fn event_kind(name: Seq<char>) -> Option<KickEventType> {
    if name == "App\\Events\\ChatMessageEvent"@ {
        Some(KickEventType::ChatMessage)
    } else if name == "App\\Events\\MessageDeletedEvent"@ {
        Some(KickEventType::MessageDeleted)
    } else if name == "App\\Events\\UserBannedEvent"@ {
        Some(KickEventType::UserBanned)
    } else if name == "App\\Events\\UserUnbannedEvent"@ {
        Some(KickEventType::UserUnbanned)
    } else if name == "App\\Events\\SubscriptionEvent"@ {
        Some(KickEventType::Subscription)
    } else if name == "App\\Events\\GiftedSubscriptionsEvent"@ {
        Some(KickEventType::GiftedSubscriptions)
    } else if name == "App\\Events\\PinnedMessageCreatedEvent"@ {
        Some(KickEventType::PinnedMessageCreated)
    } else if name == "App\\Events\\StreamHostEvent"@ {
        Some(KickEventType::StreamHost)
    } else if name == "App\\Events\\PollUpdateEvent"@ {
        Some(KickEventType::PollUpdate)
    } else if name == "App\\Events\\PollDeleteEvent"@ {
        Some(KickEventType::PollDelete)
    } else {
        None
    }
}

/// A Pusher system event rather than a Kick event.
pub open spec fn is_pusher_event(name: Seq<char>) -> bool {
    seq_starts_with(name, "pusher:"@) || seq_starts_with(name, "pusher_internal:"@)
}

/// `m` is the `WebSocketMessage` record held by `n`.
pub open spec fn websocket_message_matches(n: JsonNode, m: WebSocketMessage) -> bool {
    &&& struct_shaped(n, 3)
    &&& field_string(struct_member(n, "event"@, 0, 3)) == Some(m.event@)
    &&& field_value(struct_member(n, "data"@, 1, 3)) == Some(m.data@)
    &&& field_opt_string(struct_member(n, "channel"@, 2, 3)) == Some(opt_view(m.channel))
}

/// The event name and data of a JSON value holding a `WebSocketMessage`
/// record.
pub open spec fn record_frame(n: JsonNode) -> Option<(Seq<char>, JsonNode)> {
    let e = field_string(struct_member(n, "event"@, 0, 3));
    let d = field_value(struct_member(n, "data"@, 1, 3));
    let c = field_opt_string(struct_member(n, "channel"@, 2, 3));
    if struct_shaped(n, 3) && e is Some && d is Some && c is Some {
        Some((e.unwrap(), d.unwrap()))
    } else {
        None
    }
}

/// The event name and data of the frame `raw`, when it is a JSON document
/// holding a `WebSocketMessage` record.
pub open spec fn frame_of(raw: Seq<char>) -> Option<(Seq<char>, JsonNode)> {
    match json_of(raw) {
        Some(n) => record_frame(n),
        None => None,
    }
}

/// Reads a parsed frame as a `WebSocketMessage` record.
pub fn decode_websocket_record(n: &JsonValue) -> (res: Result<WebSocketMessage, KickError>)
    ensures
        match res {
            Ok(m) => record_frame(n@) == Some((m.event@, m.data@)) && websocket_message_matches(n@, m),
            Err(e) => record_frame(n@) is None && e is Json,
        },
{
    if !is_struct_shaped(n, 3) {
        return Err(KickError::Json(String::from_str("invalid type: expected struct WebSocketMessage")));
    }
    let event = match decode_string(&struct_member_text(n, "event", 0, 3)) {
        Some(e) => e,
        None => return Err(KickError::Json(String::from_str("invalid or missing field `event`"))),
    };
    let data = match decode_value(&struct_member_text(n, "data", 1, 3)) {
        Some(d) => d,
        None => return Err(KickError::Json(String::from_str("invalid or missing field `data`"))),
    };
    let channel = match decode_opt_string(&struct_member_text(n, "channel", 2, 3)) {
        Some(c) => c,
        None => return Err(KickError::Json(String::from_str("invalid field `channel`"))),
    };
    Ok(WebSocketMessage { event, data, channel })
}

/// Reads a frame as a `WebSocketMessage`.
pub fn decode_websocket_message(raw: &str) -> (res: Result<WebSocketMessage, KickError>)
    ensures
        match res {
            Ok(m) => frame_of(raw@) == Some((m.event@, m.data@)) && (json_of(raw@) matches Some(n)
                && websocket_message_matches(n, m)),
            Err(e) => frame_of(raw@) is None && match json_parse_error(raw@) {
                Some(t) => (e matches KickError::Json(m) && m@ == t),
                None => e is Json,
            },
        },
        seq_is_blank(raw@) ==> frame_of(raw@) is None,
{
    match parse_json(raw) {
        Ok(n) => decode_websocket_record(&n),
        Err(t) => Err(KickError::Json(t)),
    }
}

/// The text of serde_json's error when `raw` is not a JSON document.
pub open spec fn json_parse_error(raw: Seq<char>) -> Option<Seq<char>> {
    match crate::json::json_parse(raw) {
        Ok(_) => None,
        Err(t) => Some(t),
    }
}

/// The record that event data holds: the document a string holds, or the
/// object itself.
pub open spec fn data_record(data: JsonNode) -> Option<JsonNode> {
    match data {
        JsonNode::Str(s) => json_of(s),
        JsonNode::Object(_) => Some(data),
        _ => None,
    }
}

/// The record held by event data, and whether it came out of a string.
fn extract_record(data: JsonValue) -> (res: Result<(JsonValue, bool), KickError>)
    ensures
        match res {
            Ok((r, _)) => data_record(data@) == Some(r@),
            Err(e) => data_record(data@) is None && e is InvalidMessage,
        },
{
    match data {
        JsonValue::String(s) => match parse_json(s.as_str()) {
            Ok(v) => Ok((v, true)),
            Err(t) => Err(KickError::InvalidMessage(prefixed("Failed to parse JSON string: ", t.as_str()))),
        },
        JsonValue::Object(entries) => Ok((JsonValue::Object(entries), false)),
        _ => Err(KickError::InvalidMessage(String::from_str("Data is neither a string nor an object"))),
    }
}

/// `d` is the event of kind `kind` made of the record `rec`.
pub open spec fn event_data_of(kind: KickEventType, rec: JsonNode, d: KickEventData) -> bool {
    match kind {
        KickEventType::ChatMessage => d matches KickEventData::ChatMessage(ev) && exists|r: RawChatMessageData|
            #[trigger] raw_chat_message_matches(rec, r) && chat_event_from(r, ev),
        KickEventType::MessageDeleted => d matches KickEventData::MessageDeleted(ev) && exists|r: RawMessageDeletedData|
            #[trigger] raw_message_deleted_matches(rec, r) && ev.message_id == r.message_id
                && ev.chatroom_id == r.chatroom_id && ev.event_type@ == "message_deleted"@,
        KickEventType::UserBanned => d matches KickEventData::UserBanned(ev) && exists|r: RawUserBannedData|
            #[trigger] raw_user_banned_matches(rec, r) && ev.username@ == banned_name(r)
                && ev.event_type@ == "user_banned"@,
        KickEventType::UserUnbanned => d matches KickEventData::UserUnbanned(ev) && exists|r: RawUserUnbannedData|
            #[trigger] raw_user_unbanned_matches(rec, r) && ev.username@ == match r.username {
                Some(u) => u@,
                None => "unknown"@,
            } && ev.event_type@ == "user_unbanned"@,
        KickEventType::Subscription => d matches KickEventData::Subscription(ev) && exists|r: RawSubscriptionData|
            #[trigger] raw_subscription_matches(rec, r) && ev.username == r.username && ev.months == r.months
                && ev.event_type@ == "subscription"@,
        KickEventType::GiftedSubscriptions => d matches KickEventData::GiftedSubscriptions(ev) && exists|
            r: RawGiftedSubscriptionsData,
        |
            #[trigger] raw_gifted_subscriptions_matches(rec, r) && ev.gifted_by@ == gifter_name(r)
                && ev.recipients@.len() == r.recipients@.len() && (forall|i: int|
                0 <= i < r.recipients@.len() ==> #[trigger] ev.recipients@[i]@ == name_or_unknown(
                    r.recipients@[i]@,
                )) && ev.event_type@ == "gifted_subscriptions"@,
        KickEventType::PinnedMessageCreated => d matches KickEventData::PinnedMessageCreated(ev) && exists|
            r: RawPinnedMessageCreatedData,
        |
            #[trigger] raw_pinned_message_created_matches(rec, r) && chat_event_from(r.message, ev.message)
                && ev.event_type@ == "pinned_message_created"@,
        KickEventType::StreamHost => d matches KickEventData::StreamHost(ev) && exists|r: RawStreamHostData|
            #[trigger] raw_stream_host_matches(rec, r) && ev.hoster@ == name_or_unknown(r.hoster@)
                && ev.hosted_channel@ == name_or_unknown(r.hosted_channel@) && ev.event_type@ == "stream_host"@,
        KickEventType::PollUpdate => d matches KickEventData::PollUpdate(ev) && exists|r: RawPollUpdateData|
            #[trigger] raw_poll_update_matches(rec, r) && ev.poll_id == r.id && ev.question == r.question
                && ev.options@.len() == r.options@.len() && (forall|i: int|
                0 <= i < r.options@.len() ==> {
                    &&& (#[trigger] ev.options@[i]).id == r.options@[i].id
                    &&& ev.options@[i].text == r.options@[i].text
                    &&& ev.options@[i].votes == match r.options@[i].votes {
                        Some(v) => v,
                        None => 0,
                    }
                }) && ev.event_type@ == "poll_update"@,
        KickEventType::PollDelete => d matches KickEventData::PollDelete(ev) && exists|r: RawPollDeleteData|
            #[trigger] raw_poll_delete_matches(rec, r) && ev.poll_id == r.id && ev.event_type@ == "poll_delete"@,
    }
}

/// The message of a record that does not have the shape its event needs.
fn record_error(from_text: bool) -> (res: KickError)
    ensures
        res is InvalidMessage,
{
    if from_text {
        KickError::InvalidMessage(String::from_str("Failed to parse JSON string: the record does not fit the event"))
    } else {
        KickError::InvalidMessage(String::from_str("Failed to parse JSON object: the record does not fit the event"))
    }
}

/// Reads the event of kind `kind` out of the record `rec`.
fn decode_event_data(kind: KickEventType, rec: &JsonValue, from_text: bool) -> (res: Result<KickEventData, KickError>)
    ensures
        match res {
            Ok(d) => event_data_of(kind, rec@, d),
            Err(e) => (forall|d: KickEventData| !event_data_of(kind, rec@, d)) && e is InvalidMessage,
        },
{
    match kind {
        KickEventType::ChatMessage => match decode_raw_chat_message(rec) {
            Some(r) => {
                let ghost g = r;
                Ok(KickEventData::ChatMessage(MessageParser::parse_chat_message(r)))
            },
            None => Err(record_error(from_text)),
        },
        KickEventType::MessageDeleted => match decode_raw_message_deleted(rec) {
            Some(r) => {
                let ghost g = r;
                Ok(KickEventData::MessageDeleted(MessageParser::parse_message_deleted(r)))
            },
            None => Err(record_error(from_text)),
        },
        KickEventType::UserBanned => match decode_raw_user_banned(rec) {
            Some(r) => {
                let ghost g = r;
                Ok(KickEventData::UserBanned(MessageParser::parse_user_banned(r)))
            },
            None => Err(record_error(from_text)),
        },
        KickEventType::UserUnbanned => match decode_raw_user_unbanned(rec) {
            Some(r) => {
                let ghost g = r;
                Ok(KickEventData::UserUnbanned(MessageParser::parse_user_unbanned(r)))
            },
            None => Err(record_error(from_text)),
        },
        KickEventType::Subscription => match decode_raw_subscription(rec) {
            Some(r) => {
                let ghost g = r;
                Ok(KickEventData::Subscription(MessageParser::parse_subscription(r)))
            },
            None => Err(record_error(from_text)),
        },
        KickEventType::GiftedSubscriptions => match decode_raw_gifted_subscriptions(rec) {
            Some(r) => {
                let ghost g = r;
                Ok(KickEventData::GiftedSubscriptions(MessageParser::parse_gifted_subscriptions(r)))
            },
            None => Err(record_error(from_text)),
        },
        KickEventType::PinnedMessageCreated => match decode_raw_pinned_message_created(rec) {
            Some(r) => {
                let ghost g = r;
                Ok(KickEventData::PinnedMessageCreated(MessageParser::parse_pinned_message_created(r)))
            },
            None => Err(record_error(from_text)),
        },
        KickEventType::StreamHost => match decode_raw_stream_host(rec) {
            Some(r) => {
                let ghost g = r;
                Ok(KickEventData::StreamHost(MessageParser::parse_stream_host(r)))
            },
            None => Err(record_error(from_text)),
        },
        KickEventType::PollUpdate => match decode_raw_poll_update(rec) {
            Some(r) => {
                let ghost g = r;
                Ok(KickEventData::PollUpdate(MessageParser::parse_poll_update(r)))
            },
            None => Err(record_error(from_text)),
        },
        KickEventType::PollDelete => match decode_raw_poll_delete(rec) {
            Some(r) => {
                let ghost g = r;
                Ok(KickEventData::PollDelete(MessageParser::parse_poll_delete(r)))
            },
            None => Err(record_error(from_text)),
        },
    }
}

/// Whether `name` names a Pusher system event.
pub fn is_pusher_event_name(name: &str) -> (res: bool)
    ensures
        res == is_pusher_event(name@),
{
    starts_with(name, "pusher:") || starts_with(name, "pusher_internal:")
}

/// `pm` is the event that `parse_message` makes of the frame `raw`.
pub open spec fn parsed_event(raw: Seq<char>, pm: ParsedMessage) -> bool {
    &&& !seq_is_blank(raw)
    &&& frame_of(raw) matches Some((event, data))
    &&& event.len() > 0
    &&& !is_pusher_event(event)
    &&& event_kind(event) == Some(pm.event_type)
    &&& data_record(data) matches Some(rec)
    &&& event_data_of(pm.event_type, rec, pm.data)
}

/// A frame of a Kick event: a `WebSocketMessage` whose event name is not
/// empty and is not a Pusher system event.
pub open spec fn kick_frame(raw: Seq<char>) -> bool {
    frame_of(raw) matches Some((event, _)) && !is_pusher_event(event) && event.len() > 0
}

/// What parsing a frame with event name `event` and data `data` gives: an
/// error for an empty or unknown event, nothing for a Pusher system event,
/// and otherwise the event read out of the record the data holds.
pub open spec fn frame_outcome(event: Seq<char>, data: JsonNode, res: Result<Option<ParsedMessage>, KickError>) -> bool {
    if event.len() == 0 {
        res matches Err(KickError::InvalidMessage(m)) && m@ == "Empty event"@
    } else if is_pusher_event(event) {
        res matches Ok(None)
    } else {
        match event_kind(event) {
            None => res matches Err(KickError::UnknownEventType(u)) && u@ == event,
            Some(kind) => match data_record(data) {
                Some(rec) => if exists|d: KickEventData| event_data_of(kind, rec, d) {
                    res matches Ok(Some(pm)) && pm.event_type == kind && event_data_of(kind, rec, pm.data)
                } else {
                    res matches Err(KickError::InvalidMessage(_))
                },
                None => res matches Err(KickError::InvalidMessage(_)),
            },
        }
    }
}

impl MessageParser {
    /// Map Kick event names to standard event types.
    pub fn map_kick_event_to_standard(event_name: &str) -> (res: Option<KickEventType>)
        ensures
            res == event_kind(event_name@),
    {
        if str_eq(event_name, "App\\Events\\ChatMessageEvent") {
            Some(KickEventType::ChatMessage)
        } else if str_eq(event_name, "App\\Events\\MessageDeletedEvent") {
            Some(KickEventType::MessageDeleted)
        } else if str_eq(event_name, "App\\Events\\UserBannedEvent") {
            Some(KickEventType::UserBanned)
        } else if str_eq(event_name, "App\\Events\\UserUnbannedEvent") {
            Some(KickEventType::UserUnbanned)
        } else if str_eq(event_name, "App\\Events\\SubscriptionEvent") {
            Some(KickEventType::Subscription)
        } else if str_eq(event_name, "App\\Events\\GiftedSubscriptionsEvent") {
            Some(KickEventType::GiftedSubscriptions)
        } else if str_eq(event_name, "App\\Events\\PinnedMessageCreatedEvent") {
            Some(KickEventType::PinnedMessageCreated)
        } else if str_eq(event_name, "App\\Events\\StreamHostEvent") {
            Some(KickEventType::StreamHost)
        } else if str_eq(event_name, "App\\Events\\PollUpdateEvent") {
            Some(KickEventType::PollUpdate)
        } else if str_eq(event_name, "App\\Events\\PollDeleteEvent") {
            Some(KickEventType::PollDelete)
        } else {
            None
        }
    }

    /// Clean emote codes from message content.
    pub fn clean_emotes(content: &str) -> (res: String)
        ensures
            res@ == spec_clean_emotes(content@),
    {
        clean_emotes(content)
    }

    /// Parse a raw WebSocket message and return the processed event; Pusher
    /// system events give `None`.
    pub fn parse_message(raw_message: &str) -> (res: Result<Option<ParsedMessage>, KickError>)
        ensures
            res matches Ok(Some(pm)) ==> parsed_event(raw_message@, pm),
            (exists|pm: ParsedMessage| parsed_event(raw_message@, pm)) ==> res matches Ok(Some(_)),
            seq_is_blank(raw_message@) ==> (res matches Err(KickError::InvalidMessage(m)) && m@ == "Empty message"@),
            !seq_is_blank(raw_message@) ==> match frame_of(raw_message@) {
                None => res matches Err(KickError::Json(_)),
                Some((event, data)) => frame_outcome(event, data, res),
            },
            res matches Ok(None) <==> (frame_of(raw_message@) matches Some((event, _)) && is_pusher_event(event)),
            res matches Ok(Some(pm)) ==> (frame_of(raw_message@) matches Some((event, _)) && event_kind(event) == Some(
                pm.event_type,
            ) && data_event_type(pm.data) == pm.event_type),
    {
        let decoded = decode_websocket_message(raw_message);
        if is_blank(raw_message) {
            return Err(KickError::InvalidMessage(String::from_str("Empty message")));
        }
        let message = decoded?;
        proof {
            reveal_strlit("pusher:");
            reveal_strlit("pusher_internal:");
            assert("pusher:"@.len() == 7 && "pusher_internal:"@.len() == 16);
        }
        Self::parse_websocket_message(message)
    }

    /// The event that a decoded frame carries; Pusher system events give
    /// `None`.
    pub fn parse_websocket_message(message: WebSocketMessage) -> (res: Result<Option<ParsedMessage>, KickError>)
        ensures
            frame_outcome(message.event@, message.data@, res),
    {
        if message.event.as_str().is_empty() {
            return Err(KickError::InvalidMessage(String::from_str("Empty event")));
        }
        if is_pusher_event_name(message.event.as_str()) {
            return Ok(None);
        }
        let kind = match Self::map_kick_event_to_standard(message.event.as_str()) {
            Some(k) => k,
            None => return Err(KickError::UnknownEventType(message.event)),
        };
        let (record, from_text) = extract_record(message.data)?;
        let data = decode_event_data(kind, &record, from_text)?;
        Ok(Some(ParsedMessage { event_type: kind, data }))
    }

    /// Whether a message is a frame with a non-empty event and non-null data.
    pub fn is_valid_message(message: &str) -> (res: bool)
        ensures
            res == (!seq_is_blank(message@) && (frame_of(message@) matches Some((event, data)) && event.len() > 0
                && !(data is Null))),
    {
        if is_blank(message) {
            return false;
        }
        match decode_websocket_message(message) {
            Ok(parsed) => !parsed.event.as_str().is_empty() && !parsed.data.is_null(),
            Err(_) => false,
        }
    }

    /// Whether a message is a Kick event (not a Pusher system event).
    pub fn is_kick_event(message: &str) -> (res: bool)
        ensures
            res == kick_frame(message@),
    {
        match decode_websocket_message(message) {
            Ok(parsed) => !is_pusher_event_name(parsed.event.as_str()) && !parsed.event.as_str().is_empty(),
            Err(_) => false,
        }
    }

    /// Extract the event name from a raw message.
    pub fn extract_event_type(raw_message: &str) -> (res: Result<String, KickError>)
        ensures
            res is Ok <==> kick_frame(raw_message@),
            res matches Ok(e) ==> (frame_of(raw_message@) matches Some((event, _)) && e@ == event),
            seq_is_blank(raw_message@) ==> (res matches Err(KickError::InvalidMessage(m)) && m@ == "Empty message"@),
            !seq_is_blank(raw_message@) ==> match frame_of(raw_message@) {
                None => res matches Err(KickError::Json(_)),
                Some((event, _)) => if event.len() == 0 {
                    res matches Err(KickError::InvalidMessage(m)) && m@ == "Empty event"@
                } else if is_pusher_event(event) {
                    res matches Err(KickError::InvalidMessage(m)) && m@ == "Pusher system event: "@ + event
                } else {
                    res matches Ok(e) && e@ == event
                },
            },
    {
        let decoded = decode_websocket_message(raw_message);
        if is_blank(raw_message) {
            return Err(KickError::InvalidMessage(String::from_str("Empty message")));
        }
        let message = decoded?;
        if message.event.as_str().is_empty() {
            return Err(KickError::InvalidMessage(String::from_str("Empty event")));
        }
        if is_pusher_event_name(message.event.as_str()) {
            return Err(KickError::InvalidMessage(prefixed("Pusher system event: ", message.event.as_str())));
        }
        Ok(message.event)
    }
}

/// The member of `n` that a path part selects: a member of an object by name,
/// an element of an array by decimal index.
pub open spec fn path_child(n: JsonNode, part: Seq<char>) -> Option<Seq<char>> {
    match n {
        JsonNode::Object(entries) => object_lookup(entries, part),
        JsonNode::Array(elems) => match spec_parse_usize(part) {
            Some(i) => if i < elems.len() {
                Some(elems[i as int])
            } else {
                None
            },
            None => None,
        },
        _ => None,
    }
}

/// The value reached from `n` by following `parts` one after another.
pub open spec fn navigate(n: JsonNode, parts: Seq<Seq<char>>) -> Option<JsonNode>
    decreases parts.len(),
{
    if parts.len() == 0 {
        Some(n)
    } else {
        match path_child(n, parts[0]) {
            Some(t) => match json_of(t) {
                Some(c) => navigate(c, parts.drop_first()),
                None => None,
            },
            None => None,
        }
    }
}

/// Extract a field from a `RawMessage` by a dot-separated path such as
/// `data.user.name`; array elements are selected by index.
pub fn extract_field(raw_message: &RawMessage, field_path: &str) -> (res: Option<JsonValue>)
    ensures
        opt_node(res) == match json_of(raw_message.raw_json@) {
            Some(root) => navigate(root, split_parts(field_path@, '.')),
            None => None,
        },
{
    let root = match parse_json(raw_message.raw_json.as_str()) {
        Ok(v) => v,
        Err(_) => return None,
    };
    let parts = split_char(field_path, '.');
    let ghost all = string_views(parts@);
    let ghost root_view = root@;
    let mut current = root;
    let mut i: usize = 0;
    assert(all.skip(0) =~= all);
    while i < parts.len()
        invariant
            all == string_views(parts@),
            all == split_parts(field_path@, '.'),
            json_of(raw_message.raw_json@) == Some(root_view),
            i <= parts.len(),
            navigate(root_view, all) == navigate(current@, all.skip(i as int)),
        decreases parts.len() - i,
    {
        let ghost rest = all.skip(i as int);
        assert(rest[0] == parts@[i as int]@);
        assert(rest.drop_first() =~= all.skip(i + 1));
        let part = parts[i].as_str();
        let child = match &current {
            JsonValue::Object(entries) => crate::json::lookup_entry(entries, part),
            JsonValue::Array(elems) => match parse_usize(part) {
                Some(index) => {
                    if index < elems.len() {
                        Some(elems[index].clone())
                    } else {
                        None
                    }
                },
                None => None,
            },
            _ => None,
        };
        assert(opt_view(child) == path_child(current@, rest[0]));
        let text = match child {
            Some(t) => t,
            None => return None,
        };
        current = match parse_json(text.as_str()) {
            Ok(v) => v,
            Err(_) => return None,
        };
        i = i + 1;
    }
    assert(all.skip(i as int).len() == 0);
    Some(current)
}

/// The Kick event name of each standard event type.
pub open spec fn kick_event_name(t: KickEventType) -> Seq<char> {
    match t {
        KickEventType::ChatMessage => "App\\Events\\ChatMessageEvent"@,
        KickEventType::MessageDeleted => "App\\Events\\MessageDeletedEvent"@,
        KickEventType::UserBanned => "App\\Events\\UserBannedEvent"@,
        KickEventType::UserUnbanned => "App\\Events\\UserUnbannedEvent"@,
        KickEventType::Subscription => "App\\Events\\SubscriptionEvent"@,
        KickEventType::GiftedSubscriptions => "App\\Events\\GiftedSubscriptionsEvent"@,
        KickEventType::PinnedMessageCreated => "App\\Events\\PinnedMessageCreatedEvent"@,
        KickEventType::StreamHost => "App\\Events\\StreamHostEvent"@,
        KickEventType::PollUpdate => "App\\Events\\PollUpdateEvent"@,
        KickEventType::PollDelete => "App\\Events\\PollDeleteEvent"@,
    }
}

/// Law: the event that `parse_message` returns always carries data of its
/// own type.
pub proof fn law_parsed_type_matches_data(raw: Seq<char>, pm: ParsedMessage)
    requires
        parsed_event(raw, pm),
    ensures
        data_event_type(pm.data) == pm.event_type,
{
}

/// Law: a name maps to a standard event type only if it is that type's Kick
/// event name, so the mapping is one to one.
pub proof fn law_event_name_determines_type(name: Seq<char>, t: KickEventType)
    requires
        event_kind(name) == Some(t),
    ensures
        name == kick_event_name(t),
{
}

/// Law: each standard event type's Kick event name maps back to it.
pub proof fn law_event_type_has_name(t: KickEventType)
    ensures
        event_kind(kick_event_name(t)) == Some(t),
{
    reveal_strlit("App\\Events\\ChatMessageEvent");
    reveal_strlit("App\\Events\\MessageDeletedEvent");
    reveal_strlit("App\\Events\\UserBannedEvent");
    reveal_strlit("App\\Events\\UserUnbannedEvent");
    reveal_strlit("App\\Events\\SubscriptionEvent");
    reveal_strlit("App\\Events\\GiftedSubscriptionsEvent");
    reveal_strlit("App\\Events\\PinnedMessageCreatedEvent");
    reveal_strlit("App\\Events\\StreamHostEvent");
    reveal_strlit("App\\Events\\PollUpdateEvent");
    reveal_strlit("App\\Events\\PollDeleteEvent");
    assert("App\\Events\\ChatMessageEvent"@.len() == 27 && "App\\Events\\ChatMessageEvent"@[11] == 'C' && "App\\Events\\ChatMessageEvent"@[15] == 'M');
    assert("App\\Events\\MessageDeletedEvent"@.len() == 30 && "App\\Events\\MessageDeletedEvent"@[11] == 'M' && "App\\Events\\MessageDeletedEvent"@[15] == 'a');
    assert("App\\Events\\UserBannedEvent"@.len() == 26 && "App\\Events\\UserBannedEvent"@[11] == 'U' && "App\\Events\\UserBannedEvent"@[15] == 'B');
    assert("App\\Events\\UserUnbannedEvent"@.len() == 28 && "App\\Events\\UserUnbannedEvent"@[11] == 'U' && "App\\Events\\UserUnbannedEvent"@[15] == 'U');
    assert("App\\Events\\SubscriptionEvent"@.len() == 28 && "App\\Events\\SubscriptionEvent"@[11] == 'S' && "App\\Events\\SubscriptionEvent"@[15] == 'c');
    assert("App\\Events\\GiftedSubscriptionsEvent"@.len() == 35 && "App\\Events\\GiftedSubscriptionsEvent"@[11] == 'G' && "App\\Events\\GiftedSubscriptionsEvent"@[15] == 'e');
    assert("App\\Events\\PinnedMessageCreatedEvent"@.len() == 36 && "App\\Events\\PinnedMessageCreatedEvent"@[11] == 'P' && "App\\Events\\PinnedMessageCreatedEvent"@[15] == 'e');
    assert("App\\Events\\StreamHostEvent"@.len() == 26 && "App\\Events\\StreamHostEvent"@[11] == 'S' && "App\\Events\\StreamHostEvent"@[15] == 'a');
    assert("App\\Events\\PollUpdateEvent"@.len() == 26 && "App\\Events\\PollUpdateEvent"@[11] == 'P' && "App\\Events\\PollUpdateEvent"@[15] == 'U');
    assert("App\\Events\\PollDeleteEvent"@.len() == 26 && "App\\Events\\PollDeleteEvent"@[11] == 'P' && "App\\Events\\PollDeleteEvent"@[15] == 'D');
}

/// Law: a Kick event is never a Pusher system event, so `parse_message`
/// never drops one as a system event.
pub proof fn law_kick_events_are_not_pusher_events(t: KickEventType)
    ensures
        !is_pusher_event(kick_event_name(t)),
{
    reveal_strlit("App\\Events\\ChatMessageEvent");
    reveal_strlit("App\\Events\\MessageDeletedEvent");
    reveal_strlit("App\\Events\\UserBannedEvent");
    reveal_strlit("App\\Events\\UserUnbannedEvent");
    reveal_strlit("App\\Events\\SubscriptionEvent");
    reveal_strlit("App\\Events\\GiftedSubscriptionsEvent");
    reveal_strlit("App\\Events\\PinnedMessageCreatedEvent");
    reveal_strlit("App\\Events\\StreamHostEvent");
    reveal_strlit("App\\Events\\PollUpdateEvent");
    reveal_strlit("App\\Events\\PollDeleteEvent");
    reveal_strlit("pusher:");
    reveal_strlit("pusher_internal:");
    let name = kick_event_name(t);
    assert(name[0] == 'A');
    assert("pusher:"@[0] == 'p');
    assert("pusher_internal:"@[0] == 'p');
    if seq_starts_with(name, "pusher:"@) {
        assert(name.subrange(0, 7)[0] == name[0]);
    }
    if seq_starts_with(name, "pusher_internal:"@) {
        assert(name.subrange(0, 16)[0] == name[0]);
    }
}

} // verus!
