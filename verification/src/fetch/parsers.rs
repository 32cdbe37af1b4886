//! Parsing channel data out of Kick API JSON responses and channel pages.

use vstd::prelude::*;
use crate::fetch::types::{ChannelInfo, UserInfo, ChatroomInfo, FetchError};
use crate::json::{
    JsonNode, JsonValue, json_of, json_parse, node_get, member_node, member_str, member_u64,
    member_bool, opt_view, parse_json, element_views,
};
use crate::pattern::{regex_compiles, regex_captures, regex_compile, regex_first_match, regex_new, group_views};
use crate::text::{spec_parse_u64, parse_u64, string_views};
use crate::types::prefixed;

verus! {

/// A present string, or the empty string.
pub open spec fn str_or_empty(o: Option<Seq<char>>) -> Seq<char> {
    match o {
        Some(s) => s,
        None => Seq::empty(),
    }
}

/// The strings among the values whose texts are `texts`, in order.
pub open spec fn strings_among(texts: Seq<Seq<char>>) -> Seq<Seq<char>>
    decreases texts.len(),
{
    if texts.len() == 0 {
        Seq::empty()
    } else {
        let prev = strings_among(texts.drop_last());
        match json_of(texts.last()) {
            Some(JsonNode::Str(s)) => prev.push(s),
            _ => prev,
        }
    }
}

/// `u` is the user described by the JSON object `n`.
pub open spec fn user_info_matches(n: JsonNode, u: UserInfo) -> bool {
    &&& member_u64(n, "id"@) == Some(u.id)
    &&& u.username@ == str_or_empty(member_str(n, "username"@))
    &&& opt_view(u.display_name) == member_str(n, "display_name"@)
    &&& opt_view(u.avatar_url) == member_str(n, "avatar_url"@)
    &&& opt_view(u.bio) == member_str(n, "bio"@)
    &&& opt_view(u.created_at) == member_str(n, "created_at"@)
}

/// `c` is the chatroom described by the JSON object `n`.
pub open spec fn chatroom_info_matches(n: JsonNode, c: ChatroomInfo) -> bool {
    &&& member_u64(n, "id"@) == Some(c.id)
    &&& c.channel_id == match member_u64(n, "channel_id"@) {
        Some(v) => v,
        None => 0,
    }
    &&& c.name@ == str_or_empty(member_str(n, "name"@))
    &&& opt_view(c.chatroom_type) == member_str(n, "type"@)
    &&& c.slow_mode == match member_u64(n, "slow_mode"@) {
        Some(v) => Some(v as u32),
        None => None,
    }
}

/// Member `key` of `n`, when present, is a value for which `ok` holds.
pub open spec fn nested_ok(n: JsonNode, key: Seq<char>, ok: spec_fn(JsonNode) -> bool) -> bool {
    match node_get(n, key) {
        Some(t) => match json_of(t) {
            Some(m) => ok(m),
            None => false,
        },
        None => true,
    }
}

/// A channel can be read from `n`: it has an id, and its user and chatroom,
/// when present, have ids.
pub open spec fn channel_info_ok(n: JsonNode) -> bool {
    &&& member_u64(n, "id"@) is Some
    &&& nested_ok(n, "user"@, |m: JsonNode| member_u64(m, "id"@) is Some)
    &&& nested_ok(n, "chatroom"@, |m: JsonNode| member_u64(m, "id"@) is Some)
}

/// `c` is the channel described by the JSON object `n`.
pub open spec fn channel_info_matches(n: JsonNode, c: ChannelInfo) -> bool {
    &&& member_u64(n, "id"@) == Some(c.id)
    &&& c.slug@ == str_or_empty(member_str(n, "slug"@))
    &&& opt_view(c.title) == member_str(n, "title"@)
    &&& c.followers_count == member_u64(n, "followers_count"@)
    &&& c.subscribers_count == member_u64(n, "subscribers_count"@)
    &&& c.is_live == match member_bool(n, "is_live"@) {
        Some(b) => b,
        None => false,
    }
    &&& c.viewers_count == member_u64(n, "viewers_count"@)
    &&& opt_view(c.category) == member_str(n, "category"@)
    &&& match member_node(n, "tags"@) {
        Some(JsonNode::Array(texts)) => c.tags matches Some(t) && string_views(t@) == strings_among(texts),
        _ => c.tags is None,
    }
    &&& opt_view(c.language) == member_str(n, "language"@)
    &&& match node_get(n, "user"@) {
        Some(t) => json_of(t) matches Some(m) && c.user matches Some(u) && user_info_matches(m, u),
        None => c.user is None,
    }
    &&& match node_get(n, "chatroom"@) {
        Some(t) => json_of(t) matches Some(m) && c.chatroom matches Some(r) && chatroom_info_matches(m, r),
        None => c.chatroom is None,
    }
}

/// Law: a chatroom read from a JSON object takes its id from the `id`
/// member and its channel id from the `channel_id` member (0 when absent),
/// and its name from `name` (empty when absent).
pub proof fn law_chatroom_fields(n: JsonNode, c: ChatroomInfo)
    requires
        chatroom_info_matches(n, c),
    ensures
        member_u64(n, "id"@) is Some && c.id == member_u64(n, "id"@).unwrap(),
        member_u64(n, "channel_id"@) is Some ==> c.channel_id == member_u64(n, "channel_id"@).unwrap(),
        member_u64(n, "channel_id"@) is None ==> c.channel_id == 0,
        member_str(n, "name"@) is Some ==> c.name@ == member_str(n, "name"@).unwrap(),
        member_str(n, "name"@) is None ==> c.name@.len() == 0,
{
}

/// Law: a channel read from a JSON object takes its id from the `id` member,
/// and its chatroom, when the object has one, is read from the `chatroom`
/// member: its id is that object's `id` and its channel id that object's
/// `channel_id` (0 when absent).
pub proof fn law_channel_chatroom(n: JsonNode, c: ChannelInfo)
    requires
        channel_info_matches(n, c),
    ensures
        member_u64(n, "id"@) == Some(c.id),
        node_get(n, "chatroom"@) is None ==> c.chatroom is None,
        member_node(n, "chatroom"@) matches Some(m) ==> (c.chatroom matches Some(r) && member_u64(m, "id"@) == Some(r.id)
            && r.channel_id == match member_u64(m, "channel_id"@) {
            Some(v) => v,
            None => 0,
        }),
{
    if let Some(m) = member_node(n, "chatroom"@) {
        law_chatroom_fields(m, c.chatroom.unwrap());
    }
}

/// The channel read from `n`: `Ok` exactly when it can be read, and
/// `InvalidResponse` otherwise.
pub open spec fn channel_result(n: JsonNode, res: Result<ChannelInfo, FetchError>) -> bool {
    match res {
        Ok(c) => channel_info_ok(n) && channel_info_matches(n, c),
        Err(e) => !channel_info_ok(n) && e is InvalidResponse,
    }
}

/// The strings among the values whose texts are `texts`.
fn collect_strings(texts: &Vec<String>) -> (res: Vec<String>)
    ensures
        string_views(res@) == strings_among(element_views(texts@)),
{
    let mut out: Vec<String> = Vec::new();
    let mut i: usize = 0;
    while i < texts.len()
        invariant
            i <= texts.len(),
            string_views(out@) == strings_among(element_views(texts@).take(i as int)),
        decreases texts.len() - i,
    {
        let ghost before = out@;
        assert(element_views(texts@).take(i + 1).drop_last() =~= element_views(texts@).take(i as int));
        assert(element_views(texts@).take(i + 1).last() == texts@[i as int]@);
        match parse_json(texts[i].as_str()) {
            Ok(JsonValue::String(s)) => {
                let ghost sv = s@;
                out.push(s);
                assert(string_views(out@) =~= string_views(before).push(sv));
            },
            _ => {
                assert(string_views(out@) =~= string_views(before));
            },
        }
        i = i + 1;
    }
    assert(element_views(texts@).take(texts@.len() as int) =~= element_views(texts@));
    out
}

/// Reads a user object.
pub fn parse_user_json(user_json: &JsonValue) -> (res: Result<UserInfo, FetchError>)
    ensures
        match res {
            Ok(u) => user_info_matches(user_json@, u),
            Err(e) => member_u64(user_json@, "id"@) is None && e is InvalidResponse,
        },
{
    let id = match user_json.member_u64("id") {
        Some(id) => id,
        None => return Err(FetchError::InvalidResponse),
    };
    let username = match user_json.member_str("username") {
        Some(s) => s,
        None => String::new(),
    };
    Ok(UserInfo {
        id,
        username,
        display_name: user_json.member_str("display_name"),
        avatar_url: user_json.member_str("avatar_url"),
        bio: user_json.member_str("bio"),
        created_at: user_json.member_str("created_at"),
    })
}

/// Reads a chatroom object.
pub fn parse_chatroom_json(chatroom_json: &JsonValue) -> (res: Result<ChatroomInfo, FetchError>)
    ensures
        match res {
            Ok(c) => chatroom_info_matches(chatroom_json@, c),
            Err(e) => member_u64(chatroom_json@, "id"@) is None && e is InvalidResponse,
        },
{
    let id = match chatroom_json.member_u64("id") {
        Some(id) => id,
        None => return Err(FetchError::InvalidResponse),
    };
    let channel_id = match chatroom_json.member_u64("channel_id") {
        Some(v) => v,
        None => 0,
    };
    let name = match chatroom_json.member_str("name") {
        Some(s) => s,
        None => String::new(),
    };
    let slow_mode = match chatroom_json.member_u64("slow_mode") {
        Some(v) => Some(v as u32),
        None => None,
    };
    Ok(ChatroomInfo { id, channel_id, name, chatroom_type: chatroom_json.member_str("type"), slow_mode })
}

/// Reads a channel object.
pub fn parse_channel_json(json: &JsonValue) -> (res: Result<ChannelInfo, FetchError>)
    ensures
        channel_result(json@, res),
{
    let id = match json.member_u64("id") {
        Some(id) => id,
        None => return Err(FetchError::InvalidResponse),
    };
    let slug = match json.member_str("slug") {
        Some(s) => s,
        None => String::new(),
    };
    let user = match json.get("user") {
        Some(t) => match parse_json(t.as_str()) {
            Ok(u) => match parse_user_json(&u) {
                Ok(info) => Some(info),
                Err(e) => return Err(e),
            },
            Err(_) => return Err(FetchError::InvalidResponse),
        },
        None => None,
    };
    let chatroom = match json.get("chatroom") {
        Some(t) => match parse_json(t.as_str()) {
            Ok(c) => match parse_chatroom_json(&c) {
                Ok(info) => Some(info),
                Err(e) => return Err(e),
            },
            Err(_) => return Err(FetchError::InvalidResponse),
        },
        None => None,
    };
    let is_live = match json.member_bool("is_live") {
        Some(b) => b,
        None => false,
    };
    let tags = match json.member("tags") {
        Some(JsonValue::Array(texts)) => Some(collect_strings(&texts)),
        _ => None,
    };
    Ok(ChannelInfo {
        id,
        slug,
        title: json.member_str("title"),
        followers_count: json.member_u64("followers_count"),
        subscribers_count: json.member_u64("subscribers_count"),
        is_live,
        viewers_count: json.member_u64("viewers_count"),
        category: json.member_str("category"),
        tags,
        language: json.member_str("language"),
        user,
        chatroom,
    })
}

/// The channel object of an API response: its `data` member if it has one,
/// else the response itself if it has an `id`.
pub open spec fn response_channel(root: JsonNode) -> Option<JsonNode> {
    match node_get(root, "data"@) {
        Some(t) => json_of(t),
        None => if node_get(root, "id"@) is Some {
            Some(root)
        } else {
            None
        },
    }
}

/// The `id` of member `key` of `root`.
pub open spec fn nested_id(root: JsonNode, key: Seq<char>) -> Option<u64> {
    match member_node(root, key) {
        Some(d) => member_u64(d, "id"@),
        None => None,
    }
}

/// JSON parser for API responses.
pub struct JsonParser;

impl JsonParser {
    /// Parse channel information from a Kick API JSON response.
    pub fn parse_channel_response(json_str: &str) -> (res: Result<ChannelInfo, FetchError>)
        ensures
            match json_parse(json_str@) {
                Err(t) => res matches Err(FetchError::Json(m)) && m@ == "Failed to parse JSON: "@ + t,
                Ok(root) => match response_channel(root) {
                    Some(n) => channel_result(n, res),
                    None => res matches Err(FetchError::InvalidResponse),
                },
            },
    {
        let json = match parse_json(json_str) {
            Ok(v) => v,
            Err(t) => return Err(FetchError::Json(prefixed("Failed to parse JSON: ", t.as_str()))),
        };
        match json.get("data") {
            Some(t) => match parse_json(t.as_str()) {
                Ok(data) => parse_channel_json(&data),
                Err(_) => Err(FetchError::InvalidResponse),
            },
            None => {
                if json.get("id").is_some() {
                    parse_channel_json(&json)
                } else {
                    Err(FetchError::InvalidResponse)
                }
            },
        }
    }

    /// Extract the channel ID from a response: the `id` member, else the `id`
    /// of its `data` member, else the `id` of its `channel` member.
    pub fn extract_channel_id(json_str: &str) -> (res: Result<u64, FetchError>)
        ensures
            match json_parse(json_str@) {
                Err(t) => res matches Err(FetchError::Json(m)) && m@ == "Failed to parse JSON: "@ + t,
                Ok(root) => if member_u64(root, "id"@) is Some {
                    res == Ok::<u64, FetchError>(member_u64(root, "id"@).unwrap())
                } else if nested_id(root, "data"@) is Some {
                    res == Ok::<u64, FetchError>(nested_id(root, "data"@).unwrap())
                } else if nested_id(root, "channel"@) is Some {
                    res == Ok::<u64, FetchError>(nested_id(root, "channel"@).unwrap())
                } else {
                    res matches Err(FetchError::InvalidResponse)
                },
            },
    {
        let json = match parse_json(json_str) {
            Ok(v) => v,
            Err(t) => return Err(FetchError::Json(prefixed("Failed to parse JSON: ", t.as_str()))),
        };
        if let Some(id) = json.member_u64("id") {
            return Ok(id);
        }
        if let Some(data) = json.member("data") {
            if let Some(id) = data.member_u64("id") {
                return Ok(id);
            }
        }
        if let Some(channel) = json.member("channel") {
            if let Some(id) = channel.member_u64("id") {
                return Ok(id);
            }
        }
        Err(FetchError::InvalidResponse)
    }
}

/// The groups of the first match of `pattern` in `haystack`; nothing when the
/// pattern does not compile or does not match.
pub open spec fn first_match(pattern: Seq<char>, haystack: Seq<char>) -> Option<Seq<Option<Seq<char>>>> {
    if regex_compiles(pattern) {
        regex_captures(pattern, haystack)
    } else {
        None
    }
}

/// Group `i` of a match, if the match exists and the group took part in it.
pub open spec fn group(m: Option<Seq<Option<Seq<char>>>>, i: int) -> Option<Seq<char>> {
    match m {
        Some(groups) => if 0 <= i < groups.len() {
            groups[i]
        } else {
            None
        },
        None => None,
    }
}

/// The groups of the first match of `pattern` in `haystack`.
fn first_match_groups(pattern: &str, haystack: &str) -> (res: Option<Vec<Option<String>>>)
    ensures
        match res {
            Some(g) => first_match(pattern@, haystack@) == Some(group_views(g@)),
            None => first_match(pattern@, haystack@) is None,
        },
{
    match regex_first_match(pattern, haystack) {
        Ok(m) => m,
        Err(_) => None,
    }
}

/// Group `i` of a match.
fn group_of(m: &Option<Vec<Option<String>>>, i: usize) -> (res: Option<String>)
    ensures
        opt_view(res) == group(
            match m {
                Some(g) => Some(group_views(g@)),
                None => None,
            },
            i as int,
        ),
{
    match m {
        Some(groups) => {
            if i < groups.len() {
                match &groups[i] {
                    Some(s) => Some(s.clone()),
                    None => None,
                }
            } else {
                None
            }
        },
        None => None,
    }
}

/// The element at `index` of an array, parsed.
pub open spec fn index_node(n: JsonNode, index: int) -> Option<JsonNode> {
    match n {
        JsonNode::Array(elems) => if 0 <= index < elems.len() {
            json_of(elems[index])
        } else {
            None
        },
        _ => None,
    }
}

/// The text of the `channel` member of the first member value that has one.
pub open spec fn first_channel_in(entries: Seq<(Seq<char>, Seq<char>)>) -> Option<Seq<char>>
    decreases entries.len(),
{
    if entries.len() == 0 {
        None
    } else {
        match json_of(entries[0].1) {
            Some(v) => match node_get(v, "channel"@) {
                Some(t) => Some(t),
                None => first_channel_in(entries.drop_first()),
            },
            None => first_channel_in(entries.drop_first()),
        }
    }
}

/// Where a Nuxt state keeps the channel: `data[0].channel`, else the
/// `channel` of the first store under `pinia` that has one.
pub open spec fn nuxt_channel_text(nuxt: JsonNode) -> Option<Seq<char>> {
    let first = match member_node(nuxt, "data"@) {
        Some(d) => match index_node(d, 0) {
            Some(cd) => node_get(cd, "channel"@),
            None => None,
        },
        None => None,
    };
    if first is Some {
        first
    } else {
        match member_node(nuxt, "pinia"@) {
            Some(JsonNode::Object(entries)) => first_channel_in(entries),
            _ => None,
        }
    }
}

/// The channel object found in the Nuxt state embedded in a page.
pub open spec fn nuxt_channel(json_pattern: Seq<char>, html: Seq<char>) -> Option<JsonNode> {
    match group(first_match(json_pattern, html), 1) {
        Some(state) => match json_of(state) {
            Some(nuxt) => match nuxt_channel_text(nuxt) {
                Some(t) => json_of(t),
                None => None,
            },
            None => None,
        },
        None => None,
    }
}

/// The value of a decimal capture, or 0.
pub open spec fn id_or_zero(g: Option<Seq<char>>) -> u64 {
    match g {
        Some(t) => match spec_parse_u64(t) {
            Some(v) => v,
            None => 0,
        },
        None => 0,
    }
}

/// HTML parser for extracting channel data from web pages.
pub struct HtmlParser {
    channel_regex: String,
    user_regex: String,
    chatroom_regex: String,
    json_regex: String,
}

/// The channel read from a page with regular expressions alone.
pub open spec fn regex_channel_matches(
    patterns: (Seq<char>, Seq<char>, Seq<char>, Seq<char>),
    html: Seq<char>,
    res: Result<ChannelInfo, FetchError>,
) -> bool {
    let ch = first_match(patterns.0, html);
    let us = first_match(patterns.1, html);
    let cr = first_match(patterns.2, html);
    let has_channel = group(ch, 1) is Some && group(ch, 2) is Some;
    let id = if has_channel { id_or_zero(group(ch, 1)) } else { 0 };
    if id == 0 {
        res matches Err(FetchError::ChannelNotFound(m)) && m@ == "Could not extract channel ID"@
    } else {
        res matches Ok(c) && {
            &&& c.id == id
            &&& c.slug@ == group(ch, 2).unwrap()
            &&& c.title is None && c.followers_count is None && c.subscribers_count is None
            &&& !c.is_live && c.viewers_count is None && c.category is None && c.tags is None
            &&& c.language is None
            &&& if group(us, 1) is Some && group(us, 2) is Some {
                c.user matches Some(u) && u.id == id_or_zero(group(us, 1)) && u.username@ == group(us, 2).unwrap()
                    && opt_view(u.display_name) == group(us, 3) && u.avatar_url is None && u.bio is None
                    && u.created_at is None
            } else {
                c.user is None
            }
            &&& if group(cr, 1) is Some && group(cr, 2) is Some && group(cr, 3) is Some {
                c.chatroom matches Some(r) && r.id == id_or_zero(group(cr, 1)) && r.channel_id == id_or_zero(
                    group(cr, 2),
                ) && r.name@ == group(cr, 3).unwrap() && r.chatroom_type is None && r.slow_mode is None
            } else {
                c.chatroom is None
            }
        }
    }
}

/// The value of a decimal capture, or 0.
fn id_or_zero_of(g: &Option<String>) -> (res: u64)
    ensures
        res == id_or_zero(opt_view(*g)),
{
    match g {
        Some(t) => match parse_u64(t.as_str()) {
            Some(v) => v,
            None => 0,
        },
        None => 0,
    }
}

impl HtmlParser {
    /// The pattern that finds a channel's id and slug.
    pub open spec fn channel_pattern() -> Seq<char> {
        "\"id\":(\\d+),\"slug\":\"([^\"]+)\""@
    }

    /// The pattern that finds a user's id, name and display name.
    pub open spec fn user_pattern() -> Seq<char> {
        "\"id\":(\\d+),\"username\":\"([^\"]+)\",\"display_name\":\"([^\"]*)\""@
    }

    /// The pattern that finds a chatroom's id, channel id and name.
    pub open spec fn chatroom_pattern() -> Seq<char> {
        "\"chatroom\":\\{\"id\":(\\d+),\"channel_id\":(\\d+),\"name\":\"([^\"]+)\""@
    }

    /// The pattern that finds the Nuxt state of a page.
    pub open spec fn nuxt_pattern() -> Seq<char> {
        "<script[^>]*>window\\.__NUXT__\\s*=\\s*({.*?});?</script>"@
    }

    /// The patterns the parser matches with: channel, user, chatroom, Nuxt state.
    pub closed spec fn patterns(&self) -> (Seq<char>, Seq<char>, Seq<char>, Seq<char>) {
        (self.channel_regex@, self.user_regex@, self.chatroom_regex@, self.json_regex@)
    }

    /// Create a new HTML parser, after checking that its patterns compile.
    pub fn new() -> (res: Result<Self, FetchError>)
        ensures
            match regex_new(Self::channel_pattern()) {
                Err(t) => res matches Err(FetchError::Json(m)) && m@ == "Failed to compile channel regex: "@ + t,
                Ok(_) => match regex_new(Self::user_pattern()) {
                    Err(t) => res matches Err(FetchError::Json(m)) && m@ == "Failed to compile user regex: "@ + t,
                    Ok(_) => match regex_new(Self::chatroom_pattern()) {
                        Err(t) => res matches Err(FetchError::Json(m)) && m@ == "Failed to compile chatroom regex: "@ + t,
                        Ok(_) => match regex_new(Self::nuxt_pattern()) {
                            Err(t) => res matches Err(FetchError::Json(m)) && m@ == "Failed to compile JSON regex: "@ + t,
                            Ok(_) => res matches Ok(p) && p.patterns() == (
                                Self::channel_pattern(),
                                Self::user_pattern(),
                                Self::chatroom_pattern(),
                                Self::nuxt_pattern(),
                            ),
                        },
                    },
                },
            },
    {
        let channel_regex = String::from_str("\"id\":(\\d+),\"slug\":\"([^\"]+)\"");
        if let Err(t) = regex_compile(channel_regex.as_str()) {
            return Err(FetchError::Json(prefixed("Failed to compile channel regex: ", t.as_str())));
        }
        let user_regex = String::from_str("\"id\":(\\d+),\"username\":\"([^\"]+)\",\"display_name\":\"([^\"]*)\"");
        if let Err(t) = regex_compile(user_regex.as_str()) {
            return Err(FetchError::Json(prefixed("Failed to compile user regex: ", t.as_str())));
        }
        let chatroom_regex = String::from_str("\"chatroom\":\\{\"id\":(\\d+),\"channel_id\":(\\d+),\"name\":\"([^\"]+)\"");
        if let Err(t) = regex_compile(chatroom_regex.as_str()) {
            return Err(FetchError::Json(prefixed("Failed to compile chatroom regex: ", t.as_str())));
        }
        let json_regex = String::from_str("<script[^>]*>window\\.__NUXT__\\s*=\\s*({.*?});?</script>");
        if let Err(t) = regex_compile(json_regex.as_str()) {
            return Err(FetchError::Json(prefixed("Failed to compile JSON regex: ", t.as_str())));
        }
        Ok(HtmlParser { channel_regex, user_regex, chatroom_regex, json_regex })
    }

    /// state when that yields a channel, else with regular expressions.
    pub fn parse_channel_from_html(&self, html: &str) -> (res: Result<ChannelInfo, FetchError>)
        ensures
            match nuxt_channel(self.patterns().3, html@) {
                Some(n) if channel_info_ok(n) => channel_result(n, res),
                _ => regex_channel_matches(self.patterns(), html@, res),
            },
    {
        match self.extract_from_nuxt_state(html) {
            Some(Ok(channel)) => Ok(channel),
            _ => self.extract_with_regex(html),
        }
    }

    /// The channel read from the Nuxt state of a page, if the page has one
    /// where a channel object is kept.
    fn extract_from_nuxt_state(&self, html: &str) -> (res: Option<Result<ChannelInfo, FetchError>>)
        ensures
            match res {
                Some(r) => nuxt_channel(self.patterns().3, html@) matches Some(n) && channel_result(n, r),
                None => nuxt_channel(self.patterns().3, html@) is None,
            },
    {
        let m = first_match_groups(self.json_regex.as_str(), html);
        let state = group_of(&m, 1)?;
        let nuxt = match parse_json(state.as_str()) {
            Ok(v) => v,
            Err(_) => return None,
        };
        let text = Self::nuxt_channel_text_of(&nuxt)?;
        match parse_json(text.as_str()) {
            Ok(channel) => Some(parse_channel_json(&channel)),
            Err(_) => None,
        }
    }

    /// Where the Nuxt state `nuxt` keeps the channel.
    fn nuxt_channel_text_of(nuxt: &JsonValue) -> (res: Option<String>)
        ensures
            opt_view(res) == nuxt_channel_text(nuxt@),
    {
        if let Some(data) = nuxt.member("data") {
            if let Some(t) = data.get_index(0) {
                if let Ok(channel_data) = parse_json(t.as_str()) {
                    if let Some(c) = channel_data.get("channel") {
                        return Some(c);
                    }
                }
            }
        }
        match nuxt.member("pinia") {
            Some(JsonValue::Object(entries)) => {
                let mut i: usize = 0;
                assert(crate::json::entry_views(entries@).skip(0) =~= crate::json::entry_views(entries@));
                assert(nuxt_channel_text(nuxt@) == first_channel_in(crate::json::entry_views(entries@)));
                while i < entries.len()
                    invariant
                        i <= entries@.len(),
                        nuxt_channel_text(nuxt@) == first_channel_in(crate::json::entry_views(entries@)),
                        first_channel_in(crate::json::entry_views(entries@)) == first_channel_in(
                            crate::json::entry_views(entries@).skip(i as int),
                        ),
                    decreases entries.len() - i,
                {
                    let ghost rest = crate::json::entry_views(entries@).skip(i as int);
                    assert(rest.drop_first() =~= crate::json::entry_views(entries@).skip(i + 1));
                    assert(rest[0].1 == entries@[i as int].1@);
                    if let Ok(value) = parse_json(entries[i].1.as_str()) {
                        if let Some(c) = value.get("channel") {
                            return Some(c);
                        }
                    }
                    i = i + 1;
                }
                None
            },
            _ => None,
        }
    }

    /// Extract channel information using regular expressions alone.
    fn extract_with_regex(&self, html: &str) -> (res: Result<ChannelInfo, FetchError>)
        ensures
            regex_channel_matches(self.patterns(), html@, res),
    {
        let ch = first_match_groups(self.channel_regex.as_str(), html);
        let mut id: u64 = 0;
        let mut slug = String::new();
        if let (Some(i), Some(s)) = (group_of(&ch, 1), group_of(&ch, 2)) {
            id = id_or_zero_of(&Some(i));
            slug = s;
        }
        let us = first_match_groups(self.user_regex.as_str(), html);
        let user = if let (Some(i), Some(name)) = (group_of(&us, 1), group_of(&us, 2)) {
            Some(UserInfo {
                id: id_or_zero_of(&Some(i)),
                username: name,
                display_name: group_of(&us, 3),
                avatar_url: None,
                bio: None,
                created_at: None,
            })
        } else {
            None
        };
        let cr = first_match_groups(self.chatroom_regex.as_str(), html);
        let chatroom = if let (Some(i), Some(c), Some(name)) = (group_of(&cr, 1), group_of(&cr, 2), group_of(&cr, 3)) {
            Some(ChatroomInfo {
                id: id_or_zero_of(&Some(i)),
                channel_id: id_or_zero_of(&Some(c)),
                name,
                chatroom_type: None,
                slow_mode: None,
            })
        } else {
            None
        };
        if id == 0 {
            return Err(FetchError::ChannelNotFound(String::from_str("Could not extract channel ID")));
        }
        Ok(ChannelInfo {
            id,
            slug,
            title: None,
            followers_count: None,
            subscribers_count: None,
            is_live: false,
            viewers_count: None,
            category: None,
            tags: None,
            language: None,
            user,
            chatroom,
        })
    }
}

impl Default for HtmlParser {
    /// The parser with its usual patterns, or with simpler ones if those do
    /// not compile.
    fn default() -> (res: Self)
        ensures
            res.patterns() == if regex_compiles(HtmlParser::channel_pattern()) && regex_compiles(HtmlParser::user_pattern())
                && regex_compiles(HtmlParser::chatroom_pattern()) && regex_compiles(HtmlParser::nuxt_pattern()) {
                (HtmlParser::channel_pattern(), HtmlParser::user_pattern(), HtmlParser::chatroom_pattern(), HtmlParser::nuxt_pattern())
            } else {
                ("\"id\":(\\d+)"@, "\"username\":\"([^\"]+)\""@, "\"chatroom\":\\{\"id\":(\\d+)"@, "window\\.__NUXT__"@)
            },
    {
        match Self::new() {
            Ok(p) => p,
            Err(_) => HtmlParser {
                channel_regex: String::from_str("\"id\":(\\d+)"),
                user_regex: String::from_str("\"username\":\"([^\"]+)\""),
                chatroom_regex: String::from_str("\"chatroom\":\\{\"id\":(\\d+)"),
                json_regex: String::from_str("window\\.__NUXT__"),
            },
        }
    }
}

} // verus!
