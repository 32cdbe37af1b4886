//! The decisions of the Kick chat WebSocket client: the raw message buffer,
//! the Pusher session that handles each received frame, the connection
//! settings, the WebSocket URL and the headers of the opening request.

use vstd::prelude::*;
use std::collections::VecDeque;
use crate::fetch::useragent::{
    user_agent_list, get_rotating_user_agent, generate_browser_fingerprint, spec_sec_ch_ua,
    spec_platform,
};
use crate::json::{JsonNode, json_of, member_str, node_get, opt_view, parse_json};
use crate::message_parser::{event_kind, law_parsed_type_matches_data, parsed_event, MessageParser};
use crate::text::{decimal, str_eq, string_views, u64_to_decimal};
use crate::types::{
    data_event_type, BufferStats, ConnectionState, KickError, KickEventData, KickEventType, KickWebSocketOptions,
    RawMessage, ParsedMessage,
};

verus! {

/// The name of the event of a raw frame: the `event` member of the JSON
/// object, when it is a string.
pub open spec fn raw_event_name(m: Seq<char>) -> Option<Seq<char>> {
    match json_of(m) {
        Some(n) => member_str(n, "event"@),
        None => None,
    }
}

/// The standard event type of a raw frame.
pub open spec fn raw_event_kind(m: Seq<char>) -> Option<KickEventType> {
    match raw_event_name(m) {
        Some(e) => event_kind(e),
        None => None,
    }
}

/// The buffer after `text` arrives: when it already holds `capacity` frames
/// or more, the oldest leaves first.
pub open spec fn buffer_push(b: Seq<Seq<char>>, text: Seq<char>, capacity: nat) -> Seq<Seq<char>> {
    if b.len() >= capacity && b.len() > 0 {
        b.drop_first().push(text)
    } else {
        b.push(text)
    }
}

/// The buffer after the frames `texts` arrive in order, starting from `b`.
pub open spec fn buffer_after(b: Seq<Seq<char>>, texts: Seq<Seq<char>>, capacity: nat) -> Seq<Seq<char>>
    decreases texts.len(),
{
    if texts.len() == 0 {
        b
    } else {
        buffer_push(buffer_after(b, texts.drop_last(), capacity), texts.last(), capacity)
    }
}

/// Law: with a positive capacity `n`, a buffer that starts empty holds, after
/// any run of frames, the last `n` of them (all of them while there are
/// fewer), oldest first; so it never holds more than `n`.
pub proof fn law_buffer_keeps_last_frames(texts: Seq<Seq<char>>, capacity: nat)
    requires
        0 < capacity,
    ensures
        buffer_after(Seq::empty(), texts, capacity) == texts.subrange(
            if texts.len() > capacity { texts.len() - capacity } else { 0 },
            texts.len() as int,
        ),
        buffer_after(Seq::empty(), texts, capacity).len() <= capacity,
    decreases texts.len(),
{
    if texts.len() > 0 {
        let rest = texts.drop_last();
        law_buffer_keeps_last_frames(rest, capacity);
        let lo: int = if rest.len() > capacity { rest.len() - capacity } else { 0 };
        let prev = buffer_after(Seq::empty(), rest, capacity);
        assert(prev == rest.subrange(lo, rest.len() as int));
        if prev.len() >= capacity && prev.len() > 0 {
            assert(prev.drop_first().push(texts.last()) =~= texts.subrange(texts.len() - capacity, texts.len() as int));
        } else {
            assert(prev.push(texts.last()) =~= texts.subrange(0, texts.len() as int));
        }
    } else {
        assert(texts.subrange(0, 0) =~= Seq::<Seq<char>>::empty());
    }
}

/// The name of the event of a raw frame.
pub fn raw_event_name_of(m: &str) -> (res: Option<String>)
    ensures
        opt_view(res) == raw_event_name(m@),
{
    match parse_json(m) {
        Ok(n) => n.member_str("event"),
        Err(_) => None,
    }
}

/// The raw frames received, oldest first.
pub struct MessageBuffer {
    messages: VecDeque<String>,
}

impl View for MessageBuffer {
    type V = Seq<Seq<char>>;

    closed spec fn view(&self) -> Seq<Seq<char>> {
        self.messages@.map_values(|s: String| s@)
    }
}

impl MessageBuffer {
    /// An empty buffer.
    pub fn new() -> (res: Self)
        ensures
            res@ == Seq::<Seq<char>>::empty(),
    {
        let res = MessageBuffer { messages: VecDeque::new() };
        assert(res@ =~= Seq::<Seq<char>>::empty());
        res
    }

    /// The number of frames held.
    pub fn len(&self) -> (res: usize)
        ensures
            res == self@.len(),
    {
        self.messages.len()
    }

    /// Adds a received frame, dropping the oldest when the buffer already
    /// holds `capacity` frames or more.
    pub fn push(&mut self, text: String, capacity: usize)
        ensures
            final(self)@ == buffer_push(old(self)@, text@, capacity as nat),
    {
        let ghost before = self.messages@;
        if self.messages.len() >= capacity {
            let _ = self.messages.pop_front();
        }
        let ghost mid = self.messages@;
        self.messages.push_back(text);
        proof {
            if before.len() >= capacity && before.len() > 0 {
                assert(mid =~= before.drop_first());
                assert(self@ =~= before.map_values(|s: String| s@).drop_first().push(text@));
            } else {
                assert(mid =~= before);
                assert(self@ =~= before.map_values(|s: String| s@).push(text@));
            }
        }
    }

    /// All frames, oldest first.
    pub fn export_raw_messages(&self) -> (res: Vec<String>)
        ensures
            string_views(res@) == self@,
    {
        let mut out: Vec<String> = Vec::new();
        let mut i: usize = 0;
        while i < self.messages.len()
            invariant
                i <= self.messages@.len(),
                out@.len() == i,
                string_views(out@) == self@.take(i as int),
            decreases self.messages.len() - i,
        {
            let s = self.messages[i].clone();
            assert(self@[i as int] == self.messages@[i as int]@);
            assert(s@ == self.messages@[i as int]@);
            assert(self@.len() == self.messages@.len());
            out.push(s);
            i = i + 1;
            assert(string_views(out@) =~= self@.take(i as int));
        }
        assert(self@.take(i as int) =~= self@);
        out
    }

    /// The frames whose event maps to `event_type`, oldest first.
    pub fn export_raw_messages_by_event_type(&self, event_type: KickEventType) -> (res: Vec<String>)
        ensures
            string_views(res@) == self@.filter(|m: Seq<char>| raw_event_kind(m) == Some(event_type)),
    {
        let ghost pred = |m: Seq<char>| raw_event_kind(m) == Some(event_type);
        let mut out: Vec<String> = Vec::new();
        let mut i: usize = 0;
        while i < self.messages.len()
            invariant
                i <= self.messages@.len(),
                string_views(out@) == self@.take(i as int).filter(pred),
                pred == (|m: Seq<char>| raw_event_kind(m) == Some(event_type)),
            decreases self.messages.len() - i,
        {
            reveal_with_fuel(Seq::filter, 1);
            let ghost before = out@;
            let m = &self.messages[i];
            assert(self@.take(i + 1).drop_last() =~= self@.take(i as int));
            assert(self@.take(i + 1).last() == m@);
            let keep = match raw_event_name_of(m.as_str()) {
                Some(e) => MessageParser::map_kick_event_to_standard(e.as_str()) == Some(event_type),
                None => false,
            };
            if keep {
                out.push(m.clone());
                assert(string_views(out@) =~= string_views(before).push(m@));
            }
            i = i + 1;
        }
        assert(self@.take(i as int) =~= self@);
        out
    }

    /// The frames from `start_index` up to `end_index` (exclusive; all the
    /// rest when absent), as far as the buffer reaches.
    pub fn export_raw_messages_in_range(&self, start_index: usize, end_index: Option<usize>) -> (res: Vec<String>)
        requires
            start_index <= match end_index {
                Some(e) => e as int,
                None => self@.len() as int,
            },
        ensures
            ({
                let len = self@.len() as int;
                let end = match end_index {
                    Some(e) => e as int,
                    None => len,
                };
                let lo = if start_index <= len { start_index as int } else { len };
                let hi = if end <= len { end } else { len };
                string_views(res@) == self@.subrange(lo, hi)
            }),
    {
        let len = self.messages.len();
        let end = match end_index {
            Some(e) => e,
            None => len,
        };
        let lo = if start_index <= len { start_index } else { len };
        let hi = if end <= len { end } else { len };
        let mut out: Vec<String> = Vec::new();
        let mut i: usize = lo;
        while i < hi
            invariant
                lo <= i <= hi,
                out@.len() == i - lo,
                hi <= self@.len(),
                len == self@.len(),
                string_views(out@) == self@.subrange(lo as int, i as int),
            decreases hi - i,
        {
            let s = self.messages[i].clone();
            assert(self@[i as int] == self.messages@[i as int]@);
            out.push(s);
            i = i + 1;
            assert(string_views(out@) =~= self@.subrange(lo as int, i as int));
        }
        out
    }

    /// Removes the frames whose event maps to `event_type`.
    pub fn clear_raw_messages_by_event_type(&mut self, event_type: KickEventType) -> (res: Result<(), KickError>)
        ensures
            res is Ok,
            final(self)@ == old(self)@.filter(|m: Seq<char>| raw_event_kind(m) != Some(event_type)),
    {
        let ghost pred = |m: Seq<char>| raw_event_kind(m) != Some(event_type);
        let ghost start = self@;
        let mut kept: VecDeque<String> = VecDeque::new();
        let mut i: usize = 0;
        while i < self.messages.len()
            invariant
                i <= self.messages@.len(),
                self@ == start,
                kept@.map_values(|s: String| s@) == start.take(i as int).filter(pred),
                pred == (|m: Seq<char>| raw_event_kind(m) != Some(event_type)),
            decreases self.messages.len() - i,
        {
            reveal_with_fuel(Seq::filter, 1);
            let ghost before = kept@;
            let m = &self.messages[i];
            assert(start.take(i + 1).drop_last() =~= start.take(i as int));
            assert(start.take(i + 1).last() == m@);
            let cleared = match raw_event_name_of(m.as_str()) {
                Some(e) => MessageParser::map_kick_event_to_standard(e.as_str()) == Some(event_type),
                None => false,
            };
            if !cleared {
                kept.push_back(m.clone());
                assert(kept@.map_values(|s: String| s@) =~= before.map_values(|s: String| s@).push(m@));
            }
            i = i + 1;
        }
        assert(start.take(i as int) =~= start);
        self.messages = kept;
        Ok(())
    }

    /// Statistics of the buffer: the number of frames it holds.
    pub fn get_buffer_stats(&self) -> (res: BufferStats)
        ensures
            res.total == self@.len(),
            res.by_type@.len() == 0,
            res.oldest_timestamp is None,
            res.newest_timestamp is None,
    {
        BufferStats { total: self.messages.len(), by_type: Vec::new(), oldest_timestamp: None, newest_timestamp: None }
    }
}

/// Law: with a positive capacity, a buffer that holds no more frames than
/// its capacity still does after a push.
pub proof fn law_buffer_within_capacity(b: Seq<Seq<char>>, text: Seq<char>, capacity: nat)
    requires
        0 < capacity,
        b.len() <= capacity,
    ensures
        buffer_push(b, text, capacity).len() <= capacity,
{
}

/// Law: a push keeps the newest frames in arrival order: the buffer after a
/// push is a suffix of the old frames followed by the new one, and ends with
/// the new one.
pub proof fn law_buffer_keeps_newest(b: Seq<Seq<char>>, text: Seq<char>, capacity: nat)
    ensures
        ({
            let after = buffer_push(b, text, capacity);
            let all = b.push(text);
            &&& after.len() <= all.len()
            &&& after.last() == text
            &&& forall|j: int| 0 <= j < after.len() ==> #[trigger] after[j] == all[all.len() - after.len() + j]
        }),
{
}

/// A frame received from the WebSocket, or how the stream ended.
#[derive(Debug)]
pub enum IncomingFrame {
    /// A text frame.
    Text(String),
    /// A ping with its payload.
    Ping(Vec<u8>),
    /// A close frame.
    Close,
    /// The stream failed, with the error's message.
    Failure(String),
    /// The stream ended.
    End,
    /// Any other frame (binary, pong, raw).
    Other,
}

/// What the client does in response to a frame, in order.
#[derive(Debug)]
pub enum SessionAction {
    /// Send this text frame; if sending fails, the session ends.
    SendText(String),
    /// Set the connection state.
    SetState(ConnectionState),
    /// Call the ready handlers.
    EmitReady,
    /// Call the raw message handlers.
    EmitRaw(RawMessage),
    /// Call the handlers of this event.
    Dispatch(KickEventData),
    /// Call the error handlers.
    EmitError(KickError),
    /// Answer a ping with this payload.
    SendPong(Vec<u8>),
    /// Call the disconnected handlers.
    EmitDisconnected,
    /// Wait this many milliseconds.
    Wait(u64),
    /// Connect again to the chatroom with this id.
    Reconnect(u64),
    /// End the session.
    Stop,
}

/// The frame that subscribes to the chat of chatroom `channel_id`.
pub open spec fn subscription_text(channel_id: u64) -> Seq<char> {
    "{\"data\":{\"auth\":\"\",\"channel\":\"chatrooms."@ + decimal(channel_id as nat) + ".v2\"},\"event\":\"pusher:subscribe\"}"@
}

/// The compact JSON text of the `data` member of a frame (`null` when absent).
pub open spec fn frame_data_text(m: Seq<char>) -> Seq<char> {
    match json_of(m) {
        Some(n) => match node_get(n, "data"@) {
            Some(d) => d,
            None => "null"@,
        },
        None => "null"@,
    }
}

/// A frame of a Kick event that is dispatched: one `parse_message` reads,
/// whose type the options do not filter out.
pub open spec fn dispatched(m: Seq<char>, options: KickWebSocketOptions, d: KickEventData) -> bool {
    exists|pm|
        #![trigger parsed_event(m, pm)]
        parsed_event(m, pm) && pm.data == d && !options.filtered_events@.contains(pm.event_type)
}

/// Law: an event whose type the options filter out is never dispatched.
pub proof fn law_filtered_events_not_dispatched(m: Seq<char>, options: KickWebSocketOptions, d: KickEventData)
    requires
        dispatched(m, options, d),
    ensures
        !options.filtered_events@.contains(data_event_type(d)),
{
    let pm = choose|pm: ParsedMessage| parsed_event(m, pm) && pm.data == d && !options.filtered_events@.contains(pm.event_type);
    law_parsed_type_matches_data(m, pm);
}

/// Whether `t` is among `events`.
pub fn event_filtered(events: &Vec<KickEventType>, t: KickEventType) -> (res: bool)
    ensures
        res == events@.contains(t),
{
    let mut i: usize = 0;
    while i < events.len()
        invariant
            i <= events@.len(),
            forall|k: int| 0 <= k < i ==> events@[k] != t,
        decreases events.len() - i,
    {
        if events[i] == t {
            assert(events@[i as int] == t);
            return true;
        }
        i = i + 1;
    }
    false
}

/// The state of a Pusher session over the WebSocket: which chatroom it
/// subscribes to, and which of the two handshake events it has seen.
#[derive(Debug, Clone, Copy, PartialEq, Eq, Structural)]
pub struct PusherSession {
    pub channel_id: u64,
    pub connection_established: bool,
    pub subscription_succeeded: bool,
}

impl PusherSession {
    /// A session for chatroom `channel_id` that has seen nothing yet.
    pub fn new(channel_id: u64) -> (res: Self)
        ensures
            res.channel_id == channel_id,
            !res.connection_established,
            !res.subscription_succeeded,
    {
        PusherSession { channel_id, connection_established: false, subscription_succeeded: false }
    }

    /// The frame that subscribes to the session's chatroom.
    pub fn subscription_message(&self) -> (res: String)
        ensures
            res@ == subscription_text(self.channel_id),
    {
        let id = u64_to_decimal(self.channel_id);
        String::from_str("{\"data\":{\"auth\":\"\",\"channel\":\"chatrooms.").concat(id.as_str()).concat(
            ".v2\"},\"event\":\"pusher:subscribe\"}",
        )
    }

    /// What to do with a received frame. The first `pusher:connection_established`
    /// is answered with the subscription, the first
    /// `pusher_internal:subscription_succeeded` makes the session connected
    /// and ready; any other frame with an event name is handed to the raw
    /// message handlers, is buffered when the options ask for it, and, when
    /// it is a Kick event whose type is not filtered out, is dispatched.
    pub fn handle_frame(&mut self, frame: IncomingFrame, options: &KickWebSocketOptions, buffer: &mut MessageBuffer) -> (res: Vec<SessionAction>)
        ensures
            final(self).channel_id == old(self).channel_id,
            old(self).connection_established ==> final(self).connection_established,
            old(self).subscription_succeeded ==> final(self).subscription_succeeded,
            match frame {
                IncomingFrame::Text(t) => {
                    let ev = raw_event_name(t@);
                    if ev == Some("pusher:connection_established"@) && !old(self).connection_established {
                        &&& final(self).connection_established
                        &&& final(self).subscription_succeeded == old(self).subscription_succeeded
                        &&& final(buffer)@ == old(buffer)@
                        &&& res@.len() == 1
                        &&& res@[0] matches SessionAction::SendText(s) && s@ == subscription_text(old(self).channel_id)
                    } else if ev == Some("pusher_internal:subscription_succeeded"@) && !old(self).subscription_succeeded {
                        &&& final(self).subscription_succeeded
                        &&& final(self).connection_established == old(self).connection_established
                        &&& final(buffer)@ == old(buffer)@
                        &&& res@ == seq![SessionAction::SetState(ConnectionState::Connected), SessionAction::EmitReady]
                    } else {
                        let k: int = if ev is Some { 1 } else { 0 };
                        &&& *final(self) == *old(self)
                        &&& final(buffer)@ == if options.enable_buffer {
                            buffer_push(old(buffer)@, t@, options.buffer_size as nat)
                        } else {
                            old(buffer)@
                        }
                        &&& (ev matches Some(e) ==> (res@[0] matches SessionAction::EmitRaw(r) && r.event_type@ == e
                            && r.data@ == frame_data_text(t@) && r.raw_json@ == t@))
                        &&& res@.len() == k || res@.len() == k + 1
                        &&& res@.len() == k + 1 <==> exists|d: KickEventData| dispatched(t@, *options, d)
                        &&& res@.len() == k + 1 ==> (res@[k] matches SessionAction::Dispatch(d) && dispatched(
                            t@,
                            *options,
                            d,
                        ))
                    }
                },
                IncomingFrame::Ping(p) => *final(self) == *old(self) && final(buffer)@ == old(buffer)@ && res@.len() == 1
                    && (res@[0] matches SessionAction::SendPong(q) && q@ == p@),
                IncomingFrame::Failure(msg) => *final(self) == *old(self) && final(buffer)@ == old(buffer)@ && res@.len()
                    == 2 && (res@[0] matches SessionAction::EmitError(KickError::Connection(m)) && m@ == msg@)
                    && res@[1] is Stop,
                IncomingFrame::Close => *final(self) == *old(self) && final(buffer)@ == old(buffer)@ && res@.len() == 1
                    && res@[0] is Stop,
                IncomingFrame::End => *final(self) == *old(self) && final(buffer)@ == old(buffer)@ && res@.len() == 1
                    && res@[0] is Stop,
                IncomingFrame::Other => *final(self) == *old(self) && final(buffer)@ == old(buffer)@ && res@.len() == 0,
            },
    {
        match frame {
            IncomingFrame::Text(text) => self.handle_text(text, options, buffer),
            IncomingFrame::Ping(p) => {
                let mut actions: Vec<SessionAction> = Vec::new();
                actions.push(SessionAction::SendPong(p));
                actions
            },
            IncomingFrame::Failure(msg) => {
                let mut actions: Vec<SessionAction> = Vec::new();
                actions.push(SessionAction::EmitError(KickError::Connection(msg)));
                actions.push(SessionAction::Stop);
                actions
            },
            IncomingFrame::Close | IncomingFrame::End => {
                let mut actions: Vec<SessionAction> = Vec::new();
                actions.push(SessionAction::Stop);
                actions
            },
            IncomingFrame::Other => Vec::new(),
        }
    }

    fn handle_text(&mut self, text: String, options: &KickWebSocketOptions, buffer: &mut MessageBuffer) -> (res: Vec<SessionAction>)
        ensures
            final(self).channel_id == old(self).channel_id,
            old(self).connection_established ==> final(self).connection_established,
            old(self).subscription_succeeded ==> final(self).subscription_succeeded,
            ({
                let t = text;
                let ev = raw_event_name(t@);
                if ev == Some("pusher:connection_established"@) && !old(self).connection_established {
                    &&& final(self).connection_established
                    &&& final(self).subscription_succeeded == old(self).subscription_succeeded
                    &&& final(buffer)@ == old(buffer)@
                    &&& res@.len() == 1
                    &&& res@[0] matches SessionAction::SendText(s) && s@ == subscription_text(old(self).channel_id)
                } else if ev == Some("pusher_internal:subscription_succeeded"@) && !old(self).subscription_succeeded {
                    &&& final(self).subscription_succeeded
                    &&& final(self).connection_established == old(self).connection_established
                    &&& final(buffer)@ == old(buffer)@
                    &&& res@ == seq![SessionAction::SetState(ConnectionState::Connected), SessionAction::EmitReady]
                } else {
                    let k: int = if ev is Some { 1 } else { 0 };
                    &&& *final(self) == *old(self)
                    &&& final(buffer)@ == if options.enable_buffer {
                        buffer_push(old(buffer)@, t@, options.buffer_size as nat)
                    } else {
                        old(buffer)@
                    }
                    &&& (ev matches Some(e) ==> (res@[0] matches SessionAction::EmitRaw(r) && r.event_type@ == e
                        && r.data@ == frame_data_text(t@) && r.raw_json@ == t@))
                    &&& res@.len() == k || res@.len() == k + 1
                    &&& res@.len() == k + 1 <==> exists|d: KickEventData| dispatched(t@, *options, d)
                    &&& res@.len() == k + 1 ==> (res@[k] matches SessionAction::Dispatch(d) && dispatched(t@, *options, d))
                }
            }),
    {
        let mut actions: Vec<SessionAction> = Vec::new();
        let (event, data_text) = match parse_json(text.as_str()) {
            Ok(root) => (root.member_str("event"), root.get("data")),
            Err(_) => (None, None),
        };
        if let Some(e) = event {
            if !self.connection_established && str_eq(e.as_str(), "pusher:connection_established") {
                self.connection_established = true;
                actions.push(SessionAction::SendText(self.subscription_message()));
                return actions;
            }
            if !self.subscription_succeeded && str_eq(e.as_str(), "pusher_internal:subscription_succeeded") {
                self.subscription_succeeded = true;
                actions.push(SessionAction::SetState(ConnectionState::Connected));
                actions.push(SessionAction::EmitReady);
                return actions;
            }
            let data = match data_text {
                Some(d) => d,
                None => String::from_str("null"),
            };
            actions.push(SessionAction::EmitRaw(RawMessage { event_type: e, data, raw_json: text.clone() }));
        }
        let ghost k = actions@.len();
        if options.enable_buffer {
            buffer.push(text.clone(), options.buffer_size);
        }
        let parsed = MessageParser::parse_message(text.as_str());
        match parsed {
            Ok(Some(pm)) => {
                let ghost first = pm;
                if !event_filtered(&options.filtered_events, pm.event_type) {
                    actions.push(SessionAction::Dispatch(pm.data));
                    assert(dispatched(text@, *options, first.data));
                } else {
                    assert forall|d: KickEventData| !dispatched(text@, *options, d) by {
                        assert forall|pm2: ParsedMessage| parsed_event(text@, pm2) implies pm2.event_type
                            == first.event_type by {}
                    }
                }
            },
            _ => {
                assert forall|d: KickEventData| !dispatched(text@, *options, d) by {
                    assert forall|pm2: ParsedMessage| !parsed_event(text@, pm2) by {}
                }
            },
        }
        actions
    }

    /// What to do when the session has ended: become disconnected and tell
    /// the disconnected handlers; then, when the options ask for automatic
    /// reconnection and no disconnect was requested, wait the reconnect
    /// interval and connect again to the same chatroom.
    pub fn finish(&mut self, options: &KickWebSocketOptions, disconnect_requested: bool) -> (res: Vec<SessionAction>)
        ensures
            *final(self) == *old(self),
            res@ == if options.auto_reconnect && !disconnect_requested {
                seq![
                    SessionAction::SetState(ConnectionState::Disconnected),
                    SessionAction::EmitDisconnected,
                    SessionAction::Wait(options.reconnect_interval),
                    SessionAction::Reconnect(old(self).channel_id),
                ]
            } else {
                seq![SessionAction::SetState(ConnectionState::Disconnected), SessionAction::EmitDisconnected]
            },
    {
        let mut actions: Vec<SessionAction> = Vec::new();
        actions.push(SessionAction::SetState(ConnectionState::Disconnected));
        actions.push(SessionAction::EmitDisconnected);
        if options.auto_reconnect && !disconnect_requested {
            actions.push(SessionAction::Wait(options.reconnect_interval));
            actions.push(SessionAction::Reconnect(self.channel_id));
        }
        actions
    }
}

/// The address the client connects to when no other is set.
pub open spec fn default_websocket_url() -> Seq<char> {
    "wss://ws-us2.pusher.com/app/32cbd69e4b950bf97679"@
}

/// The views of a list of key-value pairs.
pub open spec fn pair_views(pairs: Seq<(String, String)>) -> Seq<(Seq<char>, Seq<char>)> {
    pairs.map_values(|p: (String, String)| (p.0@, p.1@))
}

/// The query parameters every connection carries.
pub open spec fn default_query() -> Seq<(Seq<char>, Seq<char>)> {
    seq![("protocol"@, "7"@), ("client"@, "js"@), ("version"@, "8.4.0"@), ("flash"@, "false"@)]
}

/// A WebSocket address, with the host and explicit port the `url` crate reads
/// out of it.
#[derive(Debug, Clone)]
pub struct WebSocketUrl {
    pub text: String,
    pub host: Option<String>,
    pub port: Option<u16>,
}

/// What the `url` crate makes of `base` with `pairs` appended to its query:
/// the serialized address with its host and explicit port, or the text of the
/// parse error.
pub uninterp spec fn url_with_query(base: Seq<char>, pairs: Seq<(Seq<char>, Seq<char>)>) -> Result<(Seq<char>, Option<Seq<char>>, Option<u16>), Seq<char>>;

/// Parses `base` with `url::Url::parse`, appends each pair in order with
/// `query_pairs_mut().append_pair`, and reads `as_str`, `host_str` and `port`.
#[verifier::external_body]
fn parse_url_with_query(base: &str, pairs: &Vec<(String, String)>) -> (res: Result<WebSocketUrl, String>)
    ensures
        match res {
            Ok(u) => url_with_query(base@, pair_views(pairs@)) == Ok::<(Seq<char>, Option<Seq<char>>, Option<u16>), Seq<char>>((u.text@, opt_view(u.host), u.port)),
            Err(e) => url_with_query(base@, pair_views(pairs@)) == Err::<(Seq<char>, Option<Seq<char>>, Option<u16>), Seq<char>>(e@),
        },
{
    match url::Url::parse(base) {
        Ok(mut url) => {
            for (key, value) in pairs {
                url.query_pairs_mut().append_pair(key, value);
            }
            Ok(WebSocketUrl { text: url.as_str().to_string(), host: url.host_str().map(|h| h.to_string()), port: url.port() })
        },
        Err(e) => Err(e.to_string()),
    }
}

/// The settings of a WebSocket connection: the options and any custom
/// address or query parameters.
#[derive(Debug, Clone)]
pub struct ConnectionSettings {
    pub options: KickWebSocketOptions,
    pub custom_websocket_url: Option<String>,
    pub custom_websocket_params: Option<Vec<(String, String)>>,
}

/// A copy of an optional string.
fn copy_opt_string(o: &Option<String>) -> (res: Option<String>)
    ensures
        res == *o,
{
    match o {
        Some(s) => Some(s.clone()),
        None => None,
    }
}

impl ConnectionSettings {
    /// Settings with the given options and no custom address.
    pub fn new(options: KickWebSocketOptions) -> (res: Self)
        ensures
            res.options == options,
            res.custom_websocket_url is None,
            res.custom_websocket_params is None,
    {
        ConnectionSettings { options, custom_websocket_url: None, custom_websocket_params: None }
    }

    /// Set a custom WebSocket URL.
    pub fn set_websocket_url(&mut self, url: String)
        ensures
            final(self).custom_websocket_url == Some(url),
            final(self).options == old(self).options,
            final(self).custom_websocket_params == old(self).custom_websocket_params,
    {
        self.custom_websocket_url = Some(url);
    }

    /// Set custom WebSocket query parameters.
    pub fn set_websocket_params(&mut self, params: Vec<(String, String)>)
        ensures
            final(self).custom_websocket_params == Some(params),
            final(self).options == old(self).options,
            final(self).custom_websocket_url == old(self).custom_websocket_url,
    {
        self.custom_websocket_params = Some(params);
    }

    /// Reset the WebSocket address and parameters to the defaults.
    pub fn reset_websocket_config(&mut self)
        ensures
            final(self).custom_websocket_url is None,
            final(self).custom_websocket_params is None,
            final(self).options == old(self).options,
    {
        self.custom_websocket_url = None;
        self.custom_websocket_params = None;
    }

    /// Set a custom User-Agent for WebSocket connections.
    pub fn set_custom_user_agent(&mut self, user_agent: String)
        ensures
            final(self).options == (KickWebSocketOptions { custom_user_agent: Some(user_agent), ..old(self).options }),
            final(self).custom_websocket_url == old(self).custom_websocket_url,
            final(self).custom_websocket_params == old(self).custom_websocket_params,
    {
        self.options.custom_user_agent = Some(user_agent);
    }

    /// Enable or disable User-Agent rotation for WebSocket connections.
    pub fn set_user_agent_rotation(&mut self, enabled: bool)
        ensures
            final(self).options == (KickWebSocketOptions { rotate_user_agent: enabled, ..old(self).options }),
            final(self).custom_websocket_url == old(self).custom_websocket_url,
            final(self).custom_websocket_params == old(self).custom_websocket_params,
    {
        self.options.rotate_user_agent = enabled;
    }

    /// The current User-Agent configuration: the custom User-Agent and
    /// whether rotation is on.
    pub fn get_user_agent_config(&self) -> (res: (Option<String>, bool))
        ensures
            res == (self.options.custom_user_agent, self.options.rotate_user_agent),
    {
        (copy_opt_string(&self.options.custom_user_agent), self.options.rotate_user_agent)
    }

    /// Reset the User-Agent to the default behaviour: no custom User-Agent,
    /// rotation on.
    pub fn reset_user_agent(&mut self)
        ensures
            final(self).options == (KickWebSocketOptions {
                custom_user_agent: None,
                rotate_user_agent: true,
                ..old(self).options
            }),
            final(self).custom_websocket_url == old(self).custom_websocket_url,
            final(self).custom_websocket_params == old(self).custom_websocket_params,
    {
        self.options.custom_user_agent = None;
        self.options.rotate_user_agent = true;
    }

    /// The address to connect to, before its query.
    pub open spec fn base_url(&self) -> Seq<char> {
        match self.custom_websocket_url {
            Some(u) => u@,
            None => default_websocket_url(),
        }
    }

    /// The query parameters: the defaults, then the custom ones in order.
    pub open spec fn query(&self) -> Seq<(Seq<char>, Seq<char>)> {
        match self.custom_websocket_params {
            Some(p) => default_query() + pair_views(p@),
            None => default_query(),
        }
    }

    /// The query parameters of the connection.
    pub fn websocket_params(&self) -> (res: Vec<(String, String)>)
        ensures
            pair_views(res@) == self.query(),
    {
        let mut params: Vec<(String, String)> = Vec::new();
        params.push((String::from_str("protocol"), String::from_str("7")));
        params.push((String::from_str("client"), String::from_str("js")));
        params.push((String::from_str("version"), String::from_str("8.4.0")));
        params.push((String::from_str("flash"), String::from_str("false")));
        assert(pair_views(params@) =~= default_query());
        if let Some(custom) = &self.custom_websocket_params {
            let mut i: usize = 0;
            while i < custom.len()
                invariant
                    i <= custom@.len(),
                    params@.len() == 4 + i,
                    pair_views(params@) == default_query() + pair_views(custom@).take(i as int),
                decreases custom.len() - i,
            {
                let ghost before = params@;
                let key = custom[i].0.clone();
                let value = custom[i].1.clone();
                assert(pair_views(custom@)[i as int] == (key@, value@));
                let ghost kv = (key@, value@);
                params.push((key, value));
                assert(pair_views(params@) =~= pair_views(before).push(kv));
                assert(pair_views(custom@).take(i + 1) =~= pair_views(custom@).take(i as int).push(kv));
                i = i + 1;
                assert(pair_views(params@) =~= default_query() + pair_views(custom@).take(i as int));
            }
            assert(pair_views(custom@).take(i as int) =~= pair_views(custom@));
        }
        params
    }

    /// Build the WebSocket URL: the custom address or the default one, with
    /// the query parameters appended.
    pub fn build_websocket_url(&self) -> (res: Result<WebSocketUrl, KickError>)
        ensures
            match url_with_query(self.base_url(), self.query()) {
                Ok((text, host, port)) => res matches Ok(u) && u.text@ == text && opt_view(u.host) == host && u.port == port,
                Err(t) => res matches Err(KickError::UrlParse(m)) && m@ == t,
            },
    {
        let base = match &self.custom_websocket_url {
            Some(u) => u.clone(),
            None => String::from_str("wss://ws-us2.pusher.com/app/32cbd69e4b950bf97679"),
        };
        let params = self.websocket_params();
        match parse_url_with_query(base.as_str(), &params) {
            Ok(u) => Ok(u),
            Err(t) => Err(KickError::UrlParse(t)),
        }
    }
}

/// Law: the query of every connection starts with the default parameters,
/// in order; custom parameters only follow them.
pub proof fn law_query_starts_with_defaults(s: ConnectionSettings)
    ensures
        s.query().len() >= 4,
        s.query().take(4) == default_query(),
{
    match s.custom_websocket_params {
        Some(p) => {
            assert((default_query() + pair_views(p@)).take(4) =~= default_query());
        },
        None => {
            assert(default_query().take(4) =~= default_query());
        },
    }
}

/// The `Host` header of a connection: the host (or `kick.com`) and the
/// explicit port (or 443).
pub open spec fn host_header(url: WebSocketUrl) -> Seq<char> {
    (match url.host {
        Some(h) => h@,
        None => "kick.com"@,
    }) + ":"@ + decimal(
        (match url.port {
            Some(p) => p,
            None => 443,
        }) as nat,
    )
}

/// The User-Agent a connection sends: the custom one, else the rotating one,
/// else the fingerprint's.
pub open spec fn chosen_user_agent(options: KickWebSocketOptions, fingerprint_rotation: usize, agent_rotation: usize) -> Seq<char> {
    match options.custom_user_agent {
        Some(u) => u@,
        None => if options.rotate_user_agent {
            user_agent_list()[(agent_rotation % 16) as int]
        } else {
            user_agent_list()[(fingerprint_rotation % 16) as int]
        },
    }
}

/// The headers of the request that opens a connection, in order.
pub open spec fn spec_request_headers(
    url: WebSocketUrl,
    options: KickWebSocketOptions,
    fingerprint_rotation: usize,
    agent_rotation: usize,
    websocket_key: Seq<char>,
) -> Seq<(Seq<char>, Seq<char>)> {
    let fua = user_agent_list()[(fingerprint_rotation % 16) as int];
    seq![
        ("Host"@, host_header(url)),
        ("User-Agent"@, chosen_user_agent(options, fingerprint_rotation, agent_rotation)),
        ("Accept"@, "*/*"@),
        ("Accept-Language"@, "en-US,en;q=0.9"@),
        ("Cache-Control"@, "no-cache"@),
        ("Pragma"@, "no-cache"@),
        ("Sec-Ch-Ua"@, spec_sec_ch_ua(fua)),
        ("Sec-Ch-Ua-Mobile"@, "false"@),
        ("Sec-Ch-Ua-Platform"@, spec_platform(fua)),
        ("Sec-Fetch-Dest"@, "websocket"@),
        ("Sec-Fetch-Mode"@, "websocket"@),
        ("Sec-Fetch-Site"@, "cross-site"@),
        ("Origin"@, "https://kick.com"@),
        ("Referer"@, "https://kick.com/"@),
        ("Connection"@, "Upgrade"@),
        ("Upgrade"@, "websocket"@),
        ("Sec-WebSocket-Key"@, websocket_key),
        ("Sec-WebSocket-Version"@, "13"@),
    ]
}

/// Law: the request that opens a connection always asks for the WebSocket
/// upgrade (RFC 6455): it carries `Connection: Upgrade`, `Upgrade: websocket`,
/// `Sec-WebSocket-Version: 13` and the given `Sec-WebSocket-Key`, and the
/// `Origin` of Kick.
pub proof fn law_request_asks_for_websocket_upgrade(
    url: WebSocketUrl,
    options: KickWebSocketOptions,
    fingerprint_rotation: usize,
    agent_rotation: usize,
    websocket_key: Seq<char>,
)
    ensures
        ({
            let h = spec_request_headers(url, options, fingerprint_rotation, agent_rotation, websocket_key);
            &&& h.contains(("Connection"@, "Upgrade"@))
            &&& h.contains(("Upgrade"@, "websocket"@))
            &&& h.contains(("Sec-WebSocket-Version"@, "13"@))
            &&& h.contains(("Sec-WebSocket-Key"@, websocket_key))
            &&& h.contains(("Origin"@, "https://kick.com"@))
        }),
{
    let h = spec_request_headers(url, options, fingerprint_rotation, agent_rotation, websocket_key);
    assert(h[14] == ("Connection"@, "Upgrade"@));
    assert(h[15] == ("Upgrade"@, "websocket"@));
    assert(h[17] == ("Sec-WebSocket-Version"@, "13"@));
    assert(h[16] == ("Sec-WebSocket-Key"@, websocket_key));
    assert(h[12] == ("Origin"@, "https://kick.com"@));
}

/// A header built from a name and a value.
fn header(name: &str, value: String) -> (res: (String, String))
    ensures
        res.0@ == name@,
        res.1 == value,
{
    (String::from_str(name), value)
}

/// The headers of the request that opens a connection to `url`, with a
/// realistic browser fingerprint taken at `fingerprint_rotation`, the
/// User-Agent chosen by the options (the rotating one taken at
/// `agent_rotation`), and the handshake key `websocket_key`.
pub fn websocket_request_headers(
    url: &WebSocketUrl,
    options: &KickWebSocketOptions,
    fingerprint_rotation: usize,
    agent_rotation: usize,
    websocket_key: &str,
) -> (res: Vec<(String, String)>)
    ensures
        pair_views(res@) == spec_request_headers(*url, *options, fingerprint_rotation, agent_rotation, websocket_key@),
{
    let fingerprint = generate_browser_fingerprint(fingerprint_rotation);
    let user_agent = match &options.custom_user_agent {
        Some(u) => u.clone(),
        None => if options.rotate_user_agent {
            String::from_str(get_rotating_user_agent(agent_rotation))
        } else {
            fingerprint.user_agent.clone()
        },
    };
    let host_name = match &url.host {
        Some(h) => h.clone(),
        None => String::from_str("kick.com"),
    };
    let port: u16 = match url.port {
        Some(p) => p,
        None => 443,
    };
    let port_text = u64_to_decimal(port as u64);
    let host = host_name.concat(":").concat(port_text.as_str());
    let mut headers: Vec<(String, String)> = Vec::new();
    headers.push(header("Host", host));
    headers.push(header("User-Agent", user_agent));
    headers.push(header("Accept", String::from_str("*/*")));
    headers.push(header("Accept-Language", String::from_str("en-US,en;q=0.9")));
    headers.push(header("Cache-Control", String::from_str("no-cache")));
    headers.push(header("Pragma", String::from_str("no-cache")));
    headers.push(header("Sec-Ch-Ua", fingerprint.sec_ch_ua));
    headers.push(header("Sec-Ch-Ua-Mobile", fingerprint.sec_ch_ua_mobile));
    headers.push(header("Sec-Ch-Ua-Platform", fingerprint.sec_ch_ua_platform));
    headers.push(header("Sec-Fetch-Dest", String::from_str("websocket")));
    headers.push(header("Sec-Fetch-Mode", String::from_str("websocket")));
    headers.push(header("Sec-Fetch-Site", String::from_str("cross-site")));
    headers.push(header("Origin", String::from_str("https://kick.com")));
    headers.push(header("Referer", String::from_str("https://kick.com/")));
    headers.push(header("Connection", String::from_str("Upgrade")));
    headers.push(header("Upgrade", String::from_str("websocket")));
    headers.push(header("Sec-WebSocket-Key", String::from_str(websocket_key)));
    headers.push(header("Sec-WebSocket-Version", String::from_str("13")));
    assert(pair_views(headers@) =~= spec_request_headers(*url, *options, fingerprint_rotation, agent_rotation, websocket_key@));
    headers
}

/// Whether a connection attempt goes ahead: not when the client is already
/// connected or connecting.
pub fn should_connect(state: ConnectionState) -> (res: bool)
    ensures
        res == !(state == ConnectionState::Connected || state == ConnectionState::Connecting),
{
    !(state == ConnectionState::Connected || state == ConnectionState::Connecting)
}

} // verus!
