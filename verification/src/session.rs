//! One connection of the web chat: what it does about each message of the
//! client, and when it takes the client for gone. Times are in nanoseconds from
//! a moment of the caller's choice, by a clock that does not go backwards.
use vstd::prelude::*;

verus! {

/// How often the connection looks after its client.
pub const HEARTBEAT_INTERVAL_NANOS: u128 = 5_000_000_000;

/// For how long a client may keep silent.
pub const CLIENT_TIMEOUT_NANOS: u128 = 10_000_000_000;

/// Why a client closes the connection.
#[derive(Debug, PartialEq, Eq)]
pub struct CloseReason {
    pub code: u16,
    pub description: Option<String>,
}

/// A message of the client.
#[derive(Debug, PartialEq, Eq)]
pub enum WsMessage {
    Ping(Vec<u8>),
    Pong,
    Text(String),
    Binary(Vec<u8>),
    Close(Option<CloseReason>),
    /// A message of another kind, or a violation of the protocol.
    Other,
}

/// What the connection does about a message.
#[derive(Debug, PartialEq, Eq)]
pub enum WsAction {
    /// Answer a ping, with the payload that it had.
    Pong(Vec<u8>),
    /// Work out the answer to a message, and send it once it is there.
    Respond(String),
    /// Send this back.
    Binary(Vec<u8>),
    /// Close the connection for this reason, and stop.
    Close(Option<CloseReason>),
    /// Stop.
    Stop,
    /// Nothing.
    Nothing,
}

/// What the connection does when it looks after its client.
#[derive(Debug, Clone, Copy, PartialEq, Eq)]
pub enum Heartbeat {
    /// The client has kept silent for too long: stop.
    Disconnect,
    /// Ping the client, with an empty payload.
    Ping,
}

/// One connection of the web chat.
#[derive(Debug)]
pub struct WsChatSession {
    /// When the client last showed that it is there.
    pub hb: u128,
}

/// Whether a message shows that the client is there.
pub open spec fn shows_life(msg: WsMessage) -> bool {
    msg is Ping || msg is Pong || msg is Text
}

/// What is done about a message.
pub open spec fn action_for(msg: WsMessage) -> WsAction {
    match msg {
        WsMessage::Ping(payload) => WsAction::Pong(payload),
        WsMessage::Pong => WsAction::Nothing,
        WsMessage::Text(text) => WsAction::Respond(text),
        WsMessage::Binary(bin) => WsAction::Binary(bin),
        WsMessage::Close(reason) => WsAction::Close(reason),
        WsMessage::Other => WsAction::Stop,
    }
}

/// When the client last showed that it is there, after a message at `now`.
pub open spec fn hb_after(hb: u128, msg: WsMessage, now: u128) -> u128 {
    if shows_life(msg) {
        now
    } else {
        hb
    }
}

/// When the client last showed that it is there, after a row of messages.
pub open spec fn hb_after_all(hb: u128, messages: Seq<(WsMessage, u128)>) -> u128
    decreases messages.len(),
{
    if messages.len() == 0 {
        hb
    } else {
        hb_after(
            hb_after_all(hb, messages.drop_last()),
            messages.last().0,
            messages.last().1,
        )
    }
}

/// What the connection does when it looks after its client at `now`.
pub open spec fn heartbeat_of(hb: int, now: int) -> Heartbeat {
    if now - hb > CLIENT_TIMEOUT_NANOS {
        Heartbeat::Disconnect
    } else {
        Heartbeat::Ping
    }
}

impl WsChatSession {
    /// A connection that begins at `now`.
    pub fn new(now: u128) -> (r: WsChatSession)
        ensures
            r.hb == now,
    {
        WsChatSession { hb: now }
    }

    /// What to do when looking after the client at `now`.
    pub fn heartbeat(&self, now: u128) -> (r: Heartbeat)
        ensures
            r == heartbeat_of(self.hb as int, now as int),
            r == Heartbeat::Disconnect <==> now - self.hb > 10_000_000_000,
    {
        if now > self.hb && now - self.hb > CLIENT_TIMEOUT_NANOS {
            Heartbeat::Disconnect
        } else {
            Heartbeat::Ping
        }
    }

    /// What to do about the message `msg`, which came in at `now`: whatever it
    /// holds, a text is answered, a ping is answered with its payload, and bytes
    /// and the reason of a close are sent back as they came.
    pub fn handle(&mut self, msg: WsMessage, now: u128) -> (r: WsAction)
        ensures
            final(self).hb == hb_after(old(self).hb, msg, now),
            r == action_for(msg),
            msg matches WsMessage::Ping(payload) ==> r == WsAction::Pong(payload)
                && final(self).hb == now,
            msg is Pong ==> r == WsAction::Nothing && final(self).hb == now,
            msg matches WsMessage::Text(text) ==> r == WsAction::Respond(text)
                && final(self).hb == now,
            msg matches WsMessage::Binary(bin) ==> r == WsAction::Binary(bin)
                && final(self).hb == old(self).hb,
            msg matches WsMessage::Close(reason) ==> r == WsAction::Close(reason)
                && final(self).hb == old(self).hb,
            msg is Other ==> r == WsAction::Stop && final(self).hb == old(self).hb,
    {
        match msg {
            WsMessage::Ping(payload) => {
                self.hb = now;
                WsAction::Pong(payload)
            },
            WsMessage::Pong => {
                self.hb = now;
                WsAction::Nothing
            },
            WsMessage::Text(text) => {
                self.hb = now;
                WsAction::Respond(text)
            },
            WsMessage::Binary(bin) => WsAction::Binary(bin),
            WsMessage::Close(reason) => WsAction::Close(reason),
            WsMessage::Other => WsAction::Stop,
        }
    }
}

/// Whatever a message holds comes out again in what is done about it: every text
/// is answered, every ping gets its payload back, and so do bytes and the reason
/// of a close.
pub proof fn law_nothing_is_lost(text: String, bytes: Vec<u8>, reason: Option<CloseReason>)
    ensures
        action_for(WsMessage::Text(text)) == WsAction::Respond(text),
        action_for(WsMessage::Ping(bytes)) == WsAction::Pong(bytes),
        action_for(WsMessage::Binary(bytes)) == WsAction::Binary(bytes),
        action_for(WsMessage::Close(reason)) == WsAction::Close(reason),
{
}

/// Nothing is done about a pong and about no other message, and the connection
/// stops without a word exactly where a message is none of the kinds that it
/// knows.
pub proof fn law_quiet_actions(msg: WsMessage)
    ensures
        action_for(msg) == WsAction::Nothing <==> msg == WsMessage::Pong,
        action_for(msg) == WsAction::Stop <==> msg == WsMessage::Other,
{
}

/// Two messages that differ are not treated alike.
pub proof fn law_messages_are_told_apart(a: WsMessage, b: WsMessage)
    requires
        a != b,
    ensures
        action_for(a) != action_for(b),
{
}

/// A ping, a pong and a text are signs of life, whatever they hold; bytes, a
/// close and what the connection does not know are none.
pub proof fn law_signs_of_life(
    hb: u128,
    now: u128,
    text: String,
    bytes: Vec<u8>,
    reason: Option<CloseReason>,
)
    ensures
        hb_after(hb, WsMessage::Ping(bytes), now) == now,
        hb_after(hb, WsMessage::Pong, now) == now,
        hb_after(hb, WsMessage::Text(text), now) == now,
        hb_after(hb, WsMessage::Binary(bytes), now) == hb,
        hb_after(hb, WsMessage::Close(reason), now) == hb,
        hb_after(hb, WsMessage::Other, now) == hb,
{
}

/// A client is taken for gone once it has kept silent for more than ten seconds,
/// and is pinged up to then.
pub proof fn law_ten_seconds(hb: int, now: int)
    ensures
        heartbeat_of(hb, now) == Heartbeat::Disconnect <==> now - hb > 10_000_000_000,
        heartbeat_of(hb, now) == Heartbeat::Ping <==> now - hb <= 10_000_000_000,
{
}

/// Only the time that has passed counts, not where the times are counted from.
pub proof fn law_only_silence_counts(hb: int, now: int, shift: int)
    ensures
        heartbeat_of(hb + shift, now + shift) == heartbeat_of(hb, now),
{
}

/// The connection remembers the last message that showed that the client is
/// there: what came after it does not matter, and nor does what came before.
pub proof fn law_last_sign_of_life(hb: u128, messages: Seq<(WsMessage, u128)>, last: int)
    requires
        0 <= last < messages.len(),
        shows_life(messages[last].0),
        forall|i: int| last < i < messages.len() ==> !shows_life(#[trigger] messages[i].0),
    ensures
        hb_after_all(hb, messages) == messages[last].1,
    decreases messages.len(),
{
    if last < messages.len() - 1 {
        let before = messages.drop_last();
        assert forall|i: int| last < i < before.len() implies !shows_life(
            #[trigger] before[i].0,
        ) by {
            assert(before[i] == messages[i]);
        }
        law_last_sign_of_life(hb, before, last);
        assert(!shows_life(messages[messages.len() - 1].0));
    }
}

/// Where no message shows that the client is there, the connection remembers
/// when it began.
pub proof fn law_no_sign_of_life(hb: u128, messages: Seq<(WsMessage, u128)>)
    requires
        forall|i: int| 0 <= i < messages.len() ==> !shows_life(#[trigger] messages[i].0),
    ensures
        hb_after_all(hb, messages) == hb,
    decreases messages.len(),
{
    if messages.len() > 0 {
        let before = messages.drop_last();
        assert forall|i: int| 0 <= i < before.len() implies !shows_life(#[trigger] before[i].0) by {
            assert(before[i] == messages[i]);
        }
        law_no_sign_of_life(hb, before);
        assert(!shows_life(messages[messages.len() - 1].0));
    }
}

/// A client that showed that it is there within the last ten seconds is not
/// disconnected, and one that did not is.
pub proof fn law_disconnect(hb: u128, messages: Seq<(WsMessage, u128)>, last: int, now: u128)
    requires
        0 <= last < messages.len(),
        shows_life(messages[last].0),
        forall|i: int| last < i < messages.len() ==> !shows_life(#[trigger] messages[i].0),
    ensures
        heartbeat_of(hb_after_all(hb, messages) as int, now as int)
            == Heartbeat::Disconnect <==> now
            - messages[last].1 > CLIENT_TIMEOUT_NANOS,
{
    law_last_sign_of_life(hb, messages, last);
}

/// A client that answers a ping before the next one is due is still connected
/// when the one after that is due.
pub proof fn law_answering_client_stays(hb: int, pinged: int)
    requires
        pinged <= hb,
    ensures
        heartbeat_of(hb, pinged + HEARTBEAT_INTERVAL_NANOS) == Heartbeat::Ping,
        heartbeat_of(hb, pinged + 2 * HEARTBEAT_INTERVAL_NANOS) == Heartbeat::Ping,
{
}

/// Once a silent client is due to be disconnected it stays so until it shows
/// that it is there.
pub proof fn law_disconnect_is_final(hb: int, now: int, later: int)
    requires
        now <= later,
        heartbeat_of(hb, now) == Heartbeat::Disconnect,
    ensures
        heartbeat_of(hb, later) == Heartbeat::Disconnect,
{
}

/// A client that falls silent at `hb` is kept through every look after it in
/// the ten seconds that follow, and is disconnected in the five seconds after
/// those, where the connection began at `start` and looks after its client once
/// every five seconds.
pub proof fn law_silence_is_noticed(start: int, hb: int)
    requires
        start <= hb,
    ensures
        forall|look: int| look <= hb + CLIENT_TIMEOUT_NANOS ==> #[trigger] heartbeat_of(hb, look)
            == Heartbeat::Ping,
        exists|k: int|
            {
                let look = #[trigger] (start + k * HEARTBEAT_INTERVAL_NANOS);
                &&& k > 0
                &&& hb + CLIENT_TIMEOUT_NANOS < look <= hb + CLIENT_TIMEOUT_NANOS
                    + HEARTBEAT_INTERVAL_NANOS
                &&& heartbeat_of(hb, look) == Heartbeat::Disconnect
            },
{
    let k = (hb - start) / 5_000_000_000 + 3;
    let look = start + k * HEARTBEAT_INTERVAL_NANOS;
    assert(heartbeat_of(hb, look) == Heartbeat::Disconnect);
}

} // verus!
