use vstd::prelude::*;
use vstd::string::*;
use matrix_sdk::RoomState;
use crate::text::{contains_seq, contains_str, opt_view};

verus! {

/// matrix-sdk's room state, a plain enum of `Joined`, `Left` and `Invited`
/// whose variants are read here.
#[verifier::external_type_specification]
pub struct ExRoomState(matrix_sdk::RoomState);

/// The phrase that makes the bot answer.
pub open spec fn trigger_phrase() -> Seq<char> {
    "!party"@
}

/// The text of the answer to the trigger phrase.
pub open spec fn reply_text() -> Seq<char> {
    "\u{1F389}\u{1F38A}\u{1F973} let's PARTY!! \u{1F973}\u{1F38A}\u{1F389}"@
}

/// Whether a message with text body `body` (or `None` for a message that is
/// not plain text), seen in a room in state `room`, is answered.
pub open spec fn answers(room: RoomState, body: Option<Seq<char>>) -> bool {
    &&& room == RoomState::Joined
    &&& (body matches Some(b) && contains_seq(b, trigger_phrase()))
}

/// The character sequence of an optional message body.
pub open spec fn body_view(body: Option<&str>) -> Option<Seq<char>> {
    match body {
        Some(b) => Some(b@),
        None => None,
    }
}

/// Decides the answer to one message event: the text to send back to the
/// room, or `None` when the event is ignored. `body` is the message's text
/// body, `None` for a message that is not plain text.
pub fn on_room_message(room: RoomState, body: Option<&str>) -> (r: Option<String>)
    ensures
        r is Some <==> answers(room, body_view(body)),
        r matches Some(t) ==> t@ == reply_text(),
{
    match room {
        RoomState::Joined => {},
        _ => {
            return None;
        },
    }
    let text = match body {
        Some(t) => t,
        None => {
            return None;
        },
    };
    if contains_str(text, "!party") {
        Some(String::from_str("\u{1F389}\u{1F38A}\u{1F973} let's PARTY!! \u{1F973}\u{1F38A}\u{1F389}"))
    } else {
        None
    }
}

/// Where the bot stands in its sync sequence.
pub enum SyncPhase {
    /// The one-shot sync over the backlog has not finished: no handler is
    /// registered yet.
    Initial,
    /// The continuous sync runs from `token` (`None`: the default start),
    /// and the message handler is registered.
    Continuous { token: Option<String> },
}

/// The bot's sync and reply state: messages are answered only once the
/// initial one-shot sync has completed.
pub struct Bot {
    pub phase: SyncPhase,
}

impl Bot {
    pub open spec fn listening(&self) -> bool {
        self.phase is Continuous
    }

    /// The token that the continuous sync was started with, if it runs.
    pub open spec fn start_token(&self) -> Option<Seq<char>> {
        match self.phase {
            SyncPhase::Continuous { token: Some(t) } => Some(t@),
            _ => None,
        }
    }

    /// A bot that has not synced yet.
    pub fn new() -> (r: Bot)
        ensures
            !r.listening(),
    {
        Bot { phase: SyncPhase::Initial }
    }

    /// Whether the continuous sync has started.
    pub fn is_listening(&self) -> (r: bool)
        ensures
            r == self.listening(),
    {
        match self.phase {
            SyncPhase::Continuous { .. } => true,
            SyncPhase::Initial => false,
        }
    }

    /// The one-shot sync finished with cursor `next_batch`. From now on
    /// messages are handled; the returned token is the one the continuous
    /// sync must start from (`None`: the default, token-less start).
    pub fn initial_sync_done(&mut self, next_batch: Option<String>) -> (r: Option<String>)
        requires
            !old(self).listening(),
        ensures
            final(self).listening(),
            r == next_batch,
            final(self).start_token() == opt_view(next_batch),
    {
        let r = match &next_batch {
            Some(t) => Some(t.clone()),
            None => None,
        };
        self.phase = SyncPhase::Continuous { token: next_batch };
        r
    }

    /// Decides the answer to a message event delivered by the sync: none
    /// before the continuous sync has started, otherwise as
    /// `on_room_message`.
    pub fn handle_message(&self, room: RoomState, body: Option<&str>) -> (r: Option<String>)
        ensures
            r is Some <==> self.listening() && answers(room, body_view(body)),
            r matches Some(t) ==> t@ == reply_text(),
    {
        if self.is_listening() {
            on_room_message(room, body)
        } else {
            None
        }
    }
}

} // verus!
