use vstd::prelude::*;
use crate::message::{opt_view, IncomingMessage, MessageView};

verus! {

/// The fields the adapter reads from a standard message event of the service.
pub struct MessageFields {
    pub channel: Option<String>,
    pub user: Option<String>,
    pub text: Option<String>,
}

/// An event delivered by the service's real-time connection.
pub enum ServiceEvent {
    /// A standard (plain text) message event.
    Message(MessageFields),
    /// Any other event: housekeeping, typing notices, edited or bot messages.
    Other,
}

/// The canonical message an event becomes, tagged with the adapter name
/// `source`; `None` for an event that is ignored.
///
/// A standard message event becomes a message only when it carries both a text
/// and a channel; its text and channel are kept exactly as received.
pub open spec fn decode_event(source: Seq<char>, e: ServiceEvent) -> Option<MessageView> {
    match e {
        ServiceEvent::Message(f) => match (f.channel, f.text) {
            (Some(channel), Some(text)) => Some(
                MessageView {
                    source_adapter: source,
                    thread: None,
                    channel: channel@,
                    author: opt_view(f.user),
                    text: text@,
                },
            ),
            _ => None,
        },
        ServiceEvent::Other => None,
    }
}

/// The receiving side of an adapter: turns service events into canonical
/// messages and counts the events seen.
pub struct EventDecoder {
    source: String,
    count: u64,
}

impl EventDecoder {
    pub closed spec fn source_spec(&self) -> Seq<char> {
        self.source@
    }

    pub closed spec fn count_spec(&self) -> nat {
        self.count as nat
    }

    /// A decoder whose messages are tagged with the adapter name `source`.
    pub fn new(source: String) -> (r: Self)
        ensures
            r.source_spec() == source@,
            r.count_spec() == 0,
    {
        EventDecoder { source, count: 0 }
    }

    /// The adapter name the decoder tags its messages with.
    pub fn source(&self) -> (r: &str)
        ensures
            r@ == self.source_spec(),
    {
        self.source.as_str()
    }

    /// The number of events seen so far (it stops growing at `u64::MAX`).
    pub fn count(&self) -> (r: u64)
        ensures
            r as nat == self.count_spec(),
    {
        self.count
    }

    /// Handles one event: returns the canonical message it becomes, carrying
    /// `reply` as its reply handle, or `None` where the event is ignored.
    /// An ignored event is never an error.
    pub fn on_event<R>(&mut self, event: ServiceEvent, reply: R) -> (r: Option<IncomingMessage<R>>)
        ensures
            final(self).source_spec() == old(self).source_spec(),
            final(self).count_spec() == if old(self).count_spec() < u64::MAX {
                old(self).count_spec() + 1
            } else {
                old(self).count_spec()
            },
            match r {
                Some(m) => decode_event(old(self).source_spec(), event) == Some(m.view())
                    && m.reply_spec() == reply,
                None => decode_event(old(self).source_spec(), event) is None,
            },
    {
        if self.count < u64::MAX {
            self.count = self.count + 1;
        }
        match event {
            ServiceEvent::Message(f) => match (f.channel, f.text) {
                (Some(channel), Some(text)) => Some(
                    IncomingMessage::new(self.source.clone(), None, channel, f.user, text, reply),
                ),
                _ => None,
            },
            ServiceEvent::Other => None,
        }
    }
}

/// A message event without a text is ignored: it yields no message, and no
/// error either.
pub proof fn lemma_textless_ignored(source: Seq<char>, fields: MessageFields)
    requires
        fields.text is None,
    ensures
        decode_event(source, ServiceEvent::Message(fields)) is None,
{
}

} // verus!
