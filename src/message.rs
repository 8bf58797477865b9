use vstd::prelude::*;

verus! {

/// What a canonical incoming message says, without its reply handle.
pub struct MessageView {
    pub source_adapter: Seq<char>,
    pub thread: Option<Seq<char>>,
    pub channel: Seq<char>,
    pub author: Option<Seq<char>>,
    pub text: Seq<char>,
}

/// A message received by an adapter, in the form the dispatcher consumes.
///
/// `R` is the reply handle: the producer end of the originating adapter's
/// outgoing queue, through which a reply finds its way back.
#[derive(Clone)]
pub struct IncomingMessage<R> {
    source_adapter: String,
    thread: Option<String>,
    channel: String,
    author: Option<String>,
    text: String,
    reply: R,
}

pub open spec fn opt_view(o: Option<String>) -> Option<Seq<char>> {
    match o {
        Some(s) => Some(s@),
        None => None,
    }
}

impl<R> IncomingMessage<R> {
    pub closed spec fn view(&self) -> MessageView {
        MessageView {
            source_adapter: self.source_adapter@,
            thread: opt_view(self.thread),
            channel: self.channel@,
            author: opt_view(self.author),
            text: self.text@,
        }
    }

    pub closed spec fn reply_spec(&self) -> R {
        self.reply
    }

    pub fn new(
        source_adapter: String,
        thread: Option<String>,
        channel: String,
        author: Option<String>,
        text: String,
        reply: R,
    ) -> (r: Self)
        ensures
            r.view() == (MessageView {
                source_adapter: source_adapter@,
                thread: opt_view(thread),
                channel: channel@,
                author: opt_view(author),
                text: text@,
            }),
            r.reply_spec() == reply,
    {
        IncomingMessage { source_adapter, thread, channel, author, text, reply }
    }

    /// Name of the adapter that received the message.
    pub fn source_adapter(&self) -> (r: &str)
        ensures
            r@ == self.view().source_adapter,
    {
        self.source_adapter.as_str()
    }

    /// The thread or conversation context, where the service gave one.
    pub fn thread(&self) -> (r: &Option<String>)
        ensures
            opt_view(*r) == self.view().thread,
    {
        &self.thread
    }

    /// The channel the message was posted in.
    pub fn channel(&self) -> (r: &str)
        ensures
            r@ == self.view().channel,
    {
        self.channel.as_str()
    }

    /// The author of the message, where the service named one.
    pub fn author(&self) -> (r: &Option<String>)
        ensures
            opt_view(*r) == self.view().author,
    {
        &self.author
    }

    /// The text of the message, as received.
    pub fn get_contents(&self) -> (r: &str)
        ensures
            r@ == self.view().text,
    {
        self.text.as_str()
    }

    /// The handle through which a reply reaches the originating adapter.
    pub fn reply_handle(&self) -> (r: &R)
        ensures
            *r == self.reply_spec(),
    {
        &self.reply
    }
}

/// A reply composed by the bot, bound to the message it answers.
pub struct OutgoingMessage<R> {
    response: String,
    incoming: IncomingMessage<R>,
}

impl<R> OutgoingMessage<R> {
    pub closed spec fn response_spec(&self) -> Seq<char> {
        self.response@
    }

    pub closed spec fn incoming_spec(&self) -> IncomingMessage<R> {
        self.incoming
    }

    pub fn new(response: String, incoming: IncomingMessage<R>) -> (r: Self)
        ensures
            r.response_spec() == response@,
            r.incoming_spec() == incoming,
    {
        OutgoingMessage { response, incoming }
    }

    /// The reply text.
    pub fn response(&self) -> (r: &str)
        ensures
            r@ == self.response_spec(),
    {
        self.response.as_str()
    }

    /// The message this reply answers.
    pub fn get_incoming(&self) -> (r: &IncomingMessage<R>)
        ensures
            *r == self.incoming_spec(),
    {
        &self.incoming
    }
}

/// What travels on an adapter's outgoing queue to its sender unit.
pub enum AdapterMsg<R> {
    /// A reply to deliver to the service.
    Outgoing(OutgoingMessage<R>),
    /// A private message; accepted and not delivered.
    Private(OutgoingMessage<R>),
    /// Stop the sender unit; nothing queued after it is processed.
    Shutdown,
}

} // verus!
