use vstd::prelude::*;
use crate::addresser::{addresser_pattern, regex_accepts, Addresser};
use crate::event::{decode_event, EventDecoder, MessageFields, ServiceEvent};

verus! {

#[verifier::external_type_specification]
#[verifier::external_body]
pub struct ExRtmClient(slack::RtmClient);

/// Why an adapter could not be made or started.
#[derive(Debug, PartialEq, Eq, Structural)]
pub enum AdapterError {
    /// The bot name does not give a valid addressing pattern.
    InvalidName,
    /// The adapter was already started: its connection has been handed over.
    AlreadyStarted,
}

/// The name every canonical message from this adapter carries.
pub open spec fn slack_adapter_name() -> Seq<char> {
    seq!['S', 'l', 'a', 'c', 'k', 'A', 'd', 'a', 'p', 't', 'e', 'r']
}

/// What every chat backend offers the dispatcher.
pub trait ChatAdapter {
    /// The name that tags the messages of this adapter.
    spec fn name_spec(&self) -> Seq<char>;

    /// The stable name of the adapter.
    fn get_name(&self) -> (r: &str)
        ensures
            r@ == self.name_spec(),
    ;

    /// The compiled addressing matcher of the adapter.
    spec fn matcher_spec(&self) -> regex::Regex;

    /// The matcher telling whether a message opens with a mention of the bot.
    fn addresser(&self) -> (r: &regex::Regex)
        ensures
            *r == self.matcher_spec(),
    ;
}

/// An adapter for the Slack chat service: it holds the live connection until
/// it is started, the token for outbound calls, and the addressing matcher.
pub struct SlackAdapter {
    api_token: String,
    client: Option<slack::RtmClient>,
    addresser: Addresser,
}

impl SlackAdapter {
    pub closed spec fn token_spec(&self) -> Seq<char> {
        self.api_token@
    }

    pub closed spec fn pattern_spec(&self) -> Seq<char> {
        self.addresser.pattern_spec()
    }

    /// Whether the connection has been handed over to a receiver.
    pub open spec fn started(&self) -> bool {
        self.client_spec() is None
    }

    pub closed spec fn client_spec(&self) -> Option<slack::RtmClient> {
        self.client
    }

    /// An adapter for the bot `bot_name` over the logged-in connection
    /// `client`, posting with `api_token`. Fails with `InvalidName` where the
    /// pattern `^<@bot_name>` does not compile.
    pub fn new(bot_name: &str, api_token: String, client: slack::RtmClient) -> (r: Result<
        SlackAdapter,
        AdapterError,
    >)
        ensures
            r is Ok <==> regex_accepts(addresser_pattern(bot_name@)),
            match r {
                Ok(a) => a.pattern_spec() == addresser_pattern(bot_name@) && a.token_spec()
                    == api_token@ && a.client_spec() == Some(client) && !a.started(),
                Err(e) => e == AdapterError::InvalidName,
            },
    {
        match Addresser::new(bot_name) {
            Some(addresser) => Ok(SlackAdapter { api_token, client: Some(client), addresser }),
            None => Err(AdapterError::InvalidName),
        }
    }

    /// The token for outbound calls.
    pub fn api_token(&self) -> (r: &str)
        ensures
            r@ == self.token_spec(),
    {
        self.api_token.as_str()
    }

    /// The text of the addressing pattern.
    pub fn addresser_pattern(&self) -> (r: &str)
        ensures
            r@ == self.pattern_spec(),
    {
        self.addresser.pattern()
    }

    /// Whether the adapter has been started.
    pub fn is_started(&self) -> (r: bool)
        ensures
            r == self.started(),
    {
        self.client.is_none()
    }

    /// Hands the connection over to the receiver, once: a second call fails
    /// with `AlreadyStarted` and changes nothing.
    pub fn take_client(&mut self) -> (r: Result<slack::RtmClient, AdapterError>)
        ensures
            final(self).token_spec() == old(self).token_spec(),
            final(self).pattern_spec() == old(self).pattern_spec(),
            final(self).matcher_spec() == old(self).matcher_spec(),
            final(self).client_spec() is None,
            match old(self).client_spec() {
                Some(c) => r == Ok::<slack::RtmClient, AdapterError>(c),
                None => r == Err::<slack::RtmClient, AdapterError>(AdapterError::AlreadyStarted),
            },
    {
        match self.client.take() {
            Some(c) => Ok(c),
            None => Err(AdapterError::AlreadyStarted),
        }
    }

    /// The decoder for this adapter's events: it tags each message with the
    /// adapter's name.
    pub fn event_decoder(&self) -> (r: EventDecoder)
        ensures
            r.source_spec() == self.name_spec(),
            r.count_spec() == 0,
    {
        EventDecoder::new(self.get_name().to_owned())
    }
}

impl ChatAdapter for SlackAdapter {
    open spec fn name_spec(&self) -> Seq<char> {
        slack_adapter_name()
    }

    closed spec fn matcher_spec(&self) -> regex::Regex {
        self.addresser.regex_spec()
    }

    fn get_name(&self) -> (r: &str)
        ensures
            r@ == slack_adapter_name(),
    {
        proof {
            reveal_strlit("SlackAdapter");
        }
        "SlackAdapter"
    }

    fn addresser(&self) -> (r: &regex::Regex)
        ensures
            *r == self.matcher_spec(),
    {
        self.addresser.regex()
    }
}

/// A well-formed text event from the service yields a message whose text is
/// the event's text, unchanged, and whose source is the adapter's name.
pub proof fn lemma_text_kept(adapter: SlackAdapter, fields: MessageFields)
    requires
        fields.channel is Some,
        fields.text is Some,
    ensures
        decode_event(adapter.name_spec(), ServiceEvent::Message(fields)) matches Some(m) && m.text
            == fields.text->0@ && m.source_adapter == adapter.name_spec(),
{
}

} // verus!
