//! A chat-service adapter for a bot: inbound service events become canonical
//! messages on the bot's bus, and replies queued by the bot become outbound
//! requests to the service.

mod addresser;
mod event;
mod message;
mod sender;
mod slack_adapter;

pub use addresser::{addresser_pattern, build_addresser_pattern, regex_accepts, regex_escaped, Addresser};
pub use message::{opt_view, AdapterMsg, IncomingMessage, MessageView, OutgoingMessage};
pub use event::{decode_event, lemma_textless_ignored, EventDecoder, MessageFields, ServiceEvent};
pub use sender::{dispatched, lemma_private_ignored, lemma_shutdown_after_replies, request_for, running_after, sender_step, Action, OutboundRequest, SenderAction, SenderState};
pub use slack_adapter::{lemma_text_kept, slack_adapter_name, AdapterError, ChatAdapter, SlackAdapter};
