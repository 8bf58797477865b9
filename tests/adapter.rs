use chatbot_slack::{
    build_addresser_pattern, AdapterMsg, Addresser, EventDecoder, IncomingMessage, MessageFields, OutgoingMessage,
    SenderAction, SenderState, ServiceEvent,
};

fn text_event(channel: &str, user: &str, text: &str) -> ServiceEvent {
    ServiceEvent::Message(MessageFields {
        channel: Some(channel.to_string()),
        user: Some(user.to_string()),
        text: Some(text.to_string()),
    })
}

fn incoming(channel: &str, text: &str, reply: u32) -> IncomingMessage<u32> {
    IncomingMessage::new(
        "SlackAdapter".to_string(),
        None,
        channel.to_string(),
        Some("U1".to_string()),
        text.to_string(),
        reply,
    )
}

fn outgoing(channel: &str, text: &str) -> AdapterMsg<u32> {
    AdapterMsg::Outgoing(OutgoingMessage::new("reply".to_string(), incoming(channel, text, 0)))
}

fn posted(action: SenderAction) -> (String, String) {
    match action {
        SenderAction::Post(req) => (req.channel, req.text),
        SenderAction::Skip => panic!("expected a post, got a skip"),
        SenderAction::Stop => panic!("expected a post, got a stop"),
    }
}

#[test]
fn addresser_matches_leading_mention() {
    let a = Addresser::new("botname").unwrap();
    assert!(a.regex().is_match("<@botname> hello"));
}

#[test]
fn addresser_rejects_trailing_mention() {
    let a = Addresser::new("botname").unwrap();
    assert!(!a.regex().is_match("hello <@botname>"));
}

#[test]
fn addresser_rejects_plain_text() {
    let a = Addresser::new("botname").unwrap();
    assert!(!a.regex().is_match("hello"));
}

#[test]
fn addresser_pattern_text() {
    let a = Addresser::new("botname").unwrap();
    assert_eq!(a.pattern(), "^<@botname>");
    assert_eq!(a.regex().as_str(), "^<@botname>");
}

#[test]
fn addresser_matches_name_literally() {
    let a = Addresser::new("bot(.").unwrap();
    assert!(a.regex().is_match("<@bot(.> hi"));
    assert!(!a.regex().is_match("<@bot(x> hi"));
}

#[test]
fn addresser_pattern_escapes_name() {
    assert_eq!(build_addresser_pattern("a.b"), "^<@a\\.b>");
}

#[test]
fn addresser_refuses_oversized_name() {
    let name = "a".repeat(2_000_000);
    assert!(Addresser::new(&name).is_none());
}

#[test]
fn text_event_kept_exactly() {
    let mut d = EventDecoder::new("SlackAdapter".to_string());
    let m = d.on_event(text_event("C1", "U1", "  <@bot>  Ping! "), 7u32).unwrap();
    assert_eq!(m.get_contents(), "  <@bot>  Ping! ");
    assert_eq!(m.source_adapter(), "SlackAdapter");
    assert_eq!(m.channel(), "C1");
    assert_eq!(m.author(), &Some("U1".to_string()));
    assert_eq!(m.thread(), &None);
    assert_eq!(*m.reply_handle(), 7);
}

#[test]
fn event_without_text_ignored() {
    let mut d = EventDecoder::new("SlackAdapter".to_string());
    let e = ServiceEvent::Message(MessageFields {
        channel: Some("C1".to_string()),
        user: Some("U1".to_string()),
        text: None,
    });
    assert!(d.on_event(e, 0u32).is_none());
    assert_eq!(d.count(), 1);
}

#[test]
fn event_without_channel_ignored() {
    let mut d = EventDecoder::new("SlackAdapter".to_string());
    let e = ServiceEvent::Message(MessageFields {
        channel: None,
        user: Some("U1".to_string()),
        text: Some("hi".to_string()),
    });
    assert!(d.on_event(e, 0u32).is_none());
}

#[test]
fn event_without_author_kept() {
    let mut d = EventDecoder::new("SlackAdapter".to_string());
    let e = ServiceEvent::Message(MessageFields {
        channel: Some("C9".to_string()),
        user: None,
        text: Some("hi".to_string()),
    });
    let m = d.on_event(e, 0u32).unwrap();
    assert_eq!(m.author(), &None);
    assert_eq!(m.get_contents(), "hi");
}

#[test]
fn other_event_ignored() {
    let mut d = EventDecoder::new("SlackAdapter".to_string());
    assert!(d.on_event(ServiceEvent::Other, 0u32).is_none());
}

#[test]
fn decoder_counts_every_event() {
    let mut d = EventDecoder::new("X".to_string());
    assert_eq!(d.count(), 0);
    d.on_event(ServiceEvent::Other, 0u32);
    d.on_event(text_event("C1", "U1", "a"), 0u32);
    assert_eq!(d.count(), 2);
    assert_eq!(d.source(), "X");
}

#[test]
fn mixed_events_yield_two_messages_in_order() {
    let mut d = EventDecoder::new("SlackAdapter".to_string());
    let events = vec![
        text_event("C1", "U1", "<@bot> ping"),
        ServiceEvent::Other,
        text_event("C1", "U1", "pong"),
    ];
    let mut bus: Vec<IncomingMessage<u32>> = Vec::new();
    for e in events {
        if let Some(m) = d.on_event(e, 0u32) {
            bus.push(m);
        }
    }
    assert_eq!(bus.len(), 2);
    assert_eq!(bus[0].get_contents(), "<@bot> ping");
    assert_eq!(bus[1].get_contents(), "pong");
    assert_eq!(bus[0].channel(), "C1");
    assert_eq!(bus[1].channel(), "C1");
}

#[test]
fn replies_before_shutdown_all_posted_in_order() {
    let queue = vec![
        outgoing("C1", "one"),
        outgoing("C2", "two"),
        outgoing("C3", "three"),
        AdapterMsg::Shutdown,
        outgoing("C4", "late"),
    ];
    let mut s = SenderState::new();
    let mut sent: Vec<(String, String)> = Vec::new();
    for m in queue.iter() {
        match s.on_message(Some(m)) {
            SenderAction::Post(req) => {
                sent.push((req.channel, req.text));
                s.on_post_result(true);
            }
            SenderAction::Skip => {}
            SenderAction::Stop => break,
        }
    }
    assert_eq!(
        sent,
        vec![
            ("C1".to_string(), "one".to_string()),
            ("C2".to_string(), "two".to_string()),
            ("C3".to_string(), "three".to_string()),
        ]
    );
    assert!(!s.is_running());
    assert!(matches!(s.on_message(Some(&queue[4])), SenderAction::Stop));
}

#[test]
fn private_message_skipped() {
    let mut s = SenderState::new();
    let p: AdapterMsg<u32> =
        AdapterMsg::Private(OutgoingMessage::new("psst".to_string(), incoming("C1", "x", 0)));
    assert!(matches!(s.on_message(Some(&p)), SenderAction::Skip));
    assert!(s.is_running());
    assert_eq!(posted(s.on_message(Some(&outgoing("C2", "after")))), ("C2".to_string(), "after".to_string()));
}

#[test]
fn closed_queue_stops_sender() {
    let mut s = SenderState::new();
    assert!(matches!(s.on_message::<u32>(None), SenderAction::Stop));
    assert!(!s.is_running());
}

#[test]
fn failed_post_stops_sender() {
    let mut s = SenderState::new();
    let _ = posted(s.on_message(Some(&outgoing("C1", "x"))));
    s.on_post_result(false);
    assert!(!s.is_running());
    assert!(matches!(s.on_message(Some(&outgoing("C1", "y"))), SenderAction::Stop));
}

#[test]
fn outgoing_message_accessors() {
    let o = OutgoingMessage::new("pong".to_string(), incoming("C5", "ping", 3));
    assert_eq!(o.response(), "pong");
    assert_eq!(o.get_incoming().channel(), "C5");
    assert_eq!(*o.get_incoming().reply_handle(), 3);
}
