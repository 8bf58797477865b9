use vstd::prelude::*;
use crate::message::{AdapterMsg, OutgoingMessage};

verus! {

/// A request to post `text` to `channel` on the service.
pub struct OutboundRequest {
    pub channel: String,
    pub text: String,
}

/// What the sender unit does next.
pub enum SenderAction {
    /// Issue this request to the service.
    Post(OutboundRequest),
    /// Nothing to send for this message; keep waiting for the next one.
    Skip,
    /// Leave the loop; nothing more is processed.
    Stop,
}

/// The meaning of a `SenderAction`.
pub enum Action {
    Post { channel: Seq<char>, text: Seq<char> },
    Skip,
    Stop,
}

impl SenderAction {
    pub open spec fn view(&self) -> Action {
        match self {
            SenderAction::Post(req) => Action::Post { channel: req.channel@, text: req.text@ },
            SenderAction::Skip => Action::Skip,
            SenderAction::Stop => Action::Stop,
        }
    }
}

/// The request that delivers a reply: it goes to the channel of the message
/// it answers, with that message's text.
pub open spec fn request_for<R>(m: OutgoingMessage<R>) -> Action {
    Action::Post {
        channel: m.incoming_spec().view().channel,
        text: m.incoming_spec().view().text,
    }
}

/// One step of the sender unit: from whether it is running and the next
/// value received (`None` when every producer of the queue is gone), to
/// whether it runs on and what it does.
pub open spec fn sender_step<R>(running: bool, msg: Option<AdapterMsg<R>>) -> (bool, Action) {
    if !running {
        (false, Action::Stop)
    } else {
        match msg {
            Some(AdapterMsg::Outgoing(m)) => (true, request_for(m)),
            Some(AdapterMsg::Private(_)) => (true, Action::Skip),
            Some(AdapterMsg::Shutdown) => (false, Action::Stop),
            None => (false, Action::Stop),
        }
    }
}

/// The requests the sender unit issues when fed `msgs` in order, starting in
/// state `running`, when every request succeeds.
pub open spec fn dispatched<R>(running: bool, msgs: Seq<AdapterMsg<R>>) -> Seq<Action>
    decreases msgs.len(),
{
    if msgs.len() == 0 {
        Seq::empty()
    } else {
        let (next, act) = sender_step(running, Some(msgs[0]));
        let rest = dispatched(next, msgs.drop_first());
        match act {
            Action::Post { .. } => seq![act] + rest,
            _ => rest,
        }
    }
}

/// Whether the sender unit still runs after `msgs`, starting in state
/// `running`, when every request succeeds.
pub open spec fn running_after<R>(running: bool, msgs: Seq<AdapterMsg<R>>) -> bool
    decreases msgs.len(),
{
    if msgs.len() == 0 {
        running
    } else {
        running_after(sender_step(running, Some(msgs[0])).0, msgs.drop_first())
    }
}

/// The decisions of an adapter's sender unit. The loop that receives from
/// the outgoing queue and calls the service feeds each value received, and
/// the outcome of each call, to this state.
pub struct SenderState {
    running: bool,
}

impl SenderState {
    pub closed spec fn running_spec(&self) -> bool {
        self.running
    }

    /// A sender unit that has not yet received anything.
    pub fn new() -> (r: Self)
        ensures
            r.running_spec(),
    {
        SenderState { running: true }
    }

    /// Whether the loop goes on.
    pub fn is_running(&self) -> (r: bool)
        ensures
            r == self.running_spec(),
    {
        self.running
    }

    /// Decides what to do with the next value received from the outgoing
    /// queue; `None` stands for a failed receive (every producer gone), which
    /// ends the loop as `Shutdown` does.
    pub fn on_message<R>(&mut self, msg: Option<&AdapterMsg<R>>) -> (r: SenderAction)
        ensures
            ({
                let s = sender_step(
                    old(self).running_spec(),
                    match msg {
                        Some(m) => Some(*m),
                        None => None,
                    },
                );
                final(self).running_spec() == s.0 && r.view() == s.1
            }),
    {
        if !self.running {
            return SenderAction::Stop;
        }
        match msg {
            Some(AdapterMsg::Outgoing(m)) => {
                let incoming = m.get_incoming();
                let channel = incoming.channel().to_owned();
                let text = incoming.get_contents().to_owned();
                SenderAction::Post(OutboundRequest { channel, text })
            },
            Some(AdapterMsg::Private(_)) => SenderAction::Skip,
            Some(AdapterMsg::Shutdown) => {
                self.running = false;
                SenderAction::Stop
            },
            None => {
                self.running = false;
                SenderAction::Stop
            },
        }
    }

    /// Takes in the outcome of a request: a failed request ends the loop.
    pub fn on_post_result(&mut self, delivered: bool)
        ensures
            final(self).running_spec() == (old(self).running_spec() && delivered),
    {
        if !delivered {
            self.running = false;
        }
    }
}

/// A stopped sender unit stays stopped and issues nothing, whatever follows.
proof fn lemma_stopped<R>(msgs: Seq<AdapterMsg<R>>)
    ensures
        dispatched(false, msgs) == Seq::<Action>::empty(),
        !running_after(false, msgs),
    decreases msgs.len(),
{
    if msgs.len() > 0 {
        lemma_stopped(msgs.drop_first());
    }
}

/// After `Shutdown` is queued behind any number of replies, the sender unit
/// issues exactly one request per reply, in the order they were queued, and
/// then stops: nothing queued after `Shutdown` is processed.
pub proof fn lemma_shutdown_after_replies<R>(
    replies: Seq<OutgoingMessage<R>>,
    after: Seq<AdapterMsg<R>>,
)
    ensures
        dispatched(
            true,
            replies.map_values(|m: OutgoingMessage<R>| AdapterMsg::Outgoing(m)) + seq![
                AdapterMsg::Shutdown,
            ] + after,
        ) == replies.map_values(|m: OutgoingMessage<R>| request_for(m)),
        !running_after(
            true,
            replies.map_values(|m: OutgoingMessage<R>| AdapterMsg::Outgoing(m)) + seq![
                AdapterMsg::Shutdown,
            ] + after,
        ),
    decreases replies.len(),
{
    let queued = replies.map_values(|m: OutgoingMessage<R>| AdapterMsg::Outgoing(m)) + seq![
        AdapterMsg::Shutdown,
    ] + after;
    let expected = replies.map_values(|m: OutgoingMessage<R>| request_for(m));
    if replies.len() == 0 {
        assert(queued.drop_first() =~= after);
        lemma_stopped(after);
        assert(dispatched(true, queued) =~= expected);
    } else {
        let tail = replies.drop_first();
        lemma_shutdown_after_replies(tail, after);
        let tail_queued = tail.map_values(|m: OutgoingMessage<R>| AdapterMsg::Outgoing(m)) + seq![
            AdapterMsg::Shutdown,
        ] + after;
        assert(queued[0] == AdapterMsg::Outgoing(replies[0]));
        assert(queued.drop_first() =~= tail_queued);
        assert(expected =~= seq![request_for(replies[0])] + tail.map_values(
            |m: OutgoingMessage<R>| request_for(m),
        ));
    }
}

/// A private message neither stops the sender unit nor produces a request:
/// the sender unit acts on what follows it as if it had not been queued.
pub proof fn lemma_private_ignored<R>(
    running: bool,
    private: OutgoingMessage<R>,
    rest: Seq<AdapterMsg<R>>,
)
    ensures
        sender_step(running, Some(AdapterMsg::Private(private))) == (running, if running {
            Action::Skip
        } else {
            Action::Stop
        }),
        dispatched(running, seq![AdapterMsg::Private(private)] + rest) == dispatched(running, rest),
        running_after(running, seq![AdapterMsg::Private(private)] + rest) == running_after(
            running,
            rest,
        ),
{
    let queued = seq![AdapterMsg::Private(private)] + rest;
    assert(queued.drop_first() =~= rest);
    if !running {
        lemma_stopped(queued);
        lemma_stopped(rest);
    }
}

} // verus!
