use vstd::prelude::*;
use crate::classify::{kind_of, classify_message, MessageKind};
use crate::event::{build_payload, payload_of};

verus! {

/// The fixed replies sent to chat.
#[derive(Clone, Copy, Debug, PartialEq, Eq, Structural)]
pub enum Reply {
    /// `OK`: an article link was forwarded.
    Acknowledge,
    /// `Pong!`: the answer to `!ping`.
    Pong,
}

pub open spec fn reply_text(reply: Reply) -> Seq<char> {
    match reply {
        Reply::Acknowledge => seq!['O', 'K'],
        Reply::Pong => seq!['P', 'o', 'n', 'g', '!'],
    }
}

impl Reply {
    /// The text posted to the channel.
    pub fn text(&self) -> (r: String)
        ensures
            r@ == reply_text(*self),
    {
        match self {
            Reply::Acknowledge => {
                let t = "OK";
                proof {
                    reveal_strlit("OK");
                    assert(t@ =~= reply_text(Reply::Acknowledge));
                }
                t.to_string()
            },
            Reply::Pong => {
                let t = "Pong!";
                proof {
                    reveal_strlit("Pong!");
                    assert(t@ =~= reply_text(Reply::Pong));
                }
                t.to_string()
            },
        }
    }
}

/// The step of outside work that failed.
#[derive(Clone, Copy, Debug, PartialEq, Eq, Structural)]
pub enum Failure {
    /// Credentials or the client session to the pub/sub service.
    Connection,
    /// Checking whether the topic exists.
    TopicCheck,
    /// Creating the topic.
    TopicCreation,
    /// Publishing the event or waiting for its acknowledgment.
    Publish,
}

/// How the handling of one message ended.
#[derive(Clone, Copy, Debug, PartialEq, Eq, Structural)]
pub enum Outcome {
    /// The event was published and `OK` was posted.
    Forwarded,
    /// `Pong!` was posted.
    Answered,
    /// The message asked for nothing.
    Ignored,
    /// The reply could not be posted; anything published stays published.
    ReplyFailed(Reply),
    /// A step before the reply failed; no reply is sent.
    Failed(Failure),
}

/// Where the handling of one message stands.
#[derive(Clone, Copy, Debug, PartialEq, Eq, Structural)]
pub enum Phase {
    /// Waiting for the client session to the pub/sub service.
    Connecting,
    /// Waiting to learn whether the topic exists.
    CheckingTopic,
    /// Waiting for the topic to be created.
    CreatingTopic,
    /// Waiting for the publish acknowledgment.
    Publishing,
    /// Waiting for the publisher to flush and shut down.
    StoppingPublisher,
    /// Waiting for the reply to be posted.
    Replying(Reply),
    /// Nothing more to do.
    Finished(Outcome),
}

/// What the outside work reported.
#[derive(Clone, Copy, Debug, PartialEq, Eq, Structural)]
pub enum Event {
    Connected,
    ConnectFailed,
    /// Whether the topic exists.
    TopicChecked(bool),
    TopicCheckFailed,
    TopicCreated,
    TopicCreateFailed,
    /// The service acknowledged the event with a message id.
    Published,
    PublishFailed,
    PublisherStopped,
    ReplySent,
    ReplyFailed,
}

/// The outside work asked for next.
#[derive(Clone, Copy, Debug, PartialEq, Eq, Structural)]
pub enum Action {
    /// Resolve credentials and open a client session.
    Connect,
    /// Ask whether the topic exists.
    CheckTopic,
    /// Create the topic.
    CreateTopic,
    /// Publish the payload, with the ordering key, and wait for the acknowledgment.
    Publish,
    /// Shut the publisher down.
    StopPublisher,
    /// Post this reply to the originating channel.
    Send(Reply),
    /// Log this failure; handling is over.
    Report(Failure),
    /// Log that the reply could not be posted; handling is over.
    ReportReply(Reply),
    /// Handling is over.
    Finish,
    /// The event does not belong to this phase: do nothing.
    Nothing,
}

/// The phase a message starts in.
pub open spec fn start_phase(text: Seq<char>) -> Phase {
    match kind_of(text) {
        MessageKind::Article => Phase::Connecting,
        MessageKind::Ping => Phase::Replying(Reply::Pong),
        MessageKind::Ignored => Phase::Finished(Outcome::Ignored),
    }
}

/// The first action for a message.
pub open spec fn start_action(text: Seq<char>) -> Action {
    match kind_of(text) {
        MessageKind::Article => Action::Connect,
        MessageKind::Ping => Action::Send(Reply::Pong),
        MessageKind::Ignored => Action::Finish,
    }
}

/// The phase and action that follow an event.
pub open spec fn next(phase: Phase, event: Event) -> (Phase, Action) {
    match (phase, event) {
        (Phase::Connecting, Event::Connected) => (Phase::CheckingTopic, Action::CheckTopic),
        (Phase::Connecting, Event::ConnectFailed) => (
            Phase::Finished(Outcome::Failed(Failure::Connection)),
            Action::Report(Failure::Connection),
        ),
        (Phase::CheckingTopic, Event::TopicChecked(exists)) => if exists {
            (Phase::Publishing, Action::Publish)
        } else {
            (Phase::CreatingTopic, Action::CreateTopic)
        },
        (Phase::CheckingTopic, Event::TopicCheckFailed) => (
            Phase::Finished(Outcome::Failed(Failure::TopicCheck)),
            Action::Report(Failure::TopicCheck),
        ),
        (Phase::CreatingTopic, Event::TopicCreated) => (Phase::Publishing, Action::Publish),
        (Phase::CreatingTopic, Event::TopicCreateFailed) => (
            Phase::Finished(Outcome::Failed(Failure::TopicCreation)),
            Action::Report(Failure::TopicCreation),
        ),
        (Phase::Publishing, Event::Published) => (Phase::StoppingPublisher, Action::StopPublisher),
        (Phase::Publishing, Event::PublishFailed) => (
            Phase::Finished(Outcome::Failed(Failure::Publish)),
            Action::Report(Failure::Publish),
        ),
        (Phase::StoppingPublisher, Event::PublisherStopped) => (
            Phase::Replying(Reply::Acknowledge),
            Action::Send(Reply::Acknowledge),
        ),
        (Phase::Replying(reply), Event::ReplySent) => (
            Phase::Finished(
                match reply {
                    Reply::Acknowledge => Outcome::Forwarded,
                    Reply::Pong => Outcome::Answered,
                },
            ),
            Action::Finish,
        ),
        (Phase::Replying(reply), Event::ReplyFailed) => (
            Phase::Finished(Outcome::ReplyFailed(reply)),
            Action::ReportReply(reply),
        ),
        _ => (phase, Action::Nothing),
    }
}

/// Decides what follows `event` in `phase`.
pub fn transition(phase: Phase, event: Event) -> (r: (Phase, Action))
    ensures
        r == next(phase, event),
{
    match (phase, event) {
        (Phase::Connecting, Event::Connected) => (Phase::CheckingTopic, Action::CheckTopic),
        (Phase::Connecting, Event::ConnectFailed) => (
            Phase::Finished(Outcome::Failed(Failure::Connection)),
            Action::Report(Failure::Connection),
        ),
        (Phase::CheckingTopic, Event::TopicChecked(exists)) => if exists {
            (Phase::Publishing, Action::Publish)
        } else {
            (Phase::CreatingTopic, Action::CreateTopic)
        },
        (Phase::CheckingTopic, Event::TopicCheckFailed) => (
            Phase::Finished(Outcome::Failed(Failure::TopicCheck)),
            Action::Report(Failure::TopicCheck),
        ),
        (Phase::CreatingTopic, Event::TopicCreated) => (Phase::Publishing, Action::Publish),
        (Phase::CreatingTopic, Event::TopicCreateFailed) => (
            Phase::Finished(Outcome::Failed(Failure::TopicCreation)),
            Action::Report(Failure::TopicCreation),
        ),
        (Phase::Publishing, Event::Published) => (Phase::StoppingPublisher, Action::StopPublisher),
        (Phase::Publishing, Event::PublishFailed) => (
            Phase::Finished(Outcome::Failed(Failure::Publish)),
            Action::Report(Failure::Publish),
        ),
        (Phase::StoppingPublisher, Event::PublisherStopped) => (
            Phase::Replying(Reply::Acknowledge),
            Action::Send(Reply::Acknowledge),
        ),
        (Phase::Replying(reply), Event::ReplySent) => {
            let outcome = match reply {
                Reply::Acknowledge => Outcome::Forwarded,
                Reply::Pong => Outcome::Answered,
            };
            (Phase::Finished(outcome), Action::Finish)
        },
        (Phase::Replying(reply), Event::ReplyFailed) => (
            Phase::Finished(Outcome::ReplyFailed(reply)),
            Action::ReportReply(reply),
        ),
        _ => (phase, Action::Nothing),
    }
}

/// The handling of one inbound message: where it stands, the topic it is
/// forwarded to and the event body that is published.
pub struct Relay {
    pub phase: Phase,
    pub topic: String,
    pub payload: String,
}

impl Relay {
    /// Starts handling a message bound for `topic`. An article link gets its
    /// payload built and asks for a connection; `!ping` asks for the `Pong!`
    /// reply; anything else is finished at once.
    pub fn start(text: &str, topic: &str) -> (r: (Relay, Action))
        ensures
            r.0.phase == start_phase(text@),
            r.1 == start_action(text@),
            r.0.topic@ == topic@,
            r.0.payload@ == (if kind_of(text@) == MessageKind::Article {
                payload_of(text@)
            } else {
                Seq::empty()
            }),
    {
        let kind = classify_message(text);
        let topic = topic.to_string();
        match kind {
            MessageKind::Article => {
                let payload = build_payload(text);
                (Relay { phase: Phase::Connecting, topic, payload }, Action::Connect)
            },
            MessageKind::Ping => (
                Relay { phase: Phase::Replying(Reply::Pong), topic, payload: String::new() },
                Action::Send(Reply::Pong),
            ),
            MessageKind::Ignored => (
                Relay {
                    phase: Phase::Finished(Outcome::Ignored),
                    topic,
                    payload: String::new(),
                },
                Action::Finish,
            ),
        }
    }

    /// Takes in what the last action reported and says what to do next.
    pub fn step(&mut self, event: Event) -> (r: Action)
        ensures
            (final(self).phase, r) == next(old(self).phase, event),
            final(self).topic@ == old(self).topic@,
            final(self).payload@ == old(self).payload@,
    {
        let (phase, action) = transition(self.phase, event);
        self.phase = phase;
        action
    }

    /// Whether handling is over.
    pub fn is_finished(&self) -> (r: bool)
        ensures
            r == (self.phase is Finished),
    {
        match self.phase {
            Phase::Finished(_) => true,
            _ => false,
        }
    }
}

/// The actions taken in answer to a run of events, starting from `phase`.
pub open spec fn actions(phase: Phase, events: Seq<Event>) -> Seq<Action>
    decreases events.len(),
{
    if events.len() == 0 {
        Seq::empty()
    } else {
        seq![next(phase, events[0]).1] + actions(next(phase, events[0]).0, events.drop_first())
    }
}

/// The phase reached after a run of events, starting from `phase`.
pub open spec fn reached(phase: Phase, events: Seq<Event>) -> Phase
    decreases events.len(),
{
    if events.len() == 0 {
        phase
    } else {
        reached(next(phase, events[0]).0, events.drop_first())
    }
}

/// How often `a` occurs in `s`.
pub open spec fn occurrences(s: Seq<Action>, a: Action) -> nat
    decreases s.len(),
{
    if s.len() == 0 {
        0
    } else {
        (if s[0] == a { 1nat } else { 0nat }) + occurrences(s.drop_first(), a)
    }
}

/// Publications still ahead of a phase on a successful path.
pub open spec fn publishes_due(phase: Phase) -> nat {
    match phase {
        Phase::Connecting | Phase::CheckingTopic | Phase::CreatingTopic => 1,
        _ => 0,
    }
}

/// `OK` replies still ahead of a phase on a successful path.
pub open spec fn acknowledgments_due(phase: Phase) -> nat {
    match phase {
        Phase::Connecting | Phase::CheckingTopic | Phase::CreatingTopic | Phase::Publishing
        | Phase::StoppingPublisher => 1,
        _ => 0,
    }
}

/// Topic creations still possible ahead of a phase.
pub open spec fn creations_due(phase: Phase) -> nat {
    match phase {
        Phase::Connecting | Phase::CheckingTopic => 1,
        _ => 0,
    }
}

/// The run reached the acknowledgment reply after a successful publish,
/// whether or not the reply could be posted.
pub open spec fn acknowledged_outcome(phase: Phase) -> bool {
    phase == Phase::Finished(Outcome::Forwarded) || phase == Phase::Finished(
        Outcome::ReplyFailed(Reply::Acknowledge),
    )
}

proof fn lemma_occurrences_prepend(a: Action, s: Seq<Action>, b: Action)
    ensures
        occurrences(seq![a] + s, b) == (if a == b { 1nat } else { 0nat }) + occurrences(s, b),
{
    let t = seq![a] + s;
    assert(t.drop_first() =~= s);
}

proof fn lemma_finished_stays(outcome: Outcome, events: Seq<Event>)
    ensures
        reached(Phase::Finished(outcome), events) == Phase::Finished(outcome),
        occurrences(actions(Phase::Finished(outcome), events), Action::Publish) == 0,
        occurrences(actions(Phase::Finished(outcome), events), Action::CreateTopic) == 0,
        forall|r: Reply| occurrences(actions(Phase::Finished(outcome), events), Action::Send(r)) == 0,
    decreases events.len(),
{
    if events.len() > 0 {
        let p = Phase::Finished(outcome);
        lemma_finished_stays(outcome, events.drop_first());
        lemma_occurrences_prepend(Action::Nothing, actions(p, events.drop_first()), Action::Publish);
        lemma_occurrences_prepend(Action::Nothing, actions(p, events.drop_first()), Action::CreateTopic);
        assert forall|r: Reply| occurrences(actions(p, events), Action::Send(r)) == 0 by {
            lemma_occurrences_prepend(Action::Nothing, actions(p, events.drop_first()), Action::Send(r));
        }
    }
}

proof fn lemma_counts(phase: Phase, events: Seq<Event>)
    ensures
        occurrences(actions(phase, events), Action::Publish) <= publishes_due(phase),
        occurrences(actions(phase, events), Action::Send(Reply::Acknowledge))
            <= acknowledgments_due(phase),
        occurrences(actions(phase, events), Action::CreateTopic) <= creations_due(phase),
        acknowledged_outcome(reached(phase, events)) ==> {
            &&& occurrences(actions(phase, events), Action::Publish) == publishes_due(phase)
            &&& occurrences(actions(phase, events), Action::Send(Reply::Acknowledge))
                == acknowledgments_due(phase)
        },
    decreases events.len(),
{
    if events.len() > 0 {
        let (after, a) = next(phase, events[0]);
        let rest = events.drop_first();
        lemma_counts(after, rest);
        lemma_occurrences_prepend(a, actions(after, rest), Action::Publish);
        lemma_occurrences_prepend(a, actions(after, rest), Action::Send(Reply::Acknowledge));
        lemma_occurrences_prepend(a, actions(after, rest), Action::CreateTopic);
        if let Phase::Finished(o) = after {
            lemma_finished_stays(o, rest);
        }
    }
}

/// Handling an article link publishes at most one event, posts `OK` at most
/// once, and creates the topic at most once. A run that gets the event
/// acknowledged and goes on to the reply has published exactly one event and
/// sent exactly one `OK`.
pub proof fn lemma_single_publish(text: Seq<char>, events: Seq<Event>)
    requires
        kind_of(text) == MessageKind::Article,
    ensures
        start_action(text) != Action::Publish,
        occurrences(actions(start_phase(text), events), Action::Publish) <= 1,
        occurrences(actions(start_phase(text), events), Action::Send(Reply::Acknowledge)) <= 1,
        occurrences(actions(start_phase(text), events), Action::CreateTopic) <= 1,
        acknowledged_outcome(reached(start_phase(text), events)) ==> {
            &&& occurrences(actions(start_phase(text), events), Action::Publish) == 1
            &&& occurrences(actions(start_phase(text), events), Action::Send(Reply::Acknowledge))
                == 1
        },
{
    lemma_counts(start_phase(text), events);
}

proof fn lemma_actions_len(phase: Phase, events: Seq<Event>)
    ensures
        actions(phase, events).len() == events.len(),
    decreases events.len(),
{
    if events.len() > 0 {
        lemma_actions_len(next(phase, events[0]).0, events.drop_first());
    }
}

proof fn lemma_create_after_absent(phase: Phase, events: Seq<Event>, i: int)
    requires
        0 <= i < events.len(),
        actions(phase, events)[i] == Action::CreateTopic,
    ensures
        events[i] == Event::TopicChecked(false),
    decreases events.len(),
{
    if i > 0 {
        let after = next(phase, events[0]).0;
        let rest = events.drop_first();
        lemma_actions_len(after, rest);
        assert(actions(phase, events)[i] == actions(after, rest)[i - 1]);
        lemma_create_after_absent(after, rest, i - 1);
    }
}

/// The topic is created only in answer to a check that found it absent:
/// a topic that exists is never created again, however many messages
/// are handled.
pub proof fn lemma_create_only_when_absent(phase: Phase, events: Seq<Event>, i: int)
    requires
        0 <= i < events.len(),
    ensures
        actions(phase, events).len() == events.len(),
        actions(phase, events)[i] == Action::CreateTopic ==> events[i] == Event::TopicChecked(
            false,
        ),
        next(Phase::CheckingTopic, Event::TopicChecked(true)).1 == Action::Publish,
{
    lemma_actions_len(phase, events);
    if actions(phase, events)[i] == Action::CreateTopic {
        lemma_create_after_absent(phase, events, i);
    }
}

/// `!ping` is answered with `Pong!` and any other text that is not an article
/// link gets no reply; neither ever publishes an event.
pub proof fn lemma_non_article_never_publishes(text: Seq<char>, events: Seq<Event>)
    requires
        kind_of(text) != MessageKind::Article,
    ensures
        start_action(text) != Action::Publish,
        occurrences(actions(start_phase(text), events), Action::Publish) == 0,
        occurrences(actions(start_phase(text), events), Action::Send(Reply::Acknowledge)) == 0,
        kind_of(text) == MessageKind::Ping ==> start_action(text) == Action::Send(Reply::Pong),
        kind_of(text) == MessageKind::Ignored ==> {
            &&& start_action(text) == Action::Finish
            &&& forall|r: Reply| occurrences(actions(start_phase(text), events), Action::Send(r)) == 0
        },
{
    lemma_counts(start_phase(text), events);
    if kind_of(text) == MessageKind::Ignored {
        lemma_finished_stays(Outcome::Ignored, events);
    }
}

} // verus!
