//! Dispatch decisions for the event stream: which handler a message goes to,
//! what to do with a message nobody can handle, and when the consumption
//! offset may be committed. The consuming loop itself lives with the
//! transport; every choice it makes is taken from here.

use vstd::prelude::*;
use vstd::string::StringExecFns;
use crate::handler::Disposition;

verus! {

/// The closed set of registered handlers, one per topic.
#[derive(Clone, Copy, Debug, PartialEq, Eq, Structural)]
pub enum TopicHandler {
    /// The handler for the quiz-rewards topic.
    QuizReward,
}

/// What the dispatcher does with one received message.
#[derive(Clone, Copy, Debug, PartialEq, Eq, Structural)]
pub enum DispatchDecision {
    /// Hand the payload to this handler, then commit by its outcome.
    Deliver { handler: TopicHandler },
    /// No handler is registered for the topic: log, skip, and commit.
    SkipUnknownTopic,
    /// The payload is not text: it can never be handled, so log, skip, and
    /// commit.
    SkipUndecodable,
}

/// The handler registered for a topic, if any.
pub fn route_topic(topic: &str) -> (r: Option<TopicHandler>)
    ensures
        r is Some <==> topic@ == "solana-quiz-rewards"@,
        r is Some ==> r == Some(TopicHandler::QuizReward),
{
    if topic.to_owned() == crate::models::rewards_topic().to_owned() {
        Some(TopicHandler::QuizReward)
    } else {
        None
    }
}

/// Decide what to do with one received message: an undecodable payload is
/// skipped and acknowledged, an unknown topic is skipped and acknowledged,
/// and anything else is delivered to the topic's handler.
pub fn dispatch_message(topic: &str, payload_is_text: bool) -> (r: DispatchDecision)
    ensures
        !payload_is_text ==> r == DispatchDecision::SkipUndecodable,
        payload_is_text && topic@ == "solana-quiz-rewards"@ ==> r == (DispatchDecision::Deliver {
            handler: TopicHandler::QuizReward,
        }),
        payload_is_text && topic@ != "solana-quiz-rewards"@ ==> r
            == DispatchDecision::SkipUnknownTopic,
{
    if !payload_is_text {
        return DispatchDecision::SkipUndecodable;
    }
    match route_topic(topic) {
        Some(handler) => DispatchDecision::Deliver { handler },
        None => DispatchDecision::SkipUnknownTopic,
    }
}

/// Whether the consumption offset may be committed after a handler finished
/// with this disposition: always, except when the handler asks for
/// redelivery.
pub fn should_commit(disposition: Disposition) -> (b: bool)
    ensures
        b <==> disposition != Disposition::Retry,
{
    match disposition {
        Disposition::Retry => false,
        _ => true,
    }
}

} // verus!
