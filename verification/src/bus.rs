//! Event-bus client settings. The transport applies them; which settings a
//! producer and a consumer get — the broker address, the fixed consumer
//! group, and manual offset commit — is decided and pinned down here.

use vstd::prelude::*;
use vstd::string::StringExecFns;

verus! {

/// The broker address for a broker port: host `kafka1` at that port.
pub fn broker_address(broker_port: &String) -> (a: String)
    ensures
        a@ == "kafka1:"@ + broker_port@,
{
    let mut a = "kafka1:".to_owned();
    a.append(broker_port.as_str());
    a
}

/// Producer settings for a broker port: the broker address, and a message
/// timeout of five seconds so an unacknowledged send fails rather than
/// hangs.
pub fn create_kafka_producer_config(broker_port: &String) -> (settings: Vec<(String, String)>)
    ensures
        settings@.len() == 2,
        settings@[0].0@ == "bootstrap.servers"@ && settings@[0].1@ == "kafka1:"@ + broker_port@,
        settings@[1].0@ == "message.timeout.ms"@ && settings@[1].1@ == "5000"@,
{
    let mut settings: Vec<(String, String)> = Vec::new();
    settings.push(("bootstrap.servers".to_owned(), broker_address(broker_port)));
    settings.push(("message.timeout.ms".to_owned(), "5000".to_owned()));
    settings
}

/// Consumer settings for a broker port: the broker address, the fixed
/// consumer group, and auto-commit switched off — offsets are committed
/// manually, after a handler decides.
pub fn create_kafka_consumer_config(broker_port: &String) -> (settings: Vec<(String, String)>)
    ensures
        settings@.len() == 3,
        settings@[0].0@ == "bootstrap.servers"@ && settings@[0].1@ == "kafka1:"@ + broker_port@,
        settings@[1].0@ == "group.id"@ && settings@[1].1@ == "solana_quiz_group"@,
        settings@[2].0@ == "enable.auto.commit"@ && settings@[2].1@ == "false"@,
{
    let mut settings: Vec<(String, String)> = Vec::new();
    settings.push(("bootstrap.servers".to_owned(), broker_address(broker_port)));
    settings.push(("group.id".to_owned(), "solana_quiz_group".to_owned()));
    settings.push(("enable.auto.commit".to_owned(), "false".to_owned()));
    settings
}

} // verus!
