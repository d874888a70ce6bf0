use vstd::prelude::*;
use vstd::utf8::{decode_utf8, valid_utf8};
use crate::topic::{
    command_name, command_of, free_of, join_with, lemma_split_join, split_on, string_views, Command,
    TOPIC_SEPARATOR,
};

verus! {

/// Seconds between keep-alive pings to the broker.
pub const KEEP_ALIVE_SECS: u64 = 10;
/// Requests that may wait for the broker connection before senders block.
pub const REQUEST_QUEUE_CAPACITY: usize = 10;
/// Seconds to wait before polling the broker again after a connection error.
pub const RETRY_DELAY_SECS: u64 = 2;

/// The commands that units publish, in the order they are subscribed to.
pub open spec fn subscribed_commands() -> Seq<Command> {
    seq![
        Command::Attendence,
        Command::Connected,
        Command::Disconnected,
        Command::DeleteSync,
        Command::InsertSync,
        Command::DeleteSyncAck,
        Command::InsertSyncAck,
    ]
}

/// The filter `+/<command>`: that command from any unit.
pub open spec fn command_filter(c: Command) -> Seq<char> {
    "+/"@ + command_name(c)
}

fn filter_for(name: &str) -> (f: String)
    ensures
        f@ == "+/"@ + name@,
{
    String::from_str("+/").concat(name)
}

/// The topic filters the service subscribes to (all at least once).
pub fn subscription_filters() -> (filters: Vec<String>)
    ensures
        string_views(filters@) == subscribed_commands().map_values(|c: Command| command_filter(c)),
{
    let mut filters: Vec<String> = Vec::new();
    filters.push(filter_for("attendence"));
    filters.push(filter_for("connected"));
    filters.push(filter_for("disconnected"));
    filters.push(filter_for("deletesync"));
    filters.push(filter_for("insertsync"));
    filters.push(filter_for("deletesyncack"));
    filters.push(filter_for("insertsyncack"));
    assert(string_views(filters@) =~= subscribed_commands().map_values(|c: Command| command_filter(c)));
    filters
}

/// Every command that the service handles is among the subscribed ones.
pub proof fn lemma_handled_commands_are_subscribed(c: Command)
    requires
        c != Command::Other,
    ensures
        subscribed_commands().contains(c),
        subscribed_commands().map_values(|d: Command| command_filter(d)).contains(command_filter(c)),
{
    let s = subscribed_commands();
    let i: int = match c {
        Command::Attendence => 0,
        Command::Connected => 1,
        Command::Disconnected => 2,
        Command::DeleteSync => 3,
        Command::InsertSync => 4,
        Command::DeleteSyncAck => 5,
        _ => 6,
    };
    assert(s[i] == c);
    assert(s.map_values(|d: Command| command_filter(d))[i] == command_filter(c));
}

/// What the broker connection reported on one poll.
pub enum BrokerEvent {
    /// The broker acknowledged the connection.
    Connected,
    /// A message arrived on `topic` with the raw `payload`.
    Message { topic: String, payload: Vec<u8> },
    /// Any other packet.
    Other,
    /// Polling failed: the connection is down.
    Failed,
}

/// What to do about a broker event.
pub enum ClientAction {
    /// Log that the broker connection is up.
    Announce,
    /// Hand the message to the handler.
    Forward { topic: String, payload: String },
    /// Nothing to do.
    Skip,
    /// Log that the connection is down and poll again after the delay.
    Retry { delay_secs: u64 },
}

/// Calls `String::from_utf8` from std: `Some` exactly when the bytes are
/// well-formed UTF-8, holding the characters they encode.
#[verifier::external_body]
fn string_from_utf8(bytes: Vec<u8>) -> (s: Option<String>)
    ensures
        s is Some <==> valid_utf8(bytes@),
        s matches Some(t) ==> t@ == decode_utf8(bytes@),
{
    String::from_utf8(bytes).ok()
}

/// Decides what to do about one broker event. Messages whose payload is not
/// UTF-8 text are dropped.
pub fn react(event: BrokerEvent) -> (a: ClientAction)
    ensures
        event is Connected ==> a is Announce,
        event is Other ==> a is Skip,
        event is Failed ==> a == (ClientAction::Retry { delay_secs: RETRY_DELAY_SECS }),
        event matches BrokerEvent::Message { topic, payload } ==> if valid_utf8(payload@) {
            a matches ClientAction::Forward { topic: t, payload: p } && t@ == topic@ && p@ == decode_utf8(payload@)
        } else {
            a is Skip
        },
{
    match event {
        BrokerEvent::Connected => ClientAction::Announce,
        BrokerEvent::Message { topic, payload } => match string_from_utf8(payload) {
            Some(text) => ClientAction::Forward { topic, payload: text },
            None => ClientAction::Skip,
        },
        BrokerEvent::Other => ClientAction::Skip,
        BrokerEvent::Failed => ClientAction::Retry { delay_secs: RETRY_DELAY_SECS },
    }
}

/// One level of a topic filter admits one level of a topic: `+` admits any.
pub open spec fn level_admits(filter_level: Seq<char>, topic_level: Seq<char>) -> bool {
    filter_level == "+"@ || filter_level == topic_level
}

/// True when the broker delivers messages on `topic` to a subscription with
/// `filter` (filters here use `+` wildcards only).
pub open spec fn filter_admits(filter: Seq<char>, topic: Seq<char>) -> bool {
    let fs = split_on(filter, TOPIC_SEPARATOR);
    let ts = split_on(topic, TOPIC_SEPARATOR);
    &&& fs.len() == ts.len()
    &&& forall|i: int| 0 <= i < fs.len() ==> level_admits(#[trigger] fs[i], ts[i])
}

/// Naming a command and reading it back gives the command.
proof fn lemma_command_names(c: Command)
    requires
        c != Command::Other,
    ensures
        command_of(command_name(c)) == c,
        free_of(command_name(c), TOPIC_SEPARATOR),
        command_name(c) != "+"@,
{
    reveal_strlit("attendence");
    reveal_strlit("connected");
    reveal_strlit("disconnected");
    reveal_strlit("deletesync");
    reveal_strlit("insertsync");
    reveal_strlit("deletesyncack");
    reveal_strlit("insertsyncack");
    reveal_strlit("+");
    assert("attendence"@.len() == 10 && "attendence"@[0] == 'a');
    assert("connected"@.len() == 9);
    assert("disconnected"@.len() == 12);
    assert("deletesync"@.len() == 10 && "deletesync"@[0] == 'd');
    assert("insertsync"@.len() == 10 && "insertsync"@[0] == 'i');
    assert("deletesyncack"@.len() == 13 && "deletesyncack"@[0] == 'd');
    assert("insertsyncack"@.len() == 13 && "insertsyncack"@[0] == 'i');
    assert(command_name(c).len() > 1);
}

/// The filter of a command splits into the wildcard level and the command level.
proof fn lemma_filter_levels(c: Command)
    requires
        c != Command::Other,
    ensures
        split_on(command_filter(c), TOPIC_SEPARATOR) == seq!["+"@, command_name(c)],
{
    lemma_command_names(c);
    reveal_strlit("+");
    reveal_strlit("+/");
    let parts = seq!["+"@, command_name(c)];
    assert(free_of(parts[0], TOPIC_SEPARATOR));
    lemma_split_join(parts, TOPIC_SEPARATOR);
    assert(parts.drop_last() =~= seq!["+"@]);
    assert(join_with(seq!["+"@], TOPIC_SEPARATOR) == "+"@);
    assert(join_with(parts, TOPIC_SEPARATOR) == "+"@.push('/') + command_name(c));
    assert("+/"@ =~= "+"@.push('/'));
    assert(join_with(parts, TOPIC_SEPARATOR) =~= command_filter(c));
}

/// The subscriptions deliver exactly the topics that the handler acts on:
/// a topic reaches the service if and only if it has two levels and its
/// second level names a command that is handled.
pub proof fn law_subscriptions_match_handled_topics(topic: Seq<char>)
    ensures
        (exists|c: Command| #[trigger] subscribed_commands().contains(c) && filter_admits(command_filter(c), topic))
            <==> (split_on(topic, TOPIC_SEPARATOR).len() == 2 && command_of(split_on(topic, TOPIC_SEPARATOR)[1])
            != Command::Other),
{
    let ts = split_on(topic, TOPIC_SEPARATOR);
    if ts.len() == 2 && command_of(ts[1]) != Command::Other {
        let c = command_of(ts[1]);
        lemma_handled_commands_are_subscribed(c);
        lemma_filter_levels(c);
        assert(ts[1] == command_name(c));
        let fs = split_on(command_filter(c), TOPIC_SEPARATOR);
        assert(level_admits(fs[0], ts[0]));
        assert(level_admits(fs[1], ts[1]));
        assert(filter_admits(command_filter(c), topic));
    }
    assert forall|c: Command| #[trigger] subscribed_commands().contains(c) && filter_admits(command_filter(c), topic)
        implies ts.len() == 2 && command_of(ts[1]) != Command::Other by {
        let i = choose|i: int| 0 <= i < subscribed_commands().len() && subscribed_commands()[i] == c;
        assert(c != Command::Other);
        lemma_filter_levels(c);
        lemma_command_names(c);
        let fs = split_on(command_filter(c), TOPIC_SEPARATOR);
        assert(level_admits(fs[1], ts[1]));
        assert(ts[1] == command_name(c));
    }
}

} // verus!
