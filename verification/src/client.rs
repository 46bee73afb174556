//! The decisions of the NetworkTables client's receive loop: what each message from the server
//! asks of the topic table, which prefix subscription a new topic goes to, and which held-back
//! messages are sent again after a reconnection. Sending on channels and sockets is the caller's.
use vstd::prelude::*;

use crate::nt::{BinaryData, BinaryMessage, Properties, TextMessage};
use crate::topics::TopicTable;

verus! {

/// Any message that is sent to or received from the server's websocket.
#[derive(Debug)]
pub enum NtMessage {
    Text(TextMessage),
    Binary(BinaryMessage),
    /// The connection was made again; the messages that were held back meanwhile, if any.
    Reconnect(Option<Vec<NtMessage>>),
}

/// Whether `prefix` starts `name`, through `str::starts_with`: the documented result is whether
/// the characters of `prefix` are the first characters of `name`.
#[verifier::external_body]
fn str_starts_with(name: &str, prefix: &str) -> (r: bool)
    ensures
        r == prefix@.is_prefix_of(name@),
{
    name.starts_with(prefix)
}

/// Whether `r` is the first index of `prefixes` whose prefix starts `name`, or `None` when none
/// does.
pub open spec fn first_match(prefixes: Seq<String>, name: Seq<char>, r: Option<usize>) -> bool {
    match r {
        Some(i) => i < prefixes.len() && prefixes[i as int]@.is_prefix_of(name) && forall|j: int|
            0 <= j < i ==> !(#[trigger] prefixes[j]@).is_prefix_of(name),
        None => forall|j: int| 0 <= j < prefixes.len() ==> !(#[trigger] prefixes[j]@).is_prefix_of(name),
    }
}

/// The first prefix subscription, by index, whose prefix starts `name`.
pub fn first_prefix(prefixes: &Vec<String>, name: &String) -> (r: Option<usize>)
    ensures
        first_match(prefixes@, name@, r),
{
    let mut i: usize = 0;
    while i < prefixes.len()
        invariant
            i <= prefixes@.len(),
            forall|j: int| 0 <= j < i ==> !(#[trigger] prefixes@[j]@).is_prefix_of(name@),
        decreases prefixes@.len() - i,
    {
        if str_starts_with(name.as_str(), prefixes[i].as_str()) {
            return Some(i);
        }
        i += 1;
    }
    None
}

/// What the receive loop does next with a message.
#[derive(Debug)]
pub enum RecvAction {
    /// A topic with a channel was announced again: hand its channel the type and properties,
    /// then report whether that worked to `TopicTable::reannounce`.
    Reannounce { name: String, id: u32, data_type: String, properties: Properties },
    /// A topic without a channel was announced: make a channel, record it with
    /// `TopicTable::announce`, and offer it, with the type and properties, to the prefix
    /// subscription `prefix` if there is one.
    NewTopic {
        name: String,
        id: u32,
        data_type: String,
        properties: Properties,
        prefix: Option<usize>,
    },
    /// Hand the properties to the channel of topic `name`; where the channel is gone, drop the
    /// topic with `TopicTable::remove_topic`.
    DeliverProperties { name: String, update: Properties },
    /// Hand the value to the channel of the topic with id `id`, then report whether the channel
    /// was gone to `TopicTable::data_sent`.
    DeliverData { id: u32, data: BinaryData },
    /// A time reply: the server's clock read `timestamp` when the request sent at `time`
    /// arrived.
    TimeReply { time: i64, timestamp: u64 },
    /// The connection was made again: synchronise the clock, forget the ids, subscribe and
    /// publish again, and send `replay_backlog` of the held-back messages.
    Reconnect { backlog: Vec<NtMessage> },
    /// Nothing more to do.
    Handled,
    /// A time reply without an integer time: the loop stops with a type error.
    TypeError,
}

/// Whether the client can receive `msg`: a message from the server, or a reconnection that
/// carries the held-back messages.
pub open spec fn receivable(msg: NtMessage) -> bool {
    match msg {
        NtMessage::Text(t) => t is Announce || t is Unannounce || t is Properties,
        NtMessage::Binary(_) => true,
        NtMessage::Reconnect(backlog) => backlog is Some,
    }
}

/// Whether a held-back message is sent again after a reconnection: property changes,
/// subscriptions to at least one topic, unsubscriptions and values are; the rest is dropped.
pub open spec fn replayed(msg: NtMessage) -> bool {
    match msg {
        NtMessage::Text(t) => match t {
            TextMessage::SetProperties { .. } => true,
            TextMessage::Subscribe { topics, .. } => topics.len() > 0,
            TextMessage::Unsubscribe { .. } => true,
            _ => false,
        },
        NtMessage::Binary(_) => true,
        NtMessage::Reconnect(_) => false,
    }
}

/// The held-back messages of `s` that are sent again, in order.
pub open spec fn replay_of(s: Seq<NtMessage>) -> Seq<NtMessage>
    decreases s.len(),
{
    if s.len() == 0 {
        Seq::empty()
    } else if replayed(s.last()) {
        replay_of(s.drop_last()).push(s.last())
    } else {
        replay_of(s.drop_last())
    }
}

/// The held-back messages that are sent again after a reconnection, in order; values are sent
/// with a new timestamp by the caller.
pub fn replay_backlog(backlog: Vec<NtMessage>) -> (out: Vec<NtMessage>)
    ensures
        out@ == replay_of(backlog@),
{
    let ghost all = backlog@;
    let mut backlog = backlog;
    let mut out: Vec<NtMessage> = Vec::new();
    let mut i: usize = 0;
    let n = backlog.len();
    while backlog.len() > 0
        invariant
            backlog@ == all.subrange(i as int, all.len() as int),
            i <= all.len(),
            all.len() == n,
            out@ == replay_of(all.subrange(0, i as int)),
        decreases backlog@.len(),
    {
        let m = backlog.remove(0);
        proof {
            assert(m == all[i as int]);
            assert(all.subrange(0, i + 1).drop_last() =~= all.subrange(0, i as int));
        }
        let keep = match &m {
            NtMessage::Text(t) => match t {
                TextMessage::SetProperties { .. } => true,
                TextMessage::Subscribe { topics, .. } => topics.len() > 0,
                TextMessage::Unsubscribe { .. } => true,
                _ => false,
            },
            NtMessage::Binary(_) => true,
            NtMessage::Reconnect(_) => false,
        };
        if keep {
            out.push(m);
        }
        i += 1;
        proof {
            assert(backlog@ =~= all.subrange(i as int, all.len() as int));
        }
    }
    proof {
        assert(all.subrange(0, i as int) =~= all);
    }
    out
}

impl<S> TopicTable<S> {
    /// Takes one message from the server. A withdrawn topic leaves the table here; every other
    /// change of the table follows from the action, once its sending is done. `prefixes` are the
    /// prefixes of the prefix subscriptions, in order.
    pub fn on_message(&mut self, prefixes: &Vec<String>, msg: NtMessage) -> (a: RecvAction)
        requires
            old(self).wf(),
            receivable(msg),
        ensures
            final(self).wf(),
            match msg {
                NtMessage::Text(TextMessage::Announce { name, id, data_type, properties, .. }) => {
                    &&& final(self).topics() == old(self).topics()
                    &&& final(self).ids() == old(self).ids()
                    &&& if old(self).topics().dom().contains(name@) {
                        a == RecvAction::Reannounce { name, id, data_type, properties }
                    } else {
                        exists|p: Option<usize>|
                            first_match(prefixes@, name@, p) && a == (RecvAction::NewTopic {
                                name,
                                id,
                                data_type,
                                properties,
                                prefix: p,
                            })
                    }
                },
                NtMessage::Text(TextMessage::Unannounce { name, id }) => {
                    &&& final(self).topics() == old(self).topics().remove(name@)
                    &&& final(self).ids() == old(self).ids().remove(id)
                    &&& a is Handled
                },
                NtMessage::Text(TextMessage::Properties { name, update, .. }) => {
                    &&& final(self).topics() == old(self).topics()
                    &&& final(self).ids() == old(self).ids()
                    &&& if old(self).topics().dom().contains(name@) {
                        a == RecvAction::DeliverProperties { name, update }
                    } else {
                        a is Handled
                    }
                },
                NtMessage::Binary(m) => {
                    &&& final(self).topics() == old(self).topics()
                    &&& final(self).ids() == old(self).ids()
                    &&& if m.id == -1 {
                        match m.data {
                            BinaryData::Int(time) => a == RecvAction::TimeReply {
                                time,
                                timestamp: m.timestamp,
                            },
                            _ => a is TypeError,
                        }
                    } else if old(self).ids().dom().contains(m.id as u32) && old(
                        self,
                    ).topics().dom().contains(old(self).ids()[m.id as u32]) {
                        a == RecvAction::DeliverData { id: m.id as u32, data: m.data }
                    } else {
                        a is Handled
                    }
                },
                NtMessage::Reconnect(backlog) => {
                    &&& final(self).topics() == old(self).topics()
                    &&& final(self).ids() == old(self).ids()
                    &&& a == RecvAction::Reconnect { backlog: backlog.unwrap() }
                },
                _ => true,
            },
    {
        match msg {
            NtMessage::Text(t) => match t {
                TextMessage::Announce { name, id, data_type, pubuid: _, properties } => {
                    if self.topic(&name).is_some() {
                        RecvAction::Reannounce { name, id, data_type, properties }
                    } else {
                        let prefix = first_prefix(prefixes, &name);
                        RecvAction::NewTopic { name, id, data_type, properties, prefix }
                    }
                },
                TextMessage::Unannounce { name, id } => {
                    self.unannounce(&name, id);
                    RecvAction::Handled
                },
                TextMessage::Properties { name, ack: _, update } => {
                    if self.topic(&name).is_some() {
                        RecvAction::DeliverProperties { name, update }
                    } else {
                        RecvAction::Handled
                    }
                },
                _ => RecvAction::Handled,
            },
            NtMessage::Binary(m) => {
                if m.id == -1 {
                    match m.data {
                        BinaryData::Int(time) => RecvAction::TimeReply { time, timestamp: m.timestamp },
                        _ => RecvAction::TypeError,
                    }
                } else {
                    let id = m.id as u32;
                    let known = match self.topic_name(id) {
                        Some(name) => self.topic(name).is_some(),
                        None => false,
                    };
                    if known {
                        RecvAction::DeliverData { id, data: m.data }
                    } else {
                        RecvAction::Handled
                    }
                }
            },
            NtMessage::Reconnect(backlog) => match backlog {
                Some(b) => RecvAction::Reconnect { backlog: b },
                None => RecvAction::Handled,
            },
        }
    }
}

} // verus!
