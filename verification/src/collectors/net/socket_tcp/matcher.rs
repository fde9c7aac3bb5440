//! Pairing the requests and responses seen on sockets.
//!
//! A request waits in a table under its connection (process, descriptor, peer address)
//! until the response on that connection arrives; the pair then leaves as one event.
//! Connections this host opened and connections it accepted are kept apart.
use vstd::prelude::*;

use crate::collectors::net::socket_tcp::event::{spec_event_of, Event, InnerEvent};
use crate::protocol::{ParsedFrame, ProtoParser};
use crate::types::net::Addr;

verus! {

/// Which side opened a connection, as the kernel program reports it.
#[derive(Debug, Clone, Copy, PartialEq, Eq, Structural)]
pub enum ConnectionKind {
    Unknown,
    Active,
    Positive,
}

impl From<u32> for ConnectionKind {
    fn from(value: u32) -> (r: Self) {
        if value == 1 {
            ConnectionKind::Active
        } else if value == 2 {
            ConnectionKind::Positive
        } else {
            ConnectionKind::Unknown
        }
    }
}

impl vstd::std_specs::convert::FromSpecImpl<u32> for ConnectionKind {
    open spec fn obeys_from_spec() -> bool {
        true
    }

    open spec fn from_spec(v: u32) -> ConnectionKind {
        if v == 1 {
            ConnectionKind::Active
        } else if v == 2 {
            ConnectionKind::Positive
        } else {
            ConnectionKind::Unknown
        }
    }
}

/// Which way data went, as the kernel program reports it.
#[derive(Debug, Clone, Copy, PartialEq, Eq, Structural)]
pub enum FlowDirection {
    Unknown,
    Ingress,
    Egress,
}

impl From<u32> for FlowDirection {
    fn from(value: u32) -> (r: Self) {
        if value == 1 {
            FlowDirection::Ingress
        } else if value == 2 {
            FlowDirection::Egress
        } else {
            FlowDirection::Unknown
        }
    }
}

impl vstd::std_specs::convert::FromSpecImpl<u32> for FlowDirection {
    open spec fn obeys_from_spec() -> bool {
        true
    }

    open spec fn from_spec(v: u32) -> FlowDirection {
        if v == 1 {
            FlowDirection::Ingress
        } else if v == 2 {
            FlowDirection::Egress
        } else {
            FlowDirection::Unknown
        }
    }
}

/// What an event is to the matcher.
#[derive(Debug, Clone, Copy, PartialEq, Eq, Structural)]
pub enum Role {
    /// A request on a connection this host opened.
    ActiveRequest,
    /// A response on a connection this host opened.
    ActiveResponse,
    /// A request on a connection this host accepted.
    PassiveRequest,
    /// A response on a connection this host accepted.
    PassiveResponse,
    /// Neither.
    Ignored,
}

/// The role of an event with the given kind and direction: on an opened connection the
/// host sends the request, on an accepted one it receives it.
pub open spec fn spec_role(conn_kind: u32, flow_direct: u32) -> Role {
    if conn_kind == 1 && flow_direct == 2 {
        Role::ActiveRequest
    } else if conn_kind == 1 && flow_direct == 1 {
        Role::ActiveResponse
    } else if conn_kind == 2 && flow_direct == 1 {
        Role::PassiveRequest
    } else if conn_kind == 2 && flow_direct == 2 {
        Role::PassiveResponse
    } else {
        Role::Ignored
    }
}

/// The role of an event.
pub fn role_of(conn_kind: u32, flow_direct: u32) -> (r: Role)
    ensures
        r == spec_role(conn_kind, flow_direct),
{
    let kind = ConnectionKind::from(conn_kind);
    let dir = FlowDirection::from(flow_direct);
    match (kind, dir) {
        (ConnectionKind::Active, FlowDirection::Egress) => Role::ActiveRequest,
        (ConnectionKind::Active, FlowDirection::Ingress) => Role::ActiveResponse,
        (ConnectionKind::Positive, FlowDirection::Ingress) => Role::PassiveRequest,
        (ConnectionKind::Positive, FlowDirection::Egress) => Role::PassiveResponse,
        _ => Role::Ignored,
    }
}

/// The connection of an event: process, descriptor and the peer address's bytes.
pub open spec fn conn_key(e: InnerEvent) -> (u32, u32, Seq<u8>) {
    (e.pid, e.fd, e.remote_addr.octets@)
}

/// A request waiting for its response.
#[derive(Debug, Clone)]
pub struct Pending {
    pub pid: u32,
    pub fd: u32,
    pub addr: Addr,
    pub event: Event,
}

pub open spec fn pending_key(p: Pending) -> (u32, u32, Seq<u8>) {
    (p.pid, p.fd, p.addr.octets@)
}

/// The requests of a sequence of pending entries by connection, later entries winning.
pub open spec fn table_map(s: Seq<Pending>) -> Map<(u32, u32, Seq<u8>), Event>
    decreases s.len(),
{
    if s.len() == 0 {
        Map::empty()
    } else {
        table_map(s.drop_last()).insert(pending_key(s.last()), s.last().event)
    }
}

/// No connection occurs twice.
pub open spec fn distinct_keys(s: Seq<Pending>) -> bool {
    forall|i: int, j: int| 0 <= i < j < s.len() ==> pending_key(s[i]) != pending_key(s[j])
}

proof fn lemma_table_dom(s: Seq<Pending>, k: (u32, u32, Seq<u8>))
    ensures
        table_map(s).dom().contains(k) <==> exists|i: int| 0 <= i < s.len() && pending_key(s[i]) == k,
    decreases s.len(),
{
    if s.len() > 0 {
        lemma_table_dom(s.drop_last(), k);
        if table_map(s).dom().contains(k) && k != pending_key(s.last()) {
            let i = choose|i: int| 0 <= i < s.drop_last().len() && pending_key(s.drop_last()[i]) == k;
            assert(pending_key(s[i]) == k);
        }
        if exists|i: int| 0 <= i < s.len() && pending_key(s[i]) == k {
            let i = choose|i: int| 0 <= i < s.len() && pending_key(s[i]) == k;
            if i < s.len() - 1 {
                assert(pending_key(s.drop_last()[i]) == k);
            }
        }
    }
}

proof fn lemma_table_get(s: Seq<Pending>, i: int)
    requires
        distinct_keys(s),
        0 <= i < s.len(),
    ensures
        table_map(s).dom().contains(pending_key(s[i])),
        table_map(s)[pending_key(s[i])] == s[i].event,
    decreases s.len(),
{
    if i < s.len() - 1 {
        assert(distinct_keys(s.drop_last()));
        lemma_table_get(s.drop_last(), i);
        assert(s.drop_last()[i] == s[i]);
    }
}

proof fn lemma_table_remove(s: Seq<Pending>, i: int)
    requires
        distinct_keys(s),
        0 <= i < s.len(),
    ensures
        table_map(s.remove(i)) == table_map(s).remove(pending_key(s[i])),
        distinct_keys(s.remove(i)),
    decreases s.len(),
{
    let k = pending_key(s[i]);
    if i == s.len() - 1 {
        assert(s.remove(i) =~= s.drop_last());
        if table_map(s.drop_last()).dom().contains(k) {
            lemma_table_dom(s.drop_last(), k);
            let j = choose|j: int| 0 <= j < s.drop_last().len() && pending_key(s.drop_last()[j]) == k;
            assert(pending_key(s[j]) == k);
        }
        assert(table_map(s.remove(i)) =~= table_map(s).remove(k));
    } else {
        let t = s.drop_last();
        assert(distinct_keys(t));
        lemma_table_remove(t, i);
        assert(t[i] == s[i]);
        assert(s.remove(i).drop_last() =~= t.remove(i));
        assert(s.remove(i).last() == s.last());
        assert(pending_key(s.last()) != k);
        assert(table_map(s.remove(i)) =~= table_map(s).remove(k));
    }
}

proof fn lemma_table_push(s: Seq<Pending>, p: Pending)
    ensures
        table_map(s.push(p)) == table_map(s).insert(pending_key(p), p.event),
{
    assert(s.push(p).drop_last() =~= s);
}

/// The position of the connection's entry in `entries`, if it has one.
fn find_entry(entries: &Vec<Pending>, pid: u32, fd: u32, addr: &Addr) -> (r: Option<usize>)
    requires
        distinct_keys(entries@),
    ensures
        match r {
            Some(i) => i < entries@.len() && pending_key(entries@[i as int]) == (pid, fd, addr.octets@),
            None => !table_map(entries@).dom().contains((pid, fd, addr.octets@)),
        },
{
    let mut i: usize = 0;
    while i < entries.len()
        invariant
            i <= entries@.len(),
            forall|j: int| 0 <= j < i ==> pending_key(#[trigger] entries@[j]) != (pid, fd, addr.octets@),
        decreases entries@.len() - i,
    {
        let e = &entries[i];
        if e.pid == pid && e.fd == fd && crate::types::net::addr_eq(&e.addr, addr) {
            return Some(i);
        }
        i = i + 1;
    }
    proof {
        lemma_table_dom(entries@, (pid, fd, addr.octets@));
    }
    None
}

/// Requests waiting for their responses, at most one per connection.
#[derive(Debug)]
pub struct ConnTable {
    entries: Vec<Pending>,
}

impl ConnTable {
    /// The waiting request of each connection.
    pub closed spec fn view(&self) -> Map<(u32, u32, Seq<u8>), Event> {
        table_map(self.entries@)
    }

    /// No connection has two entries.
    #[verifier::type_invariant]
    spec fn keys_distinct(self) -> bool {
        distinct_keys(self.entries@)
    }

    /// A table with nothing waiting.
    pub fn new() -> (r: Self)
        ensures
            r.view() == Map::<(u32, u32, Seq<u8>), Event>::empty(),
    {
        ConnTable { entries: Vec::new() }
    }

    /// Puts `event` as the connection's waiting request, in place of any earlier one.
    pub fn insert(&mut self, pid: u32, fd: u32, addr: Addr, event: Event)
        ensures
            final(self).view() == old(self).view().insert((pid, fd, addr.octets@), event),
    {
        proof {
            use_type_invariant(&*self);
        }
        let mut entries: Vec<Pending> = Vec::new();
        std::mem::swap(&mut entries, &mut self.entries);
        let ghost start = entries@;
        let k = Ghost((pid, fd, addr.octets@));
        match find_entry(&entries, pid, fd, &addr) {
            Some(i) => {
                proof {
                    lemma_table_remove(entries@, i as int);
                }
                let _ = entries.remove(i);
            },
            None => {
                proof {
                    assert(table_map(start).remove(k@) =~= table_map(start));
                }
            },
        }
        let ghost before = entries@;
        let p = Pending { pid, fd, addr, event };
        entries.push(p);
        proof {
            lemma_table_push(before, p);
            assert forall|i: int, j: int| 0 <= i < j < entries@.len() implies pending_key(entries@[i])
                != pending_key(entries@[j]) by {
                if j == before.len() {
                    lemma_table_dom(before, k@);
                    assert(before[i] == entries@[i]);
                } else {
                    assert(before[i] == entries@[i]);
                    assert(before[j] == entries@[j]);
                }
            }
            assert(table_map(entries@) =~= table_map(start).insert(k@, event));
        }
        self.entries = entries;
    }

    /// Takes out the connection's waiting request, if it has one.
    pub fn remove(&mut self, pid: u32, fd: u32, addr: &Addr) -> (r: Option<Event>)
        ensures
            final(self).view() == old(self).view().remove((pid, fd, addr.octets@)),
            r == old(self).view().get((pid, fd, addr.octets@)),
    {
        proof {
            use_type_invariant(&*self);
        }
        let mut entries: Vec<Pending> = Vec::new();
        std::mem::swap(&mut entries, &mut self.entries);
        let ghost start = entries@;
        let r = match find_entry(&entries, pid, fd, addr) {
            Some(i) => {
                proof {
                    lemma_table_remove(entries@, i as int);
                    lemma_table_get(entries@, i as int);
                }
                let p = entries.remove(i);
                Some(p.event)
            },
            None => {
                proof {
                    assert(table_map(start).remove((pid, fd, addr.octets@)) =~= table_map(start));
                }
                None
            },
        };
        self.entries = entries;
        r
    }

    /// The timestamp of the connection's waiting request, if it has one.
    pub fn timestamp_of(&self, pid: u32, fd: u32, addr: &Addr) -> (r: Option<u64>)
        ensures
            r == (if self.view().dom().contains((pid, fd, addr.octets@)) {
                Some(self.view()[(pid, fd, addr.octets@)].timestamp)
            } else {
                None::<u64>
            }),
    {
        proof {
            use_type_invariant(self);
        }
        match find_entry(&self.entries, pid, fd, addr) {
            Some(i) => {
                proof {
                    lemma_table_get(self.entries@, i as int);
                }
                Some(self.entries[i].event.timestamp)
            },
            None => None,
        }
    }
}

/// The event a request leaves waiting: taken from the kernel's report, with the request's
/// payload and target.
pub open spec fn spec_request(e: InnerEvent, payload: Option<String>, target: Option<String>) -> Event {
    let base = spec_event_of(e);
    Event { req_body: payload, target: target, ..base }
}

/// A waiting request completed by its response: the response's size, time and payload,
/// and the time between the two.
pub open spec fn spec_completed(req: Event, e: InnerEvent, payload: Option<String>) -> Event {
    Event {
        response_size: e.size,
        duration: (e.timestamp - req.timestamp) as u64,
        timestamp: e.timestamp,
        resp_body: payload,
        ..req
    }
}

/// The tables after a request is recorded in one of them.
pub open spec fn spec_record(
    table: Map<(u32, u32, Seq<u8>), Event>,
    e: InnerEvent,
    payload: Option<String>,
    target: Option<String>,
) -> Map<(u32, u32, Seq<u8>), Event> {
    table.insert(conn_key(e), spec_request(e, payload, target))
}

/// The table after a response looks for its request in it, and what it finds.
pub open spec fn spec_answer(table: Map<(u32, u32, Seq<u8>), Event>, e: InnerEvent, payload: Option<String>) -> (
    Map<(u32, u32, Seq<u8>), Event>,
    Option<Event>,
) {
    if table.dom().contains(conn_key(e)) {
        (table.remove(conn_key(e)), Some(spec_completed(table[conn_key(e)], e, payload)))
    } else {
        (table, None)
    }
}

/// One step of the matcher on the opened-connection table `active` and the
/// accepted-connection table `passive`: the tables after it and the completed exchange.
pub open spec fn spec_step(
    active: Map<(u32, u32, Seq<u8>), Event>,
    passive: Map<(u32, u32, Seq<u8>), Event>,
    e: InnerEvent,
    payload: Option<String>,
    target: Option<String>,
) -> (Map<(u32, u32, Seq<u8>), Event>, Map<(u32, u32, Seq<u8>), Event>, Option<Event>) {
    match spec_role(e.conn_kind, e.flow_direct) {
        Role::ActiveRequest => (spec_record(active, e, payload, target), passive, None),
        Role::ActiveResponse => {
            let (a, r) = spec_answer(active, e, payload);
            (a, passive, r)
        },
        Role::PassiveRequest => (active, spec_record(passive, e, payload, target), None),
        Role::PassiveResponse => {
            let (p, r) = spec_answer(passive, e, payload);
            (active, p, r)
        },
        Role::Ignored => (active, passive, None),
    }
}

/// A response comes no earlier than the request it answers (the time between them is
/// not negative).
pub open spec fn spec_in_order(
    active: Map<(u32, u32, Seq<u8>), Event>,
    passive: Map<(u32, u32, Seq<u8>), Event>,
    e: InnerEvent,
) -> bool {
    match spec_role(e.conn_kind, e.flow_direct) {
        Role::ActiveResponse => active.dom().contains(conn_key(e)) ==> active[conn_key(e)].timestamp
            <= e.timestamp,
        Role::PassiveResponse => passive.dom().contains(conn_key(e)) ==> passive[conn_key(e)].timestamp
            <= e.timestamp,
        _ => true,
    }
}

/// Pairs requests with responses, parsing payloads with `T`.
pub struct EventMatcher<T> {
    passive_conns: ConnTable,
    active_conns: ConnTable,
    proto_parser: T,
    verbose: bool,
}

impl<T: ProtoParser> EventMatcher<T> {
    /// Requests waiting on connections this host opened.
    pub closed spec fn active(&self) -> Map<(u32, u32, Seq<u8>), Event> {
        self.active_conns.view()
    }

    /// Requests waiting on connections this host accepted.
    pub closed spec fn passive(&self) -> Map<(u32, u32, Seq<u8>), Event> {
        self.passive_conns.view()
    }

    pub closed spec fn parser(&self) -> T {
        self.proto_parser
    }

    pub closed spec fn is_verbose(&self) -> bool {
        self.verbose
    }

    /// A matcher with nothing waiting.
    pub fn new(proto_parser: T, verbose: bool) -> (r: Self)
        ensures
            r.active() == Map::<(u32, u32, Seq<u8>), Event>::empty(),
            r.passive() == Map::<(u32, u32, Seq<u8>), Event>::empty(),
            r.parser() == proto_parser,
            r.is_verbose() == verbose,
    {
        EventMatcher { passive_conns: ConnTable::new(), active_conns: ConnTable::new(), proto_parser, verbose }
    }

    /// True when `event`, if it is a response, comes no earlier than its waiting request.
    pub fn is_in_order(&self, event: &InnerEvent) -> (r: bool)
        ensures
            r == spec_in_order(self.active(), self.passive(), *event),
    {
        let role = role_of(event.conn_kind, event.flow_direct);
        let stamp = match role {
            Role::ActiveResponse => self.active_conns.timestamp_of(event.pid, event.fd, &event.remote_addr),
            Role::PassiveResponse => self.passive_conns.timestamp_of(event.pid, event.fd, &event.remote_addr),
            _ => None,
        };
        match stamp {
            Some(t) => t <= event.timestamp,
            None => true,
        }
    }

    /// Takes one event whose payload parsed to `payload` and `target`: a request waits
    /// under its connection, a response completes and returns the waiting request.
    pub fn apply(&mut self, event: &InnerEvent, payload: Option<String>, target: Option<String>) -> (r: Option<Event>)
        requires
            spec_in_order(old(self).active(), old(self).passive(), *event),
        ensures
            final(self).parser() == old(self).parser(),
            final(self).is_verbose() == old(self).is_verbose(),
            (final(self).active(), final(self).passive(), r) == spec_step(
                old(self).active(),
                old(self).passive(),
                *event,
                payload,
                target,
            ),
    {
        match role_of(event.conn_kind, event.flow_direct) {
            Role::ActiveRequest => {
                Self::record(&mut self.active_conns, event, payload, target);
                None
            },
            Role::ActiveResponse => Self::answer(&mut self.active_conns, event, payload),
            Role::PassiveRequest => {
                Self::record(&mut self.passive_conns, event, payload, target);
                None
            },
            Role::PassiveResponse => Self::answer(&mut self.passive_conns, event, payload),
            Role::Ignored => None,
        }
    }

    fn record(conns: &mut ConnTable, i_event: &InnerEvent, payload: Option<String>, target: Option<String>)
        ensures
            final(conns).view() == spec_record(old(conns).view(), *i_event, payload, target),
    {
        let mut event = Event::from(*i_event);
        event.req_body = payload;
        event.target = target;
        assert(event == spec_request(*i_event, payload, target));
        conns.insert(i_event.pid, i_event.fd, i_event.remote_addr, event);
    }

    fn answer(conns: &mut ConnTable, i_event: &InnerEvent, payload: Option<String>) -> (r: Option<Event>)
        requires
            old(conns).view().dom().contains(conn_key(*i_event)) ==> old(conns).view()[conn_key(
                *i_event,
            )].timestamp <= i_event.timestamp,
        ensures
            (final(conns).view(), r) == spec_answer(old(conns).view(), *i_event, payload),
    {
        let found = conns.remove(i_event.pid, i_event.fd, &i_event.remote_addr);
        match found {
            Some(mut event) => {
                event.response_size = i_event.size;
                event.duration = i_event.timestamp - event.timestamp;
                event.timestamp = i_event.timestamp;
                event.resp_body = payload;
                Some(event)
            },
            None => None,
        }
    }

    /// Takes one event from the kernel: its payload is parsed, then a request waits under
    /// its connection with the frame's payload and target, and a response returns the
    /// completed exchange with the frame's payload as the response body. An event whose
    /// payload does not parse changes nothing. A response that would complete a request
    /// stamped later than itself is refused, changing nothing.
    pub fn try_match_in_order(&mut self, event: InnerEvent) -> (r: Result<Option<Event>, ()>)
        ensures
            final(self).parser() == old(self).parser(),
            final(self).is_verbose() == old(self).is_verbose(),
            exists|parsed: Option<T::Output>|
                #[trigger] old(self).parser().parses(
                    event.buffer@,
                    event.size as usize,
                    old(self).is_verbose(),
                    parsed,
                ) && match parsed {
                    None => r == Ok::<Option<Event>, ()>(None) && final(self).active() == old(self).active()
                        && final(self).passive() == old(self).passive(),
                    Some(frame) => if spec_in_order(old(self).active(), old(self).passive(), event) {
                        exists|
                            payload: Option<String>,
                            emptied: T::Output,
                            target: Option<String>,
                            done: T::Output,
                        |
                            #[trigger] frame.gives_payload(payload, emptied) && #[trigger] emptied.gives_target(
                                target,
                                done,
                            ) && r is Ok && (final(self).active(), final(self).passive(), r->Ok_0) == spec_step(
                                old(self).active(),
                                old(self).passive(),
                                event,
                                payload,
                                target,
                            )
                    } else {
                        r is Err && final(self).active() == old(self).active() && final(self).passive()
                            == old(self).passive()
                    },
                },
    {
        let parsed = self.proto_parser.parse(event.buffer.as_slice(), event.size as usize, self.verbose);
        let ghost g = parsed;
        assert(old(self).parser().parses(event.buffer@, event.size as usize, old(self).is_verbose(), g));
        match parsed {
            None => Ok(None),
            Some(mut frame) => {
                if !self.is_in_order(&event) {
                    return Err(());
                }
                let ghost f0 = frame;
                let payload = frame.payload();
                let ghost f1 = frame;
                let target = frame.target();
                let ghost f2 = frame;
                assert(f0.gives_payload(payload, f1) && f1.gives_target(target, f2));
                let r = self.apply(&event, payload, target);
                assert((self.active(), self.passive(), r) == spec_step(
                    old(self).active(),
                    old(self).passive(),
                    event,
                    payload,
                    target,
                ));
                Ok(r)
            },
        }
    }

    /// Takes one event from the kernel: its payload is parsed, then a request waits under
    /// its connection with the frame's payload and target, and a response returns the
    /// completed exchange with the frame's payload as the response body. An event whose
    /// payload does not parse changes nothing.
    pub fn try_match(&mut self, event: InnerEvent) -> (r: Option<Event>)
        requires
            forall|f: T::Output|
                #[trigger] old(self).parser().parses(event.buffer@, event.size as usize, old(self).is_verbose(), Some(f))
                    ==> spec_in_order(old(self).active(), old(self).passive(), event),
        ensures
            final(self).parser() == old(self).parser(),
            final(self).is_verbose() == old(self).is_verbose(),
            exists|parsed: Option<T::Output>|
                #[trigger] old(self).parser().parses(
                    event.buffer@,
                    event.size as usize,
                    old(self).is_verbose(),
                    parsed,
                ) && match parsed {
                    None => r is None && final(self).active() == old(self).active()
                        && final(self).passive() == old(self).passive(),
                    Some(frame) => exists|
                        payload: Option<String>,
                        emptied: T::Output,
                        target: Option<String>,
                        done: T::Output,
                    |
                        #[trigger] frame.gives_payload(payload, emptied) && #[trigger] emptied.gives_target(
                            target,
                            done,
                        ) && (final(self).active(), final(self).passive(), r) == spec_step(
                            old(self).active(),
                            old(self).passive(),
                            event,
                            payload,
                            target,
                        ),
                },
    {
        let res = self.try_match_in_order(event);
        proof {
            let parsed = choose|parsed: Option<T::Output>|
                #[trigger] old(self).parser().parses(
                    event.buffer@,
                    event.size as usize,
                    old(self).is_verbose(),
                    parsed,
                ) && match parsed {
                    None => res == Ok::<Option<Event>, ()>(None) && self.active() == old(self).active()
                        && self.passive() == old(self).passive(),
                    Some(frame) => if spec_in_order(old(self).active(), old(self).passive(), event) {
                        exists|
                            payload: Option<String>,
                            emptied: T::Output,
                            target: Option<String>,
                            done: T::Output,
                        |
                            #[trigger] frame.gives_payload(payload, emptied) && #[trigger] emptied.gives_target(
                                target,
                                done,
                            ) && res is Ok && (self.active(), self.passive(), res->Ok_0) == spec_step(
                                old(self).active(),
                                old(self).passive(),
                                event,
                                payload,
                                target,
                            )
                    } else {
                        res is Err && self.active() == old(self).active() && self.passive() == old(self).passive()
                    },
                };
            if let Some(f) = parsed {
                assert(spec_in_order(old(self).active(), old(self).passive(), event));
            }
        }
        match res {
            Ok(r) => r,
            Err(()) => None,
        }
    }
}

/// A response completes the request recorded before it on the same connection, on a
/// connection of the same side: the exchange carries the request's payload, target, size and
/// peer, the response's payload, size and time, and the time between the two; the request
/// no longer waits, and the other side's table is untouched.
pub proof fn law_response_completes_request(
    active: Map<(u32, u32, Seq<u8>), Event>,
    passive: Map<(u32, u32, Seq<u8>), Event>,
    req: InnerEvent,
    req_payload: Option<String>,
    req_target: Option<String>,
    resp: InnerEvent,
    resp_payload: Option<String>,
    resp_target: Option<String>,
)
    requires
        (spec_role(req.conn_kind, req.flow_direct) == Role::ActiveRequest && spec_role(
            resp.conn_kind,
            resp.flow_direct,
        ) == Role::ActiveResponse) || (spec_role(req.conn_kind, req.flow_direct) == Role::PassiveRequest
            && spec_role(resp.conn_kind, resp.flow_direct) == Role::PassiveResponse),
        conn_key(req) == conn_key(resp),
        req.timestamp <= resp.timestamp,
    ensures
        ({
            let (a1, p1, r1) = spec_step(active, passive, req, req_payload, req_target);
            let (a2, p2, r2) = spec_step(a1, p1, resp, resp_payload, resp_target);
            &&& r1 is None
            &&& r2 matches Some(ev) && {
                &&& ev.req_body == req_payload
                &&& ev.target == req_target
                &&& ev.resp_body == resp_payload
                &&& ev.request_size == req.size
                &&& ev.response_size == resp.size
                &&& ev.timestamp == resp.timestamp
                &&& ev.duration == resp.timestamp - req.timestamp
                &&& ev.remote_addr == req.remote_addr
                &&& ev.remote_port == req.remote_port
                &&& ev.family == req.family
            }
            &&& if spec_role(req.conn_kind, req.flow_direct) == Role::ActiveRequest {
                a2 == active.remove(conn_key(req)) && p2 == passive
            } else {
                a2 == active && p2 == passive.remove(conn_key(req))
            }
        }),
{
    let k = conn_key(req);
    if spec_role(req.conn_kind, req.flow_direct) == Role::ActiveRequest {
        assert(active.insert(k, spec_request(req, req_payload, req_target)).remove(k) =~= active.remove(k));
    } else {
        assert(passive.insert(k, spec_request(req, req_payload, req_target)).remove(k) =~= passive.remove(k));
    }
}

/// A response with no request waiting on its connection completes nothing and changes
/// nothing; so does an event that is neither a request nor a response.
pub proof fn law_unmatched_changes_nothing(
    active: Map<(u32, u32, Seq<u8>), Event>,
    passive: Map<(u32, u32, Seq<u8>), Event>,
    e: InnerEvent,
    payload: Option<String>,
    target: Option<String>,
)
    requires
        match spec_role(e.conn_kind, e.flow_direct) {
            Role::ActiveResponse => !active.dom().contains(conn_key(e)),
            Role::PassiveResponse => !passive.dom().contains(conn_key(e)),
            Role::Ignored => true,
            _ => false,
        },
    ensures
        spec_step(active, passive, e, payload, target) == (active, passive, None::<Event>),
{
}

/// A request leaves nothing completed and waits under its connection in its side's table,
/// in place of any earlier request there; the other side's table is untouched.
pub proof fn law_request_waits(
    active: Map<(u32, u32, Seq<u8>), Event>,
    passive: Map<(u32, u32, Seq<u8>), Event>,
    e: InnerEvent,
    payload: Option<String>,
    target: Option<String>,
)
    requires
        spec_role(e.conn_kind, e.flow_direct) == Role::ActiveRequest || spec_role(e.conn_kind, e.flow_direct)
            == Role::PassiveRequest,
    ensures
        ({
            let (a, p, r) = spec_step(active, passive, e, payload, target);
            &&& r is None
            &&& if spec_role(e.conn_kind, e.flow_direct) == Role::ActiveRequest {
                a.dom() == active.dom().insert(conn_key(e)) && a[conn_key(e)].req_body == payload
                    && a[conn_key(e)].target == target && p == passive
            } else {
                p.dom() == passive.dom().insert(conn_key(e)) && p[conn_key(e)].req_body == payload
                    && p[conn_key(e)].target == target && a == active
            }
        }),
{
}

/// A request is completed at most once: a second response on its connection, with no new
/// request between, finds nothing and changes nothing.
pub proof fn law_request_completed_once(
    active: Map<(u32, u32, Seq<u8>), Event>,
    passive: Map<(u32, u32, Seq<u8>), Event>,
    req: InnerEvent,
    resp: InnerEvent,
    again: InnerEvent,
    p1: Option<String>,
    t1: Option<String>,
    p2: Option<String>,
    t2: Option<String>,
    p3: Option<String>,
    t3: Option<String>,
)
    requires
        (spec_role(req.conn_kind, req.flow_direct) == Role::ActiveRequest && spec_role(
            resp.conn_kind,
            resp.flow_direct,
        ) == Role::ActiveResponse) || (spec_role(req.conn_kind, req.flow_direct) == Role::PassiveRequest
            && spec_role(resp.conn_kind, resp.flow_direct) == Role::PassiveResponse),
        spec_role(again.conn_kind, again.flow_direct) == spec_role(resp.conn_kind, resp.flow_direct),
        conn_key(req) == conn_key(resp),
        conn_key(again) == conn_key(resp),
        req.timestamp <= resp.timestamp,
    ensures
        ({
            let (a1, q1, r1) = spec_step(active, passive, req, p1, t1);
            let (a2, q2, r2) = spec_step(a1, q1, resp, p2, t2);
            let (a3, q3, r3) = spec_step(a2, q2, again, p3, t3);
            r2 is Some && r3 is None && a3 == a2 && q3 == q2
        }),
{
    law_response_completes_request(active, passive, req, p1, t1, resp, p2, t2);
}

} // verus!
