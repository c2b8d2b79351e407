//! The handler of inbound messages: it keeps the registry, answers requests
//! and resolves responses. It decides; sending and reading are left to the
//! caller, who is told what to do.

use vstd::prelude::*;
use crate::consumer::{resolve, resolves, Resolution, ResolutionView};
use crate::keys::RecordId;
use crate::message::{
    Announcement, AnnouncementView, AppMessage, AppMessageView, ProtocolError,
};
use crate::registry::{entry_for, lemma_unregistered_link, records_for, EntryView, Registry};
use crate::text::trimmed;

verus! {

/// Why a message was dropped.
#[derive(Clone, Copy, Debug, PartialEq, Eq, Structural)]
pub enum Dropped {
    /// No route back to the sender could be found.
    NoRoute,
    /// The message is no announcement.
    Malformed(ProtocolError),
}

/// What the caller is to do after a message has been handled.
#[derive(Clone, Debug, PartialEq, Eq)]
pub enum Action {
    /// Nothing: the message was dropped. It is not kept and not tried again.
    Drop { reason: Dropped },
    /// Nothing: the update was appended, and the registry now has `entries`
    /// entries.
    Registered { entries: usize },
    /// Send `message` to the record `to`, over the route to the sender.
    Reply { to: RecordId, message: AppMessage },
    /// Go on as the resolution says: read the chosen record, or report that
    /// no host is known.
    Resolve { resolution: Resolution },
}

/// An action as a mathematical value.
pub enum ActionView {
    Drop { reason: Dropped },
    Registered { entries: usize },
    Reply { to: RecordId, message: AppMessageView },
    Resolve { resolution: ResolutionView },
}

impl View for Action {
    type V = ActionView;

    open spec fn view(&self) -> ActionView {
        match self {
            Action::Drop { reason } => ActionView::Drop { reason: *reason },
            Action::Registered { entries } => ActionView::Registered { entries: *entries },
            Action::Reply { to, message } => ActionView::Reply { to: *to, message: message@ },
            Action::Resolve { resolution } => ActionView::Resolve { resolution: resolution@ },
        }
    }
}

/// The answer to a request for `channel_link`, sent by the node whose record
/// is `our_dht_key` from the registry `entries`: a response in an envelope,
/// which repeats the link as it was asked and names the records registered
/// under the trimmed link.
pub open spec fn answer(
    our_dht_key: RecordId,
    entries: Seq<EntryView>,
    channel_link: Seq<char>,
) -> AppMessageView {
    AppMessageView {
        data: (AnnouncementView::Response {
            channel_link,
            channel_records: records_for(entries, trimmed(channel_link)),
        }).message(),
        dht_record: our_dht_key,
        uuid: Seq::empty(),
    }
}

/// A node that serves announcements: its own record, which it names as the
/// sender of its replies, and the registry.
pub struct VeilidNewsApp {
    pub our_dht_key: RecordId,
    pub channel_registry: Registry,
}

/// A node as a mathematical value.
pub struct AppView {
    pub our_dht_key: RecordId,
    pub channel_registry: Seq<EntryView>,
}

impl View for VeilidNewsApp {
    type V = AppView;

    open spec fn view(&self) -> AppView {
        AppView { our_dht_key: self.our_dht_key, channel_registry: self.channel_registry@ }
    }
}

/// Whether `after` is `before` with one more entry behind the others, which
/// holds `record` under the trimmed `channel_link`, whenever it was observed.
pub open spec fn appended(
    before: Seq<EntryView>,
    after: Seq<EntryView>,
    channel_link: Seq<char>,
    record: RecordId,
) -> bool {
    exists|observed_at: i64|
        after == before.push(#[trigger] entry_for(channel_link, observed_at, record))
}

/// Whether a node that was `before`, on receiving `message` with or without
/// a route back to its sender, may be `after` and ask for `action`.
///
/// Without a route the message is dropped, whatever it holds, and so is a
/// message that is no announcement. An update is appended under its trimmed
/// link with the time at which it was observed. A request is answered from
/// the registry, which stays as it is. A response is resolved by picking one
/// of its candidates. Only an update changes the node.
pub open spec fn handled(
    before: AppView,
    message: AppMessageView,
    route_found: bool,
    after: AppView,
    action: ActionView,
) -> bool {
    &&& after.our_dht_key == before.our_dht_key
    &&& if !route_found {
        &&& after == before
        &&& action == (ActionView::Drop { reason: Dropped::NoRoute })
    } else {
        match message.data.announcement() {
            Err(e) => {
                &&& after == before
                &&& action == (ActionView::Drop { reason: Dropped::Malformed(e) })
            },
            Ok(AnnouncementView::Update { channel_link, channel_record }) => {
                &&& appended(
                    before.channel_registry,
                    after.channel_registry,
                    channel_link,
                    channel_record,
                )
                &&& action == (ActionView::Registered {
                    entries: (before.channel_registry.len() + 1) as usize,
                })
            },
            Ok(AnnouncementView::Request { channel_link }) => {
                &&& after == before
                &&& action == (ActionView::Reply {
                    to: message.dht_record,
                    message: answer(before.our_dht_key, before.channel_registry, channel_link),
                })
            },
            Ok(AnnouncementView::Response { channel_link, channel_records }) => {
                &&& after == before
                &&& action is Resolve
                &&& resolves(channel_link, channel_records, action->resolution)
            },
        }
    }
}

/// Whether handling `message`, with a route to its sender, may lead a node
/// from `before` to `after`.
pub open spec fn leads(before: AppView, message: AppMessageView, after: AppView) -> bool {
    exists|action: ActionView| #[trigger] handled(before, message, true, after, action)
}

/// Whether `states` are the states that a node goes through while it handles
/// the messages `updates`, each of which is an update and comes with a route
/// to its sender: the first state is before the first message, and each
/// message leads from one state to the next.
pub open spec fn handles_updates(states: Seq<AppView>, updates: Seq<AppMessageView>) -> bool {
    &&& states.len() == updates.len() + 1
    &&& forall|i: int|
        0 <= i < updates.len() ==> (#[trigger] updates[i]).data.announcement() is Ok
            && updates[i].data.announcement()->Ok_0 is Update
    &&& forall|i: int|
        0 <= i < updates.len() ==> leads(states[i], #[trigger] updates[i], states[i + 1])
}

/// The record that the update `message` announces.
pub open spec fn announced_record(message: AppMessageView) -> RecordId {
    message.data.announcement()->Ok_0->Update_channel_record
}

/// The link that the update or request `message` names.
pub open spec fn named_link(message: AppMessageView) -> Seq<char> {
    match message.data.announcement() {
        Ok(AnnouncementView::Update { channel_link, .. }) => channel_link,
        Ok(AnnouncementView::Request { channel_link }) => channel_link,
        Ok(AnnouncementView::Response { channel_link, .. }) => channel_link,
        Err(_) => Seq::empty(),
    }
}

/// While a node handles updates, every record found under a link was
/// announced under that link, trimmed, or was there before; and every record
/// that was announced is found.
proof fn lemma_records_after_updates(
    states: Seq<AppView>,
    updates: Seq<AppMessageView>,
    link: Seq<char>,
    record: RecordId,
)
    requires
        handles_updates(states, updates),
    ensures
        states.last().our_dht_key == states[0].our_dht_key,
        records_for(states.last().channel_registry, link).contains(record) <==> (records_for(
            states[0].channel_registry,
            link,
        ).contains(record) || exists|i: int|
            0 <= i < updates.len() && trimmed(named_link(#[trigger] updates[i])) == link
                && announced_record(updates[i]) == record),
    decreases updates.len(),
{
    if updates.len() > 0 {
        let n = updates.len() - 1;
        let earlier_states = states.drop_last();
        let earlier = updates.drop_last();
        assert forall|i: int| 0 <= i < earlier.len() implies leads(
            earlier_states[i],
            #[trigger] earlier[i],
            earlier_states[i + 1],
        ) by {
            assert(earlier[i] == updates[i]);
            assert(leads(states[i], updates[i], states[i + 1]));
        }
        assert forall|i: int| 0 <= i < earlier.len() implies (#[trigger] earlier[i]).data.announcement() is Ok
            && earlier[i].data.announcement()->Ok_0 is Update by {
            assert(earlier[i] == updates[i]);
        }
        lemma_records_after_updates(earlier_states, earlier, link, record);
        let before = states[n];
        let after = states[n + 1];
        let last = updates[n];
        assert(leads(before, last, after));
        let action = choose|action: ActionView| #[trigger] handled(before, last, true, after, action);
        assert(handled(before, last, true, after, action));
        let observed_at = choose|observed_at: i64|
            after.channel_registry == before.channel_registry.push(
                #[trigger] entry_for(named_link(last), observed_at, announced_record(last)),
            );
        let entry = entry_for(named_link(last), observed_at, announced_record(last));
        assert(after.channel_registry.drop_last() =~= before.channel_registry);
        assert(after.channel_registry.last() == entry);
        assert(earlier_states.last() == before);
        let found_before = records_for(before.channel_registry, link);
        let found_after = records_for(after.channel_registry, link);
        if entry.channel_link == link {
            assert(found_after == found_before.push(entry.record));
            assert(found_after[found_before.len() as int] == entry.record);
            assert(forall|k: int| 0 <= k < found_before.len() ==> found_after[k] == found_before[k]);
        }
        if found_after.contains(record) && !found_before.contains(record) {
            assert(entry.channel_link == link && entry.record == record);
            assert(trimmed(named_link(updates[n])) == link && announced_record(updates[n]) == record);
        }
        if exists|i: int|
            0 <= i < updates.len() && trimmed(named_link(#[trigger] updates[i])) == link
                && announced_record(updates[i]) == record {
            let i = choose|i: int|
                0 <= i < updates.len() && trimmed(named_link(#[trigger] updates[i])) == link
                    && announced_record(updates[i]) == record;
            if i < n {
                assert(earlier[i] == updates[i]);
                assert(found_before.contains(record));
            }
        }
        if found_before.contains(record) {
            let k = choose|k: int| 0 <= k < found_before.len() && found_before[k] == record;
            if entry.channel_link == link {
                assert(found_after[k] == record);
            }
            assert(found_after.contains(record));
            if !records_for(states[0].channel_registry, link).contains(record) {
                let i = choose|i: int|
                    0 <= i < earlier.len() && trimmed(named_link(#[trigger] earlier[i])) == link
                        && announced_record(earlier[i]) == record;
                assert(earlier[i] == updates[i]);
            }
        }
    }
}

/// A node that starts with an empty registry and handles any updates answers
/// a request that it handles afterwards, and the records that the answer
/// names are, as a set, exactly the records that were announced under a link
/// with the same trimmed text as the link of the request, however often each
/// was announced.
pub proof fn lemma_request_after_updates(
    states: Seq<AppView>,
    updates: Seq<AppMessageView>,
    request: AppMessageView,
    after: AppView,
    action: ActionView,
)
    requires
        handles_updates(states, updates),
        states[0].channel_registry == Seq::<EntryView>::empty(),
        request.data.announcement() is Ok,
        request.data.announcement()->Ok_0 is Request,
        handled(states.last(), request, true, after, action),
    ensures
        after == states.last(),
        action is Reply,
        action->to == request.dht_record,
        action->message.dht_record == states[0].our_dht_key,
        action->message.data.announcement() is Ok,
        action->message.data.announcement()->Ok_0 is Response,
        action->message.data.announcement()->Ok_0->Response_channel_link == named_link(request),
        action->message.data.announcement()->Ok_0->Response_channel_records.to_set() == Set::new(
            |record: RecordId|
                exists|i: int|
                    0 <= i < updates.len() && trimmed(named_link(#[trigger] updates[i])) == trimmed(
                        named_link(request),
                    ) && announced_record(updates[i]) == record,
        ),
{
    let link = trimmed(named_link(request));
    let found = records_for(states.last().channel_registry, link);
    let announced = Set::new(
        |record: RecordId|
            exists|i: int|
                0 <= i < updates.len() && trimmed(named_link(#[trigger] updates[i])) == link
                    && announced_record(updates[i]) == record,
    );
    lemma_records_after_updates(states, updates, link, states[0].our_dht_key);
    assert forall|record: RecordId| found.to_set().contains(record) <==> announced.contains(
        record,
    ) by {
        lemma_records_after_updates(states, updates, link, record);
        assert(records_for(states[0].channel_registry, link) =~= Seq::<RecordId>::empty());
    }
    assert(found.to_set() =~= announced);
}

/// A request for a link under which nothing is registered is answered like
/// any other: the answer names no record. It is neither refused nor dropped.
pub proof fn lemma_request_for_unregistered_link(
    before: AppView,
    request: AppMessageView,
    after: AppView,
    action: ActionView,
)
    requires
        request.data.announcement() is Ok,
        request.data.announcement()->Ok_0 is Request,
        forall|i: int|
            0 <= i < before.channel_registry.len() ==> (#[trigger] before.channel_registry[i]).channel_link
                != trimmed(named_link(request)),
        handled(before, request, true, after, action),
    ensures
        after == before,
        action == (ActionView::Reply {
            to: request.dht_record,
            message: AppMessageView {
                data: (AnnouncementView::Response {
                    channel_link: named_link(request),
                    channel_records: Seq::empty(),
                }).message(),
                dht_record: before.our_dht_key,
                uuid: Seq::empty(),
            },
        }),
{
    lemma_unregistered_link(before.channel_registry, trimmed(named_link(request)));
}

/// A request that is handled after an update sees the entry of that update,
/// whole: the answer names the announced record behind the records that were
/// registered under the link before.
pub proof fn lemma_request_sees_update(
    before: AppView,
    update: AppMessageView,
    between: AppView,
    request: AppMessageView,
    after: AppView,
    action: ActionView,
)
    requires
        update.data.announcement() is Ok,
        update.data.announcement()->Ok_0 is Update,
        request.data.announcement() is Ok,
        request.data.announcement()->Ok_0 is Request,
        trimmed(named_link(update)) == trimmed(named_link(request)),
        leads(before, update, between),
        handled(between, request, true, after, action),
    ensures
        between.channel_registry.len() == before.channel_registry.len() + 1,
        between.channel_registry.last().channel_link == trimmed(named_link(update)),
        between.channel_registry.last().record == announced_record(update),
        action is Reply,
        action->message.data.channel_dhts == Some(
            records_for(before.channel_registry, trimmed(named_link(request))).push(
                announced_record(update),
            ),
        ),
{
    let registered = choose|registered: ActionView|
        #[trigger] handled(before, update, true, between, registered);
    let observed_at = choose|observed_at: i64|
        between.channel_registry == before.channel_registry.push(
            #[trigger] entry_for(named_link(update), observed_at, announced_record(update)),
        );
    assert(between.channel_registry.drop_last() =~= before.channel_registry);
}

/// `Utc::now` of the crate chrono, as the milliseconds since the Unix epoch
/// that `DateTime::timestamp_millis` gives for it. Nothing is known of the
/// value.
#[verifier::external_body]
fn now_millis() -> (now: i64) {
    chrono::Utc::now().timestamp_millis()
}

impl VeilidNewsApp {
    /// A node with the record `our_dht_key` and an empty registry.
    pub fn new(our_dht_key: RecordId) -> (app: VeilidNewsApp)
        ensures
            app@ == (AppView { our_dht_key, channel_registry: Seq::empty() }),
    {
        VeilidNewsApp { our_dht_key, channel_registry: Registry::new() }
    }

    /// Handles one inbound message. `route_found` says whether a route back
    /// to the sender, the record `message.dht_record`, could be found.
    pub fn on_message(&mut self, message: AppMessage, route_found: bool) -> (action: Action)
        ensures
            handled(old(self)@, message@, route_found, final(self)@, action@),
    {
        if !route_found {
            return Action::Drop { reason: Dropped::NoRoute };
        }
        let sender = message.dht_record;
        match message.data.into_announcement() {
            Err(e) => Action::Drop { reason: Dropped::Malformed(e) },
            Ok(Announcement::Update { channel_link, channel_record }) => {
                let observed_at = now_millis();
                self.channel_registry.register(channel_link.as_str(), observed_at, channel_record);
                assert(appended(
                    old(self)@.channel_registry,
                    self@.channel_registry,
                    channel_link@,
                    channel_record,
                )) by {
                    assert(self@.channel_registry == old(self)@.channel_registry.push(
                        entry_for(channel_link@, observed_at, channel_record),
                    ));
                }
                Action::Registered { entries: self.channel_registry.len() }
            },
            Ok(Announcement::Request { channel_link }) => {
                let channel_records = self.channel_registry.lookup(channel_link.as_str());
                let response = Announcement::Response { channel_link, channel_records };
                Action::Reply {
                    to: sender,
                    message: response.into_message().from_sender(self.our_dht_key),
                }
            },
            Ok(Announcement::Response { channel_link, channel_records }) => Action::Resolve {
                resolution: resolve(channel_link, &channel_records),
            },
        }
    }
}

} // verus!
