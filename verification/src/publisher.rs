//! The publisher's bookkeeping: which record holds which feed, whether a
//! feed's record is to be created or overwritten, and what is announced once
//! the record store has done its part.

use vstd::prelude::*;
use crate::keys::{KeyPair, RecordId};
use crate::message::{Announcement, AnnouncementView, AppMessage, AppMessageView};
use crate::text::{lines, split_lines, texts, trim, trimmed};

verus! {

/// The seconds from the start of one publication of all feeds to the start
/// of the next: five minutes.
pub const PUBLISH_INTERVAL_SECONDS: u64 = 300;

/// A feed that this node has published: its link, the record that holds it,
/// and the key pair that owns the record and may write it.
#[derive(Clone, Debug, PartialEq, Eq)]
pub struct PublishedChannel {
    pub channel_link: String,
    pub record: RecordId,
    pub owner: KeyPair,
}

/// What the record store is asked to do with a feed's document.
#[derive(Clone, Debug, PartialEq, Eq)]
pub enum StoreRequest {
    /// Create a record, write `value` as its first value, and close it.
    Create { value: Vec<u8> },
    /// Open `record` as its `owner`, overwrite its value with `value`, and
    /// close it.
    Overwrite { record: RecordId, owner: KeyPair, value: Vec<u8> },
}

/// A request to the record store as a mathematical value.
pub enum StoreRequestView {
    Create { value: Seq<u8> },
    Overwrite { record: RecordId, owner: KeyPair, value: Seq<u8> },
}

impl View for StoreRequest {
    type V = StoreRequestView;

    open spec fn view(&self) -> StoreRequestView {
        match self {
            StoreRequest::Create { value } => StoreRequestView::Create { value: value@ },
            StoreRequest::Overwrite { record, owner, value } => StoreRequestView::Overwrite {
                record: *record,
                owner: *owner,
                value: value@,
            },
        }
    }
}

/// How the record store answered.
#[derive(Clone, Copy, Debug, PartialEq, Eq)]
pub enum StoreOutcome {
    /// A record was created and written: its identifier and its owner.
    Created { record: RecordId, owner: KeyPair },
    /// The record that was named has been overwritten.
    Overwritten,
    /// The record store failed: it could not be reached, it was out of quota,
    /// or it did not accept the owner.
    Failed,
}

/// Why nothing is announced after a publication.
#[derive(Clone, Copy, Debug, PartialEq, Eq, Structural)]
pub enum PublishError {
    /// The record store failed. Nothing was remembered; the next cycle
    /// publishes again.
    RecordStore,
    /// The record store reports an overwrite of a feed that has no record.
    NotPublished,
    /// The feed has no link to announce it under. Its record is kept.
    MissingLink,
}

/// The records of the published feeds, by link.
pub type Published = Map<Seq<char>, (RecordId, KeyPair)>;

/// What is asked of the record store for the document `value` of the feed
/// `channel_link`: a feed that has no record yet gets one, and a feed that
/// has a record keeps it.
pub open spec fn planned(
    published: Published,
    channel_link: Seq<char>,
    value: Seq<u8>,
) -> StoreRequestView {
    if published.contains_key(channel_link) {
        StoreRequestView::Overwrite {
            record: published[channel_link].0,
            owner: published[channel_link].1,
            value,
        }
    } else {
        StoreRequestView::Create { value }
    }
}

/// The published feeds after the record store has answered `outcome` for
/// the feed `channel_link`: only a created record is new.
pub open spec fn remembered(
    published: Published,
    channel_link: Seq<char>,
    outcome: StoreOutcome,
) -> Published {
    match outcome {
        StoreOutcome::Created { record, owner } => published.insert(channel_link, (record, owner)),
        _ => published,
    }
}

/// The update that announces `record` under `channel_link`, in the envelope
/// of the node whose record is `our_dht_key`.
pub open spec fn announcement(
    our_dht_key: RecordId,
    channel_link: Seq<char>,
    record: RecordId,
) -> AppMessageView {
    AppMessageView {
        data: (AnnouncementView::Update { channel_link, channel_record: record }).message(),
        dht_record: our_dht_key,
        uuid: Seq::empty(),
    }
}

/// What is sent to the tracker after the record store has answered
/// `outcome` for the feed `channel_link`: the update that names the feed's
/// record, the new one or the one it had, or the reason why nothing is sent.
pub open spec fn announced(
    published: Published,
    our_dht_key: RecordId,
    channel_link: Seq<char>,
    outcome: StoreOutcome,
) -> Result<AppMessageView, PublishError> {
    match outcome {
        StoreOutcome::Failed => Err(PublishError::RecordStore),
        StoreOutcome::Overwritten if !published.contains_key(channel_link) => Err(
            PublishError::NotPublished,
        ),
        _ => if channel_link.len() == 0 {
            Err(PublishError::MissingLink)
        } else {
            Ok(
                announcement(
                    our_dht_key,
                    channel_link,
                    remembered(published, channel_link, outcome)[channel_link].0,
                ),
            )
        },
    }
}

/// The feed sources that a list of lines names: every line, trimmed, that is
/// not empty then, in the order of the lines.
pub open spec fn sources(list: Seq<Seq<char>>) -> Seq<Seq<char>>
    decreases list.len(),
{
    if list.len() == 0 {
        Seq::empty()
    } else if trimmed(list.last()).len() > 0 {
        sources(list.drop_last()).push(trimmed(list.last()))
    } else {
        sources(list.drop_last())
    }
}

/// Reads the list of feed sources: one address on each line, with blank
/// lines and the whitespace around an address left out.
pub fn parse_sources(text: &str) -> (found: Vec<String>)
    ensures
        texts(found@) == sources(lines(text@)),
{
    let pieces = split_lines(text);
    let mut found: Vec<String> = Vec::new();
    let mut i: usize = 0;
    while i < pieces.len()
        invariant
            i <= pieces@.len(),
            texts(found@) == sources(texts(pieces@).take(i as int)),
        decreases pieces@.len() - i,
    {
        let source = trim(pieces[i].as_str());
        assert(texts(pieces@).take(i as int + 1).drop_last() =~= texts(pieces@).take(i as int));
        assert(texts(pieces@).take(i as int + 1).last() == pieces@[i as int]@);
        if !source.as_str().is_empty() {
            let ghost before = found@;
            found.push(source);
            assert(texts(found@) =~= texts(before).push(source@));
        }
        i = i + 1;
    }
    assert(texts(pieces@).take(i as int) =~= texts(pieces@));
    found
}

/// The feeds that this node has published since it started. Nothing of it
/// outlives the process: after a restart every feed gets a new record.
pub struct Publisher {
    channels: Vec<PublishedChannel>,
}

impl View for Publisher {
    type V = Published;

    closed spec fn view(&self) -> Published {
        Map::new(
            |link: Seq<char>| self.position(link) is Some,
            |link: Seq<char>|
                (
                    self.channels@[self.position(link)->Some_0].record,
                    self.channels@[self.position(link)->Some_0].owner,
                ),
        )
    }
}

impl Publisher {
    /// No link is held twice.
    #[verifier::type_invariant]
    spec fn distinct(&self) -> bool {
        forall|i: int, j: int|
            0 <= i < j < self.channels@.len() ==> (#[trigger] self.channels@[i]).channel_link@
                != (#[trigger] self.channels@[j]).channel_link@
    }

    /// Where the feed `link` is held, if it is.
    spec fn position(&self, link: Seq<char>) -> Option<int> {
        if exists|i: int| 0 <= i < self.channels@.len() && (#[trigger] self.channels@[i]).channel_link@ == link {
            Some(
                choose|i: int|
                    0 <= i < self.channels@.len() && (#[trigger] self.channels@[i]).channel_link@
                        == link,
            )
        } else {
            None
        }
    }

    /// A publisher that has published nothing.
    pub fn new() -> (p: Publisher)
        ensures
            p@ == Map::<Seq<char>, (RecordId, KeyPair)>::empty(),
    {
        let p = Publisher { channels: Vec::new() };
        assert(p@ =~= Map::<Seq<char>, (RecordId, KeyPair)>::empty());
        p
    }

    /// Where the feed `channel_link` is held, if it is.
    fn find(&self, channel_link: &str) -> (at: Option<usize>)
        ensures
            match at {
                Some(i) => self.position(channel_link@) == Some(i as int) && i < self.channels@.len()
                    && self.channels@[i as int].channel_link@ == channel_link@,
                None => self.position(channel_link@) is None,
            },
    {
        proof {
            use_type_invariant(self);
        }
        let wanted = channel_link.to_owned();
        let mut i: usize = 0;
        while i < self.channels.len()
            invariant
                i <= self.channels@.len(),
                wanted@ == channel_link@,
                self.distinct(),
                forall|j: int| 0 <= j < i ==> (#[trigger] self.channels@[j]).channel_link@ != channel_link@,
            decreases self.channels@.len() - i,
        {
            if self.channels[i].channel_link == wanted {
                proof {
                    let found = self.channels@[i as int];
                    assert(found.channel_link@ == channel_link@);
                    let k = self.position(channel_link@)->Some_0;
                    assert(self.channels@[k].channel_link@ == channel_link@);
                    assert(k == i);
                }
                return Some(i);
            }
            i = i + 1;
        }
        None
    }

    /// The record of the feed `channel_link` and its owner, if the feed has
    /// been published.
    pub fn record_of(&self, channel_link: &str) -> (r: Option<(RecordId, KeyPair)>)
        ensures
            r == if self@.contains_key(channel_link@) {
                Some(self@[channel_link@])
            } else {
                None::<(RecordId, KeyPair)>
            },
    {
        match self.find(channel_link) {
            Some(i) => Some((self.channels[i].record, self.channels[i].owner)),
            None => None,
        }
    }

    /// Remembers that the feed `channel_link` is held by `record`, which
    /// `owner` may write. What was remembered of the feed before is
    /// forgotten; the other feeds stay.
    pub fn remember(&mut self, channel_link: String, record: RecordId, owner: KeyPair)
        ensures
            final(self)@ == old(self)@.insert(channel_link@, (record, owner)),
    {
        proof {
            use_type_invariant(&*self);
        }
        let ghost before = *self;
        let ghost link = channel_link@;
        let at = self.find(channel_link.as_str());
        let mut channels: Vec<PublishedChannel> = Vec::new();
        core::mem::swap(&mut self.channels, &mut channels);
        match at {
            Some(i) => {
                channels.set(i, PublishedChannel { channel_link, record, owner });
                self.channels = channels;
                proof {
                    assert forall|l: Seq<char>| self.position(l) == before.position(l) by {
                        if before.position(l) is Some {
                            let k = before.position(l)->Some_0;
                            assert(self.channels@[k].channel_link@ == l);
                            let m = self.position(l)->Some_0;
                            assert(before.channels@[m].channel_link@ == l);
                            assert(m == k);
                        } else if self.position(l) is Some {
                            let m = self.position(l)->Some_0;
                            assert(before.channels@[m].channel_link@ == l);
                        }
                    }
                }
            },
            None => {
                channels.push(PublishedChannel { channel_link, record, owner });
                self.channels = channels;
                proof {
                    let n = before.channels@.len() as int;
                    assert(self.channels@[n].channel_link@ == link);
                    assert forall|l: Seq<char>| l != link implies self.position(l) == before.position(
                        l,
                    ) by {
                        if before.position(l) is Some {
                            let k = before.position(l)->Some_0;
                            assert(self.channels@[k].channel_link@ == l);
                            let m = self.position(l)->Some_0;
                            assert(m != n);
                            assert(before.channels@[m].channel_link@ == l);
                            assert(m == k);
                        } else if self.position(l) is Some {
                            let m = self.position(l)->Some_0;
                            assert(m != n);
                            assert(before.channels@[m].channel_link@ == l);
                        }
                    }
                    assert(self.position(link) == Some(n)) by {
                        let m = self.position(link)->Some_0;
                        if m != n {
                            assert(before.channels@[m].channel_link@ == link);
                        }
                    }
                }
            },
        }
        assert(self@ =~= before@.insert(link, (record, owner)));
    }

    /// What to ask of the record store for the document `value` of the feed
    /// `channel_link`: to create a record if the feed has none, else to
    /// overwrite the one it has.
    pub fn plan(&self, channel_link: &str, value: Vec<u8>) -> (request: StoreRequest)
        ensures
            request@ == planned(self@, channel_link@, value@),
    {
        match self.record_of(channel_link) {
            Some((record, owner)) => StoreRequest::Overwrite { record, owner, value },
            None => StoreRequest::Create { value },
        }
    }

    /// Takes note of the record store's answer for the feed `channel_link`
    /// and returns the update to send to the tracker, in the envelope of the
    /// node whose record is `our_dht_key`, or the reason why nothing is
    /// sent. A created record is remembered; whether the update then reaches
    /// the tracker changes nothing of that.
    pub fn complete(&mut self, our_dht_key: RecordId, channel_link: String, outcome: StoreOutcome) -> (r:
        Result<AppMessage, PublishError>)
        ensures
            final(self)@ == remembered(old(self)@, channel_link@, outcome),
            match r {
                Ok(message) => announced(old(self)@, our_dht_key, channel_link@, outcome) == Ok::<
                    AppMessageView,
                    PublishError,
                >(message@),
                Err(e) => announced(old(self)@, our_dht_key, channel_link@, outcome) == Err::<
                    AppMessageView,
                    PublishError,
                >(e),
            },
    {
        let record = match outcome {
            StoreOutcome::Failed => {
                return Err(PublishError::RecordStore);
            },
            StoreOutcome::Overwritten => match self.record_of(channel_link.as_str()) {
                Some((record, _)) => record,
                None => {
                    return Err(PublishError::NotPublished);
                },
            },
            StoreOutcome::Created { record, owner } => {
                self.remember(channel_link.clone(), record, owner);
                record
            },
        };
        match Announcement::update(channel_link, record) {
            Ok(update) => Ok(update.into_message().from_sender(our_dht_key)),
            Err(_) => Err(PublishError::MissingLink),
        }
    }
}

/// Publishing a feed twice: the first time a record is created, the second
/// time that record is overwritten, and both times the update that is sent
/// names the same record.
pub proof fn lemma_republish_keeps_record(
    published: Published,
    our_dht_key: RecordId,
    channel_link: Seq<char>,
    first: Seq<u8>,
    second: Seq<u8>,
    record: RecordId,
    owner: KeyPair,
)
    requires
        !published.contains_key(channel_link),
        channel_link.len() > 0,
    ensures
        planned(published, channel_link, first) == (StoreRequestView::Create { value: first }),
        ({
            let created = StoreOutcome::Created { record, owner };
            let after = remembered(published, channel_link, created);
            &&& planned(after, channel_link, second) == (StoreRequestView::Overwrite {
                record,
                owner,
                value: second,
            })
            &&& remembered(after, channel_link, StoreOutcome::Overwritten) == after
            &&& announced(published, our_dht_key, channel_link, created) == Ok::<
                AppMessageView,
                PublishError,
            >(announcement(our_dht_key, channel_link, record))
            &&& announced(after, our_dht_key, channel_link, StoreOutcome::Overwritten) == Ok::<
                AppMessageView,
                PublishError,
            >(announcement(our_dht_key, channel_link, record))
        }),
{
}

/// A feed keeps its record through the publication of other feeds.
pub proof fn lemma_other_feeds_keep_record(
    published: Published,
    channel_link: Seq<char>,
    other: Seq<char>,
    outcome: StoreOutcome,
)
    requires
        other != channel_link,
    ensures
        remembered(published, other, outcome).contains_key(channel_link) == published.contains_key(
            channel_link,
        ),
        published.contains_key(channel_link) ==> remembered(published, other, outcome)[channel_link]
            == published[channel_link],
{
}

} // verus!
