//! The announcement protocol: the three messages that publishers, trackers
//! and consumers exchange, the form in which they travel, and the rules that
//! a message must meet to be read as one of them.

use vstd::prelude::*;
use crate::keys::RecordId;

verus! {

/// Which of the three announcements a message carries.
#[derive(Clone, Copy, Debug, PartialEq, Eq, Structural)]
pub enum MessageType {
    NewsUpdate,
    NewsRequest,
    NewsResponse,
}

/// A message as it travels: the kind, and the fields that the kind uses.
#[derive(Clone, Debug, PartialEq, Eq)]
pub struct VeilidNewsMessage {
    pub message_type: MessageType,
    pub channel_link: Option<String>,
    pub channel_dht: Option<RecordId>,
    pub channel_dhts: Option<Vec<RecordId>>,
}

/// A travelling message as a mathematical value.
pub struct MessageView {
    pub message_type: MessageType,
    pub channel_link: Option<Seq<char>>,
    pub channel_dht: Option<RecordId>,
    pub channel_dhts: Option<Seq<RecordId>>,
}

impl View for VeilidNewsMessage {
    type V = MessageView;

    open spec fn view(&self) -> MessageView {
        MessageView {
            message_type: self.message_type,
            channel_link: match self.channel_link {
                Some(link) => Some(link@),
                None => None,
            },
            channel_dht: self.channel_dht,
            channel_dhts: match self.channel_dhts {
                Some(records) => Some(records@),
                None => None,
            },
        }
    }
}

/// A message in its envelope: the record of the sender, to which a reply is
/// routed, and a correlation field, which this protocol leaves empty.
#[derive(Clone, Debug, PartialEq, Eq)]
pub struct AppMessage {
    pub data: VeilidNewsMessage,
    pub dht_record: RecordId,
    pub uuid: String,
}

/// A message in its envelope as a mathematical value.
pub struct AppMessageView {
    pub data: MessageView,
    pub dht_record: RecordId,
    pub uuid: Seq<char>,
}

impl View for AppMessage {
    type V = AppMessageView;

    open spec fn view(&self) -> AppMessageView {
        AppMessageView { data: self.data@, dht_record: self.dht_record, uuid: self.uuid@ }
    }
}

/// Why a message cannot be read as an announcement.
#[derive(Clone, Copy, Debug, PartialEq, Eq, Structural)]
pub enum ProtocolError {
    /// An update or a request names no link, or an empty one.
    MissingLink,
    /// An update names no record.
    MissingRecord,
    /// A response carries no set of candidates, not even an empty one.
    MissingCandidates,
}

/// One of the three announcements, with its fields.
#[derive(Clone, Debug, PartialEq, Eq)]
pub enum Announcement {
    /// A publisher holds a copy of the feed `channel_link` in `channel_record`.
    Update { channel_link: String, channel_record: RecordId },
    /// A consumer asks who holds the feed `channel_link`.
    Request { channel_link: String },
    /// The tracker's answer: the records registered under `channel_link`.
    Response { channel_link: String, channel_records: Vec<RecordId> },
}

/// An announcement as a mathematical value.
pub enum AnnouncementView {
    Update { channel_link: Seq<char>, channel_record: RecordId },
    Request { channel_link: Seq<char> },
    Response { channel_link: Seq<char>, channel_records: Seq<RecordId> },
}

impl View for Announcement {
    type V = AnnouncementView;

    open spec fn view(&self) -> AnnouncementView {
        match self {
            Announcement::Update { channel_link, channel_record } => AnnouncementView::Update {
                channel_link: channel_link@,
                channel_record: *channel_record,
            },
            Announcement::Request { channel_link } => AnnouncementView::Request {
                channel_link: channel_link@,
            },
            Announcement::Response { channel_link, channel_records } => AnnouncementView::Response {
                channel_link: channel_link@,
                channel_records: channel_records@,
            },
        }
    }
}

impl AnnouncementView {
    /// An update and a request name a link that is not empty.
    pub open spec fn is_valid(self) -> bool {
        match self {
            AnnouncementView::Update { channel_link, .. } => channel_link.len() > 0,
            AnnouncementView::Request { channel_link } => channel_link.len() > 0,
            AnnouncementView::Response { .. } => true,
        }
    }

    /// The message in which the announcement travels: its kind, its link, and
    /// of the two record fields the one that the kind uses.
    pub open spec fn message(self) -> MessageView {
        match self {
            AnnouncementView::Update { channel_link, channel_record } => MessageView {
                message_type: MessageType::NewsUpdate,
                channel_link: Some(channel_link),
                channel_dht: Some(channel_record),
                channel_dhts: None,
            },
            AnnouncementView::Request { channel_link } => MessageView {
                message_type: MessageType::NewsRequest,
                channel_link: Some(channel_link),
                channel_dht: None,
                channel_dhts: None,
            },
            AnnouncementView::Response { channel_link, channel_records } => MessageView {
                message_type: MessageType::NewsResponse,
                channel_link: Some(channel_link),
                channel_dht: None,
                channel_dhts: Some(channel_records),
            },
        }
    }
}

impl MessageView {
    /// The announcement that the message carries, or why it carries none.
    ///
    /// An update needs a link that is not empty, then a record; a request
    /// needs a link that is not empty; a response needs its candidates, which
    /// may be none at all, and a response without a link is read with the
    /// empty link. Fields that the kind does not use are not looked at.
    pub open spec fn announcement(self) -> Result<AnnouncementView, ProtocolError> {
        match self.message_type {
            MessageType::NewsUpdate => match (self.channel_link, self.channel_dht) {
                (Some(channel_link), Some(channel_record)) if channel_link.len() > 0 => Ok(
                    AnnouncementView::Update { channel_link, channel_record },
                ),
                (Some(channel_link), None) if channel_link.len() > 0 => Err(
                    ProtocolError::MissingRecord,
                ),
                _ => Err(ProtocolError::MissingLink),
            },
            MessageType::NewsRequest => match self.channel_link {
                Some(channel_link) if channel_link.len() > 0 => Ok(
                    AnnouncementView::Request { channel_link },
                ),
                _ => Err(ProtocolError::MissingLink),
            },
            MessageType::NewsResponse => match self.channel_dhts {
                Some(channel_records) => Ok(
                    AnnouncementView::Response {
                        channel_link: match self.channel_link {
                            Some(channel_link) => channel_link,
                            None => Seq::empty(),
                        },
                        channel_records,
                    },
                ),
                None => Err(ProtocolError::MissingCandidates),
            },
        }
    }
}

impl Announcement {
    /// The update that announces `channel_record` under `channel_link`, unless
    /// the link is empty.
    pub fn update(channel_link: String, channel_record: RecordId) -> (r: Result<
        Announcement,
        ProtocolError,
    >)
        ensures
            channel_link@.len() == 0 ==> r == Err::<Announcement, ProtocolError>(
                ProtocolError::MissingLink,
            ),
            channel_link@.len() > 0 ==> r is Ok && r->Ok_0@ == (AnnouncementView::Update {
                channel_link: channel_link@,
                channel_record,
            }),
    {
        if channel_link.as_str().is_empty() {
            Err(ProtocolError::MissingLink)
        } else {
            Ok(Announcement::Update { channel_link, channel_record })
        }
    }

    /// The request for the holders of `channel_link`, unless the link is
    /// empty.
    pub fn request(channel_link: String) -> (r: Result<Announcement, ProtocolError>)
        ensures
            channel_link@.len() == 0 ==> r == Err::<Announcement, ProtocolError>(
                ProtocolError::MissingLink,
            ),
            channel_link@.len() > 0 ==> r is Ok && r->Ok_0@ == (AnnouncementView::Request {
                channel_link: channel_link@,
            }),
    {
        if channel_link.as_str().is_empty() {
            Err(ProtocolError::MissingLink)
        } else {
            Ok(Announcement::Request { channel_link })
        }
    }

    /// The response that names `channel_records` as the holders of
    /// `channel_link`, unless there is no set of candidates. An empty set is a
    /// response: nobody is known to hold the feed.
    pub fn response(channel_link: String, channel_records: Option<Vec<RecordId>>) -> (r: Result<
        Announcement,
        ProtocolError,
    >)
        ensures
            channel_records is None ==> r == Err::<Announcement, ProtocolError>(
                ProtocolError::MissingCandidates,
            ),
            channel_records is Some ==> r is Ok && r->Ok_0@ == (AnnouncementView::Response {
                channel_link: channel_link@,
                channel_records: channel_records->Some_0@,
            }),
    {
        match channel_records {
            Some(channel_records) => Ok(Announcement::Response { channel_link, channel_records }),
            None => Err(ProtocolError::MissingCandidates),
        }
    }

    /// The message in which the announcement travels. Reading the message
    /// gives the announcement back, if it was valid.
    pub fn into_message(self) -> (m: VeilidNewsMessage)
        ensures
            m@ == self@.message(),
            self@.is_valid() ==> m@.announcement() == Ok::<AnnouncementView, ProtocolError>(self@),
    {
        match self {
            Announcement::Update { channel_link, channel_record } => VeilidNewsMessage {
                message_type: MessageType::NewsUpdate,
                channel_link: Some(channel_link),
                channel_dht: Some(channel_record),
                channel_dhts: None,
            },
            Announcement::Request { channel_link } => VeilidNewsMessage {
                message_type: MessageType::NewsRequest,
                channel_link: Some(channel_link),
                channel_dht: None,
                channel_dhts: None,
            },
            Announcement::Response { channel_link, channel_records } => VeilidNewsMessage {
                message_type: MessageType::NewsResponse,
                channel_link: Some(channel_link),
                channel_dht: None,
                channel_dhts: Some(channel_records),
            },
        }
    }
}

impl VeilidNewsMessage {
    /// Reads the message as an announcement, or says what it lacks.
    pub fn into_announcement(self) -> (r: Result<Announcement, ProtocolError>)
        ensures
            match r {
                Ok(a) => self@.announcement() == Ok::<AnnouncementView, ProtocolError>(a@),
                Err(e) => self@.announcement() == Err::<AnnouncementView, ProtocolError>(e),
            },
            r is Ok ==> r->Ok_0@.is_valid(),
    {
        match self.message_type {
            MessageType::NewsUpdate => match self.channel_link {
                Some(channel_link) => {
                    if channel_link.as_str().is_empty() {
                        Err(ProtocolError::MissingLink)
                    } else {
                        match self.channel_dht {
                            Some(channel_record) => Ok(
                                Announcement::Update { channel_link, channel_record },
                            ),
                            None => Err(ProtocolError::MissingRecord),
                        }
                    }
                },
                None => Err(ProtocolError::MissingLink),
            },
            MessageType::NewsRequest => match self.channel_link {
                Some(channel_link) => {
                    if channel_link.as_str().is_empty() {
                        Err(ProtocolError::MissingLink)
                    } else {
                        Ok(Announcement::Request { channel_link })
                    }
                },
                None => Err(ProtocolError::MissingLink),
            },
            MessageType::NewsResponse => match self.channel_dhts {
                Some(channel_records) => {
                    let channel_link = match self.channel_link {
                        Some(channel_link) => channel_link,
                        None => String::new(),
                    };
                    Ok(Announcement::Response { channel_link, channel_records })
                },
                None => Err(ProtocolError::MissingCandidates),
            },
        }
    }

    /// Puts the message in an envelope that names `sender` as the record to
    /// reply to. The correlation field stays empty.
    pub fn from_sender(self, sender: RecordId) -> (m: AppMessage)
        ensures
            m@ == (AppMessageView { data: self@, dht_record: sender, uuid: Seq::empty() }),
    {
        AppMessage { data: self, dht_record: sender, uuid: String::new() }
    }
}

/// A valid announcement survives the journey: the message that carries it is
/// read as the same announcement.
pub proof fn lemma_message_round_trip(a: AnnouncementView)
    requires
        a.is_valid(),
    ensures
        a.message().announcement() == Ok::<AnnouncementView, ProtocolError>(a),
{
}

/// What a message is read as is always valid.
pub proof fn lemma_announcement_is_valid(m: MessageView)
    ensures
        m.announcement() is Ok ==> m.announcement()->Ok_0.is_valid(),
{
}

} // verus!
