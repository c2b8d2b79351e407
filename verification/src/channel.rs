//! The channel document: a feed and its entries, as they are stored in a
//! record.

use vstd::prelude::*;

verus! {

/// One entry of a feed. Feeds differ in what they tell of an entry, so
/// every field may be absent.
#[derive(Clone, Debug, PartialEq, Eq)]
pub struct Item {
    pub title: Option<String>,
    pub link: Option<String>,
    pub description: Option<String>,
    pub author: Option<String>,
    pub comments: Option<String>,
    pub pub_date: Option<String>,
    pub content: Option<String>,
}

/// A feed. Its link names the feed through every publication.
#[derive(Clone, Debug, PartialEq, Eq)]
pub struct Channel {
    pub title: String,
    pub link: String,
    pub description: String,
    pub language: Option<String>,
    pub pub_date: Option<String>,
    pub last_build_date: Option<String>,
    pub items: Vec<Item>,
}

/// The characters of a text that may be absent.
pub open spec fn optional_view(text: Option<String>) -> Option<Seq<char>> {
    match text {
        Some(s) => Some(s@),
        None => None,
    }
}

/// An entry as a mathematical value.
pub struct ItemView {
    pub title: Option<Seq<char>>,
    pub link: Option<Seq<char>>,
    pub description: Option<Seq<char>>,
    pub author: Option<Seq<char>>,
    pub comments: Option<Seq<char>>,
    pub pub_date: Option<Seq<char>>,
    pub content: Option<Seq<char>>,
}

impl View for Item {
    type V = ItemView;

    open spec fn view(&self) -> ItemView {
        ItemView {
            title: optional_view(self.title),
            link: optional_view(self.link),
            description: optional_view(self.description),
            author: optional_view(self.author),
            comments: optional_view(self.comments),
            pub_date: optional_view(self.pub_date),
            content: optional_view(self.content),
        }
    }
}

/// The entries of a list as mathematical values, in order.
pub open spec fn item_views(items: Seq<Item>) -> Seq<ItemView> {
    Seq::new(items.len(), |i: int| items[i]@)
}

/// A feed as a mathematical value.
pub struct ChannelView {
    pub title: Seq<char>,
    pub link: Seq<char>,
    pub description: Seq<char>,
    pub language: Option<Seq<char>>,
    pub pub_date: Option<Seq<char>>,
    pub last_build_date: Option<Seq<char>>,
    pub items: Seq<ItemView>,
}

impl View for Channel {
    type V = ChannelView;

    open spec fn view(&self) -> ChannelView {
        ChannelView {
            title: self.title@,
            link: self.link@,
            description: self.description@,
            language: optional_view(self.language),
            pub_date: optional_view(self.pub_date),
            last_build_date: optional_view(self.last_build_date),
            items: item_views(self.items@),
        }
    }
}

} // verus!
