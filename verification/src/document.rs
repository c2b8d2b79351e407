//! The stored form of a channel document: a JSON object, written as text in
//! UTF-8. Every field has a member of its name; an absent field is `null`.

use vstd::prelude::*;
use vstd::utf8::{
    decode_utf8, encode_utf8, encode_utf8_decode_utf8, encode_utf8_valid_utf8, valid_utf8,
};
use crate::channel::{item_views, optional_view, Channel, ChannelView, Item, ItemView};
use crate::json::{
    as_list, as_text, from_text, is_null, is_object, json_list, json_null, json_object, json_text,
    member, members, parsed, set_member, to_text, tree, trees, written, JsonTree,
};

verus! {

/// Why the value of a record is no channel document.
#[derive(Clone, Copy, Debug, PartialEq, Eq, Structural)]
pub enum DecodeError {
    /// The bytes are not text in UTF-8.
    NotText,
    /// The text is not JSON.
    NotJson,
    /// The JSON value is not a channel document.
    NotAChannel,
}

/// The JSON value of a text that may be absent: `null` where it is.
pub open spec fn optional_tree(text: Option<Seq<char>>) -> JsonTree {
    match text {
        Some(s) => JsonTree::Text(s),
        None => JsonTree::Null,
    }
}

/// The JSON object that stands for an entry.
pub open spec fn item_tree(item: ItemView) -> JsonTree {
    JsonTree::Object(
        Map::empty().insert("title"@, optional_tree(item.title)).insert(
            "link"@,
            optional_tree(item.link),
        ).insert("description"@, optional_tree(item.description)).insert(
            "author"@,
            optional_tree(item.author),
        ).insert("comments"@, optional_tree(item.comments)).insert(
            "pub_date"@,
            optional_tree(item.pub_date),
        ).insert("content"@, optional_tree(item.content)),
    )
}

/// The JSON objects that stand for the entries of a list, in order.
pub open spec fn item_trees(items: Seq<ItemView>) -> Seq<JsonTree> {
    Seq::new(items.len(), |i: int| item_tree(items[i]))
}

/// The JSON object that stands for a feed.
pub open spec fn channel_tree(channel: ChannelView) -> JsonTree {
    JsonTree::Object(
        Map::empty().insert("title"@, JsonTree::Text(channel.title)).insert(
            "link"@,
            JsonTree::Text(channel.link),
        ).insert("description"@, JsonTree::Text(channel.description)).insert(
            "language"@,
            optional_tree(channel.language),
        ).insert("pub_date"@, optional_tree(channel.pub_date)).insert(
            "last_build_date"@,
            optional_tree(channel.last_build_date),
        ).insert("items"@, JsonTree::List(item_trees(channel.items))),
    )
}

/// The member `name` as a text that must be there.
pub open spec fn required_text(object: Map<Seq<char>, JsonTree>, name: Seq<char>) -> Option<
    Seq<char>,
> {
    if object.contains_key(name) {
        match object[name] {
            JsonTree::Text(s) => Some(s),
            _ => None,
        }
    } else {
        None
    }
}

/// The member `name` as a text that may be absent: a member that is missing
/// or `null` is an absent text, and a member that is anything but a string
/// or `null` is refused.
pub open spec fn optional_text(object: Map<Seq<char>, JsonTree>, name: Seq<char>) -> Option<
    Option<Seq<char>>,
> {
    if object.contains_key(name) {
        match object[name] {
            JsonTree::Text(s) => Some(Some(s)),
            JsonTree::Null => Some(None),
            _ => None,
        }
    } else {
        Some(None)
    }
}

/// The entry that a JSON value stands for, if it stands for one: an object
/// whose members of the fields' names are strings or `null`. Other members
/// are not looked at.
pub open spec fn tree_item(t: JsonTree) -> Option<ItemView> {
    match t {
        JsonTree::Object(object) => match (
            optional_text(object, "title"@),
            optional_text(object, "link"@),
            optional_text(object, "description"@),
            optional_text(object, "author"@),
            optional_text(object, "comments"@),
            optional_text(object, "pub_date"@),
            optional_text(object, "content"@),
        ) {
            (
                Some(title),
                Some(link),
                Some(description),
                Some(author),
                Some(comments),
                Some(pub_date),
                Some(content),
            ) => Some(ItemView { title, link, description, author, comments, pub_date, content }),
            _ => None,
        },
        _ => None,
    }
}

/// The entries that a list of JSON values stands for, if each stands for
/// one.
pub open spec fn tree_items(list: Seq<JsonTree>) -> Option<Seq<ItemView>> {
    if forall|i: int| 0 <= i < list.len() ==> (#[trigger] tree_item(list[i])) is Some {
        Some(Seq::new(list.len(), |i: int| tree_item(list[i])->Some_0))
    } else {
        None
    }
}

/// The entries that the member `items` stands for: it must be there, and be
/// a list of entries.
pub open spec fn required_items(object: Map<Seq<char>, JsonTree>) -> Option<Seq<ItemView>> {
    if object.contains_key("items"@) {
        match object["items"@] {
            JsonTree::List(list) => tree_items(list),
            _ => None,
        }
    } else {
        None
    }
}

/// The feed that a JSON value stands for, if it stands for one: an object
/// with the strings `title`, `link` and `description`, with `language`,
/// `pub_date` and `last_build_date` as strings, `null` or missing, and with
/// the list `items` of entries. Other members are not looked at.
pub open spec fn tree_channel(t: JsonTree) -> Option<ChannelView> {
    match t {
        JsonTree::Object(object) => match (
            required_text(object, "title"@),
            required_text(object, "link"@),
            required_text(object, "description"@),
            optional_text(object, "language"@),
            optional_text(object, "pub_date"@),
            optional_text(object, "last_build_date"@),
            required_items(object),
        ) {
            (
                Some(title),
                Some(link),
                Some(description),
                Some(language),
                Some(pub_date),
                Some(last_build_date),
                Some(items),
            ) => Some(
                ChannelView { title, link, description, language, pub_date, last_build_date, items },
            ),
            _ => None,
        },
        _ => None,
    }
}

/// The bytes in which a feed is stored: the text that serde_json writes for
/// the feed's JSON object, in UTF-8. There are none where serde_json reports
/// an error for that object.
pub open spec fn encoded(channel: ChannelView) -> Option<Seq<u8>> {
    match written(channel_tree(channel)) {
        Some(text) => Some(encode_utf8(text)),
        None => None,
    }
}

/// The feed that is read from the bytes of a record, or why there is none.
pub open spec fn decoded(bytes: Seq<u8>) -> Result<ChannelView, DecodeError> {
    if !valid_utf8(bytes) {
        Err(DecodeError::NotText)
    } else {
        match parsed(decode_utf8(bytes)) {
            None => Err(DecodeError::NotJson),
            Some(t) => match tree_channel(t) {
                None => Err(DecodeError::NotAChannel),
                Some(channel) => Ok(channel),
            },
        }
    }
}

/// `String::from_utf8`: the text that the bytes encode in UTF-8, or nothing
/// if they are not valid UTF-8.
#[verifier::external_body]
fn text_of(bytes: Vec<u8>) -> (text: Option<String>)
    ensures
        text is Some <==> valid_utf8(bytes@),
        text is Some ==> text->Some_0@ == decode_utf8(bytes@),
{
    String::from_utf8(bytes).ok()
}

/// The JSON value of a text that may be absent.
fn optional_to_json(text: &Option<String>) -> (value: serde_json::Value)
    ensures
        tree(value) == optional_tree(optional_view(*text)),
{
    match text {
        Some(s) => json_text(s.clone()),
        None => json_null(),
    }
}

/// Reads the member `name` of `object` as a text that must be there.
fn required_from_json(object: &serde_json::Value, name: &str) -> (text: Option<String>)
    ensures
        optional_view(text) == required_text(members(tree(*object)), name@),
{
    match member(object, name) {
        Some(value) => match as_text(value) {
            Some(s) => Some(s.to_owned()),
            None => None,
        },
        None => None,
    }
}

/// Reads the member `name` of `object` as a text that may be absent.
fn optional_from_json(object: &serde_json::Value, name: &str) -> (text: Option<Option<String>>)
    ensures
        match text {
            Some(t) => optional_text(members(tree(*object)), name@) == Some(optional_view(t)),
            None => optional_text(members(tree(*object)), name@) is None,
        },
{
    match member(object, name) {
        Some(value) => {
            if is_null(value) {
                Some(None)
            } else {
                match as_text(value) {
                    Some(s) => Some(Some(s.to_owned())),
                    None => None,
                }
            }
        },
        None => Some(None),
    }
}

impl Item {
    /// The JSON object that stands for the entry.
    pub fn to_json(&self) -> (value: serde_json::Value)
        ensures
            tree(value) == item_tree(self@),
    {
        let mut object = json_object();
        set_member(&mut object, "title".to_owned(), optional_to_json(&self.title));
        set_member(&mut object, "link".to_owned(), optional_to_json(&self.link));
        set_member(&mut object, "description".to_owned(), optional_to_json(&self.description));
        set_member(&mut object, "author".to_owned(), optional_to_json(&self.author));
        set_member(&mut object, "comments".to_owned(), optional_to_json(&self.comments));
        set_member(&mut object, "pub_date".to_owned(), optional_to_json(&self.pub_date));
        set_member(&mut object, "content".to_owned(), optional_to_json(&self.content));
        object
    }

    /// The entry that `value` stands for, if it stands for one.
    pub fn from_json(value: &serde_json::Value) -> (item: Option<Item>)
        ensures
            match item {
                Some(i) => tree_item(tree(*value)) == Some(i@),
                None => tree_item(tree(*value)) is None,
            },
    {
        if !is_object(value) {
            return None;
        }
        let title = match optional_from_json(value, "title") {
            Some(t) => t,
            None => {
                return None;
            },
        };
        let link = match optional_from_json(value, "link") {
            Some(t) => t,
            None => {
                return None;
            },
        };
        let description = match optional_from_json(value, "description") {
            Some(t) => t,
            None => {
                return None;
            },
        };
        let author = match optional_from_json(value, "author") {
            Some(t) => t,
            None => {
                return None;
            },
        };
        let comments = match optional_from_json(value, "comments") {
            Some(t) => t,
            None => {
                return None;
            },
        };
        let pub_date = match optional_from_json(value, "pub_date") {
            Some(t) => t,
            None => {
                return None;
            },
        };
        let content = match optional_from_json(value, "content") {
            Some(t) => t,
            None => {
                return None;
            },
        };
        Some(Item { title, link, description, author, comments, pub_date, content })
    }
}

/// The JSON objects that stand for `items`, in order.
fn items_to_json(items: &Vec<Item>) -> (values: Vec<serde_json::Value>)
    ensures
        trees(values@) == item_trees(item_views(items@)),
{
    let mut values: Vec<serde_json::Value> = Vec::new();
    let mut i: usize = 0;
    while i < items.len()
        invariant
            i <= items@.len(),
            values@.len() == i,
            forall|j: int| 0 <= j < i ==> tree(#[trigger] values@[j]) == item_tree(items@[j]@),
        decreases items@.len() - i,
    {
        values.push(items[i].to_json());
        i = i + 1;
    }
    assert(trees(values@) =~= item_trees(item_views(items@)));
    values
}

/// The entries that `values` stand for, if each stands for one.
fn items_from_json(values: &Vec<serde_json::Value>) -> (items: Option<Vec<Item>>)
    ensures
        match items {
            Some(list) => tree_items(trees(values@)) == Some(item_views(list@)),
            None => tree_items(trees(values@)) is None,
        },
{
    let mut items: Vec<Item> = Vec::new();
    let mut i: usize = 0;
    while i < values.len()
        invariant
            i <= values@.len(),
            items@.len() == i,
            forall|j: int|
                0 <= j < i ==> tree_item(#[trigger] trees(values@)[j]) == Some(items@[j]@),
        decreases values@.len() - i,
    {
        match Item::from_json(&values[i]) {
            Some(item) => {
                items.push(item);
            },
            None => {
                assert(tree_item(trees(values@)[i as int]) is None);
                return None;
            },
        }
        i = i + 1;
    }
    assert(tree_items(trees(values@))->Some_0 =~= item_views(items@));
    Some(items)
}

impl Channel {
    /// The JSON object that stands for the feed.
    pub fn to_json(&self) -> (value: serde_json::Value)
        ensures
            tree(value) == channel_tree(self@),
    {
        let mut object = json_object();
        set_member(&mut object, "title".to_owned(), json_text(self.title.clone()));
        set_member(&mut object, "link".to_owned(), json_text(self.link.clone()));
        set_member(&mut object, "description".to_owned(), json_text(self.description.clone()));
        set_member(&mut object, "language".to_owned(), optional_to_json(&self.language));
        set_member(&mut object, "pub_date".to_owned(), optional_to_json(&self.pub_date));
        set_member(
            &mut object,
            "last_build_date".to_owned(),
            optional_to_json(&self.last_build_date),
        );
        set_member(&mut object, "items".to_owned(), json_list(items_to_json(&self.items)));
        object
    }

    /// The feed that `value` stands for, if it stands for one.
    pub fn from_json(value: &serde_json::Value) -> (channel: Option<Channel>)
        ensures
            match channel {
                Some(c) => tree_channel(tree(*value)) == Some(c@),
                None => tree_channel(tree(*value)) is None,
            },
    {
        if !is_object(value) {
            return None;
        }
        let title = match required_from_json(value, "title") {
            Some(t) => t,
            None => {
                return None;
            },
        };
        let link = match required_from_json(value, "link") {
            Some(t) => t,
            None => {
                return None;
            },
        };
        let description = match required_from_json(value, "description") {
            Some(t) => t,
            None => {
                return None;
            },
        };
        let language = match optional_from_json(value, "language") {
            Some(t) => t,
            None => {
                return None;
            },
        };
        let pub_date = match optional_from_json(value, "pub_date") {
            Some(t) => t,
            None => {
                return None;
            },
        };
        let last_build_date = match optional_from_json(value, "last_build_date") {
            Some(t) => t,
            None => {
                return None;
            },
        };
        let items = match member(value, "items") {
            Some(list) => match as_list(list) {
                Some(values) => match items_from_json(values) {
                    Some(items) => items,
                    None => {
                        return None;
                    },
                },
                None => {
                    return None;
                },
            },
            None => {
                return None;
            },
        };
        Some(Channel { title, link, description, language, pub_date, last_build_date, items })
    }

    /// The bytes to store as the value of the feed's record: the text of the
    /// feed's JSON object, in UTF-8. Nothing is returned if, and only if,
    /// serde_json reports an error for that object.
    pub fn encode(&self) -> (bytes: Option<Vec<u8>>)
        ensures
            match bytes {
                Some(b) => encoded(self@) == Some(b@),
                None => encoded(self@) is None,
            },
    {
        match to_text(&self.to_json()) {
            Some(text) => Some(text.as_str().as_bytes_vec()),
            None => None,
        }
    }

    /// Reads the value of a record as a feed, or says why it is none.
    pub fn decode(bytes: Vec<u8>) -> (channel: Result<Channel, DecodeError>)
        ensures
            match channel {
                Ok(c) => decoded(bytes@) == Ok::<ChannelView, DecodeError>(c@),
                Err(e) => decoded(bytes@) == Err::<ChannelView, DecodeError>(e),
            },
    {
        let text = match text_of(bytes) {
            Some(text) => text,
            None => {
                return Err(DecodeError::NotText);
            },
        };
        let value = match from_text(text.as_str()) {
            Some(value) => value,
            None => {
                return Err(DecodeError::NotJson);
            },
        };
        match Channel::from_json(&value) {
            Some(channel) => Ok(channel),
            None => Err(DecodeError::NotAChannel),
        }
    }
}

/// The names of the members differ from each other.
proof fn lemma_names_differ()
    ensures
        "title"@ != "link"@,
        "title"@ != "description"@,
        "title"@ != "author"@,
        "title"@ != "comments"@,
        "title"@ != "pub_date"@,
        "title"@ != "content"@,
        "title"@ != "language"@,
        "title"@ != "last_build_date"@,
        "title"@ != "items"@,
        "link"@ != "description"@,
        "link"@ != "author"@,
        "link"@ != "comments"@,
        "link"@ != "pub_date"@,
        "link"@ != "content"@,
        "link"@ != "language"@,
        "link"@ != "last_build_date"@,
        "link"@ != "items"@,
        "description"@ != "author"@,
        "description"@ != "comments"@,
        "description"@ != "pub_date"@,
        "description"@ != "content"@,
        "description"@ != "language"@,
        "description"@ != "last_build_date"@,
        "description"@ != "items"@,
        "author"@ != "comments"@,
        "author"@ != "pub_date"@,
        "author"@ != "content"@,
        "comments"@ != "pub_date"@,
        "comments"@ != "content"@,
        "pub_date"@ != "content"@,
        "pub_date"@ != "language"@,
        "pub_date"@ != "last_build_date"@,
        "pub_date"@ != "items"@,
        "language"@ != "last_build_date"@,
        "language"@ != "items"@,
        "last_build_date"@ != "items"@,
{
    reveal_strlit("title");
    reveal_strlit("link");
    reveal_strlit("description");
    reveal_strlit("author");
    reveal_strlit("comments");
    reveal_strlit("pub_date");
    reveal_strlit("content");
    reveal_strlit("language");
    reveal_strlit("last_build_date");
    reveal_strlit("items");
    assert("title"@.len() == 5 && "title"@[0] == 't');
    assert("link"@.len() == 4);
    assert("description"@.len() == 11);
    assert("author"@.len() == 6);
    assert("comments"@.len() == 8 && "comments"@[0] == 'c');
    assert("pub_date"@.len() == 8 && "pub_date"@[0] == 'p');
    assert("content"@.len() == 7);
    assert("language"@.len() == 8 && "language"@[0] == 'l');
    assert("last_build_date"@.len() == 15);
    assert("items"@.len() == 5 && "items"@[0] == 'i');
}

/// The JSON object of an entry stands for that entry.
pub proof fn lemma_item_round_trip(item: ItemView)
    ensures
        tree_item(item_tree(item)) == Some(item),
{
    lemma_names_differ();
}

/// The JSON objects of a list of entries stand for those entries.
pub proof fn lemma_items_round_trip(items: Seq<ItemView>)
    ensures
        tree_items(item_trees(items)) == Some(items),
{
    assert forall|i: int| 0 <= i < items.len() implies tree_item(#[trigger] item_trees(items)[i])
        == Some(items[i]) by {
        lemma_item_round_trip(items[i]);
    }
    assert(tree_items(item_trees(items))->Some_0 =~= items);
}

/// The JSON object of a feed stands for that feed: whichever of its fields
/// are absent, every field is read back as it was.
pub proof fn lemma_channel_round_trip(channel: ChannelView)
    ensures
        tree_channel(channel_tree(channel)) == Some(channel),
{
    lemma_names_differ();
    lemma_items_round_trip(channel.items);
}

/// The bytes in which a feed is stored are read back as that feed, whichever
/// of its fields are absent, wherever serde_json writes a text for the
/// feed's JSON object and reads that text as the object again.
pub proof fn lemma_stored_round_trip(channel: ChannelView)
    ensures
        written(channel_tree(channel)) is Some && parsed(written(channel_tree(channel))->Some_0)
            == Some(channel_tree(channel)) ==> encoded(channel) is Some && decoded(
            encoded(channel)->Some_0,
        ) == Ok::<ChannelView, DecodeError>(channel),
{
    if written(channel_tree(channel)) is Some {
        let text = written(channel_tree(channel))->Some_0;
        encode_utf8_valid_utf8(text);
        encode_utf8_decode_utf8(text);
        lemma_channel_round_trip(channel);
    }
}

} // verus!
