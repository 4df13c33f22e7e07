use crate::json::{
    empty_in, empty_text_is_empty, json_document, json_text, json_values, member_pointer,
    members_view, number_at, number_in, parse_json, pointer_to, text_at, text_in, value_at,
    write_json, FieldValue, FieldView,
};
use crate::types::{UpdateInfo, UpdateInfoView};
use crate::update_cache::CacheRead;
use vstd::prelude::*;

verus! {

/// The members under which a record is written: its seven fields under the
/// names `tag`, `file_name`, `file_size`, `url`, `checksum`, `published_at`
/// and `description`, the checksum as `null` where there is none.
pub open spec fn members_of(record: UpdateInfoView) -> Seq<(Seq<char>, FieldView)> {
    seq![
        ("tag"@, FieldView::Text(record.tag)),
        ("file_name"@, FieldView::Text(record.file_name)),
        ("file_size"@, FieldView::Number(Some(record.file_size))),
        ("url"@, FieldView::Text(record.url)),
        (
            "checksum"@,
            match record.checksum {
                Some(checksum) => FieldView::Text(checksum),
                None => FieldView::Null,
            },
        ),
        ("published_at"@, FieldView::Text(record.published_at)),
        ("description"@, FieldView::Text(record.description)),
    ]
}

/// The pointer to a member of the object at the root of a document.
pub open spec fn root_member(key: Seq<char>) -> Seq<char> {
    member_pointer(Seq::empty(), key)
}

/// The text that stands at a place that need not hold one: none where the
/// place is empty. The outer `None` stands for a place that holds something
/// else than a text.
pub open spec fn optional_text_in(values: Map<Seq<char>, FieldView>, pointer: Seq<char>)
    -> Option<Option<Seq<char>>> {
    if empty_in(values, pointer) {
        Some(None)
    } else {
        match text_in(values, pointer) {
            Some(text) => Some(Some(text)),
            None => None,
        }
    }
}

/// The record that a document describes: the seven fields stand at its root
/// under their names, in any order and beside whatever else. `None` where a
/// field other than the checksum is missing, or a field holds a value of
/// another type than it must.
pub open spec fn record_of(values: Map<Seq<char>, FieldView>) -> Option<UpdateInfoView> {
    let tag = text_in(values, root_member("tag"@));
    let file_name = text_in(values, root_member("file_name"@));
    let file_size = number_in(values, root_member("file_size"@));
    let url = text_in(values, root_member("url"@));
    let checksum = optional_text_in(values, root_member("checksum"@));
    let published_at = text_in(values, root_member("published_at"@));
    let description = text_in(values, root_member("description"@));
    if tag is Some && file_name is Some && file_size is Some && url is Some && checksum is Some
        && published_at is Some && description is Some {
        Some(
            UpdateInfoView {
                tag: tag->0,
                file_name: file_name->0,
                file_size: file_size->0,
                url: url->0,
                checksum: checksum->0,
                published_at: published_at->0,
                description: description->0,
            },
        )
    } else {
        None
    }
}

/// A model of the document that the object made of the given members is read
/// as: each member stands under the pointer to its key, the last of several
/// with one key, as the object that is written keeps it. It is a model only:
/// no contract ties it to the text that is written, and it speaks of keys
/// without `/` and `~`, which need no escaping in a pointer.
pub open spec fn values_under(members: Seq<(Seq<char>, FieldView)>) -> Map<Seq<char>, FieldView> {
    Map::new(
        |pointer: Seq<char>|
            exists|i: int| 0 <= i < members.len() && pointer == root_member(members[i].0),
        |pointer: Seq<char>|
            members[choose|i: int|
                0 <= i < members.len() && pointer == root_member(members[i].0) && forall|j: int|
                    i < j < members.len() ==> pointer != root_member(members[j].0)].1,
    )
}

/// The text under which a record is kept.
pub open spec fn record_text(record: UpdateInfoView) -> Seq<char> {
    json_text(members_of(record))
}

/// The record that a text holds, or `None` where the text is no JSON or
/// describes no record.
pub open spec fn record_in(text: Seq<char>) -> Option<UpdateInfoView> {
    match json_document(text) {
        Some(values) => record_of(values),
        None => None,
    }
}

/// The members under which a record is written.
pub fn record_members(record: &UpdateInfo) -> (members: Vec<(String, FieldValue)>)
    ensures
        members_view(members@) == members_of(record@),
{
    let checksum: FieldValue = match &record.checksum {
        Some(text) => FieldValue::Text(text.clone()),
        None => FieldValue::Null,
    };
    let members: Vec<(String, FieldValue)> = vec![
        (String::from_str("tag"), FieldValue::Text(record.tag.clone())),
        (String::from_str("file_name"), FieldValue::Text(record.file_name.clone())),
        (String::from_str("file_size"), FieldValue::Number(Some(record.file_size))),
        (String::from_str("url"), FieldValue::Text(record.url.clone())),
        (String::from_str("checksum"), checksum),
        (String::from_str("published_at"), FieldValue::Text(record.published_at.clone())),
        (String::from_str("description"), FieldValue::Text(record.description.clone())),
    ];
    assert(members_view(members@) == members_of(record@));
    members
}

/// The text under which a record is kept.
pub fn encode_record(record: &UpdateInfo) -> (text: String)
    ensures
        text@ == record_text(record@),
{
    let members: Vec<(String, FieldValue)> = record_members(record);
    write_json(&members)
}

/// The record that a document describes.
fn record_at(document: &serde_json::Value) -> (record: Option<UpdateInfo>)
    ensures
        match record {
            Some(info) => record_of(json_values(*document)) == Some(info@),
            None => record_of(json_values(*document)) is None,
        },
{
    proof {
        empty_text_is_empty();
    }
    let tag: String = match text_at(document, pointer_to("", "tag").as_str()) {
        Some(text) => text,
        None => { return None; },
    };
    let file_name: String = match text_at(document, pointer_to("", "file_name").as_str()) {
        Some(text) => text,
        None => { return None; },
    };
    let file_size: u64 = match number_at(document, pointer_to("", "file_size").as_str()) {
        Some(number) => number,
        None => { return None; },
    };
    let url: String = match text_at(document, pointer_to("", "url").as_str()) {
        Some(text) => text,
        None => { return None; },
    };
    let checksum: Option<String> = match value_at(document, pointer_to("", "checksum").as_str()) {
        None => None,
        Some(FieldValue::Null) => None,
        Some(FieldValue::Text(text)) => Some(text),
        _ => { return None; },
    };
    let published_at: String = match text_at(document, pointer_to("", "published_at").as_str()) {
        Some(text) => text,
        None => { return None; },
    };
    let description: String = match text_at(document, pointer_to("", "description").as_str()) {
        Some(text) => text,
        None => { return None; },
    };
    Some(UpdateInfo { tag, file_name, file_size, url, checksum, published_at, description })
}

/// Reads a record out of the text that was found where it is kept. A text
/// that holds no record is corrupt, and is then taken as no record at all.
pub fn decode_record(text: &str) -> (read: CacheRead)
    ensures
        match read {
            CacheRead::Record(info) => record_in(text@) == Some(info@),
            CacheRead::Corrupt => record_in(text@) is None,
            CacheRead::Missing => false,
        },
{
    match parse_json(text) {
        Some(document) => match record_at(&document) {
            Some(info) => CacheRead::Record(info),
            None => CacheRead::Corrupt,
        },
        None => CacheRead::Corrupt,
    }
}

/// Tells what was found where the record of a component is kept, from the
/// text that stands there, if any: nothing, a record, or a text that holds
/// none.
pub fn read_record(content: &Option<String>) -> (read: CacheRead)
    ensures
        match *content {
            None => read == CacheRead::Missing,
            Some(text) => match read {
                CacheRead::Record(info) => record_in(text@) == Some(info@),
                CacheRead::Corrupt => record_in(text@) is None,
                CacheRead::Missing => false,
            },
        },
{
    match content {
        None => CacheRead::Missing,
        Some(text) => decode_record(text.as_str()),
    }
}

/// Two keys with the same pointer are the same key.
proof fn lemma_root_member_is_one_to_one(a: Seq<char>, b: Seq<char>)
    requires
        root_member(a) == root_member(b),
    ensures
        a == b,
{
    reveal_strlit("/");
    let pa = root_member(a);
    let pb = root_member(b);
    assert(pa.subrange(1, pa.len() as int) =~= a);
    assert(pb.subrange(1, pb.len() as int) =~= b);
}

/// In the model, a member whose key no other member has stands under the
/// pointer to its key.
proof fn lemma_member_stands_under_its_key(members: Seq<(Seq<char>, FieldView)>, k: int)
    requires
        0 <= k < members.len(),
        forall|j: int| 0 <= j < members.len() && j != k ==> members[j].0 != members[k].0,
    ensures
        values_under(members).contains_key(root_member(members[k].0)),
        values_under(members)[root_member(members[k].0)] == members[k].1,
{
    let pointer = root_member(members[k].0);
    assert forall|j: int| 0 <= j < members.len() && j != k implies pointer != root_member(
        members[j].0,
    ) by {
        if pointer == root_member(members[j].0) {
            lemma_root_member_is_one_to_one(members[k].0, members[j].0);
        }
    }
    let chosen = choose|i: int|
        0 <= i < members.len() && pointer == root_member(members[i].0) && forall|j: int|
            i < j < members.len() ==> pointer != root_member(members[j].0);
    assert(0 <= k < members.len() && pointer == root_member(members[k].0) && forall|j: int|
        k < j < members.len() ==> pointer != root_member(members[j].0));
    assert(chosen == k);
}

/// The members under which a record is written have seven different keys
/// and, in the model of the document that they are read as, describe that
/// record again, whatever the record: every field comes back as it went in.
/// This speaks of the members and of the model, not of the written text.
pub proof fn written_members_describe_the_record(record: UpdateInfoView)
    ensures
        forall|i: int, j: int|
            0 <= i < j < members_of(record).len() ==> members_of(record)[i].0 != members_of(
                record,
            )[j].0,
        record_of(values_under(members_of(record))) == Some(record),
{
    let members = members_of(record);
    reveal_strlit("tag");
    reveal_strlit("file_name");
    reveal_strlit("file_size");
    reveal_strlit("url");
    reveal_strlit("checksum");
    reveal_strlit("published_at");
    reveal_strlit("description");
    assert("tag"@[0] != "url"@[0]);
    assert("file_name"@[5] != "file_size"@[5]);
    assert(members.len() == 7);
    assert(members[0].0 == "tag"@ && members[1].0 == "file_name"@ && members[2].0
        == "file_size"@ && members[3].0 == "url"@ && members[4].0 == "checksum"@ && members[5].0
        == "published_at"@ && members[6].0 == "description"@);
    lemma_member_stands_under_its_key(members, 0);
    lemma_member_stands_under_its_key(members, 1);
    lemma_member_stands_under_its_key(members, 2);
    lemma_member_stands_under_its_key(members, 3);
    lemma_member_stands_under_its_key(members, 4);
    lemma_member_stands_under_its_key(members, 5);
    lemma_member_stands_under_its_key(members, 6);
}

/// Where the text that is written for a record is read as the document that
/// the model gives for its members, reading that text gives the record
/// again. The premise is a matter between `serde_json::to_string_pretty` and
/// `serde_json::from_str`; nothing here proves it.
pub proof fn written_record_reads_back_where_the_text_does(record: UpdateInfoView)
    requires
        json_document(json_text(members_of(record))) == Some(values_under(members_of(record))),
    ensures
        record_in(record_text(record)) == Some(record),
{
    written_members_describe_the_record(record);
}

} // verus!
