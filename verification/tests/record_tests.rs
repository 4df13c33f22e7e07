use rime_wanxiang_updater::json::FieldValue;
use rime_wanxiang_updater::record_file::{
    decode_record, encode_record, read_record, record_members,
};
use rime_wanxiang_updater::types::UpdateInfo;
use rime_wanxiang_updater::update_cache::CacheRead;

fn record(checksum: Option<&str>) -> UpdateInfo {
    UpdateInfo {
        tag: "v1.1.0".to_string(),
        file_name: "9-base-dicts.zip".to_string(),
        file_size: 4096,
        url: "https://github.com/o/r/releases/download/v1.1.0/9-base-dicts.zip".to_string(),
        checksum: checksum.map(|c| c.to_string()),
        published_at: "2024-05-01T00:00:00Z".to_string(),
        description: "notes".to_string(),
    }
}

#[test]
fn record_is_written_as_a_json_object() {
    assert_eq!(
        encode_record(&record(None)),
        "{\n  \"checksum\": null,\n  \"description\": \"notes\",\n  \"file_name\": \"9-base-dicts.zip\",\n  \"file_size\": 4096,\n  \"published_at\": \"2024-05-01T00:00:00Z\",\n  \"tag\": \"v1.1.0\",\n  \"url\": \"https://github.com/o/r/releases/download/v1.1.0/9-base-dicts.zip\"\n}"
    );
    assert!(encode_record(&record(Some("abc"))).contains("\"checksum\": \"abc\""));
}

#[test]
fn written_record_reads_back_equal() {
    for r in [record(None), record(Some("ABCdef0123"))] {
        assert_eq!(decode_record(&encode_record(&r)), CacheRead::Record(r));
    }
    let odd = UpdateInfo {
        tag: "\"v\\1\"".to_string(),
        file_name: "\u{8bcd}\u{5e93} \u{1f600}.zip".to_string(),
        file_size: u64::MAX,
        url: String::new(),
        checksum: Some(String::new()),
        published_at: "\u{0}\u{1}\u{1f}\u{7f}".to_string(),
        description: "line one\r\nline two\t{\"x\": [1, 2]}\u{2028}~0~1/".to_string(),
    };
    assert_eq!(decode_record(&encode_record(&odd)), CacheRead::Record(odd));
    let zero = UpdateInfo {
        tag: String::new(),
        file_name: String::new(),
        file_size: 0,
        url: String::new(),
        checksum: None,
        published_at: String::new(),
        description: String::new(),
    };
    assert_eq!(decode_record(&encode_record(&zero)), CacheRead::Record(zero));
}

#[test]
fn record_is_read_in_any_order_and_among_other_members() {
    let text = "{\"url\":\"u\",\"extra\":[1,2],\"tag\":\"t\",\"description\":\"d\",\"file_size\":7,\"published_at\":\"p\",\"file_name\":\"f\",\"more\":{\"tag\":\"x\"}}";
    assert_eq!(
        decode_record(text),
        CacheRead::Record(UpdateInfo {
            tag: "t".to_string(),
            file_name: "f".to_string(),
            file_size: 7,
            url: "u".to_string(),
            checksum: None,
            published_at: "p".to_string(),
            description: "d".to_string(),
        })
    );
}

#[test]
fn text_that_holds_no_record_is_corrupt() {
    let whole = encode_record(&record(Some("abc")));
    for text in [
        "",
        "not json",
        "[]",
        "null",
        "\"tag\"",
        "{}",
        &whole[..whole.len() - 1],
        &whole.replace("\"tag\"", "\"tug\""),
        &whole.replace("\"v1.1.0\"", "11"),
        &whole.replace("4096", "\"4096\""),
        &whole.replace("4096", "-1"),
        &whole.replace("4096", "4096.5"),
        &whole.replace("4096", "18446744073709551616"),
        &whole.replace("\"abc\"", "5"),
        &whole.replace("\"abc\"", "[]"),
        &whole.replace("\"abc\"", "{}"),
        &whole.replace("\"abc\"", "true"),
        &whole.replace("\"notes\"", "null"),
        &format!("[{}]", whole),
    ] {
        assert_eq!(decode_record(text), CacheRead::Corrupt, "{}", text);
    }
    assert_eq!(
        decode_record(&whole.replace("4096", "18446744073709551615")),
        CacheRead::Record(UpdateInfo {
            file_size: u64::MAX,
            ..record(Some("abc"))
        })
    );
    assert_eq!(
        decode_record(&whole.replace("\"abc\"", "null")),
        CacheRead::Record(record(None))
    );
}

#[test]
fn members_carry_the_fields_under_their_names() {
    let members = record_members(&record(None));
    assert_eq!(
        members,
        vec![
            ("tag".to_string(), FieldValue::Text("v1.1.0".to_string())),
            ("file_name".to_string(), FieldValue::Text("9-base-dicts.zip".to_string())),
            ("file_size".to_string(), FieldValue::Number(Some(4096))),
            (
                "url".to_string(),
                FieldValue::Text(
                    "https://github.com/o/r/releases/download/v1.1.0/9-base-dicts.zip".to_string()
                )
            ),
            ("checksum".to_string(), FieldValue::Null),
            ("published_at".to_string(), FieldValue::Text("2024-05-01T00:00:00Z".to_string())),
            ("description".to_string(), FieldValue::Text("notes".to_string())),
        ]
    );
    let members = record_members(&record(Some("h")));
    assert_eq!(members[4], ("checksum".to_string(), FieldValue::Text("h".to_string())));
}

#[test]
fn nothing_found_is_a_missing_record() {
    assert_eq!(read_record(&None), CacheRead::Missing);
    assert_eq!(read_record(&Some(String::new())), CacheRead::Corrupt);
    let text = encode_record(&record(None));
    assert_eq!(read_record(&Some(text)), CacheRead::Record(record(None)));
}
