use relay::json::RawMessage;
use relay::message::{AgentMessage, DecodeError};

fn decode(text: &str) -> Result<AgentMessage, DecodeError> {
    AgentMessage::decode(text.as_bytes())
}

fn set_tab_count(count: u32) -> Result<AgentMessage, DecodeError> {
    Ok(AgentMessage::SetTabCount { count })
}

#[test]
fn decodes_set_tab_count() {
    assert_eq!(decode(r#"{"type":"SetTabCount","count":17}"#), set_tab_count(17));
}

#[test]
fn decodes_the_ends_of_the_count_range() {
    assert_eq!(decode(r#"{"type":"SetTabCount","count":0}"#), set_tab_count(0));
    assert_eq!(decode(r#"{"type":"SetTabCount","count":1}"#), set_tab_count(1));
    assert_eq!(
        decode(r#"{"type":"SetTabCount","count":4294967295}"#),
        set_tab_count(u32::MAX)
    );
}

#[test]
fn decodes_counts_across_the_range() {
    let mut count: u32 = 1;
    loop {
        let text = format!("{{\"type\":\"SetTabCount\",\"count\":{}}}", count);
        assert_eq!(decode(&text), set_tab_count(count));
        match count.checked_mul(3) {
            Some(next) => count = next,
            None => break,
        }
    }
}

#[test]
fn alias_decodes_like_the_name() {
    for count in ["0", "42", "4294967295", "4294967296", "-1", "\"7\"", "null"] {
        let named = format!("{{\"type\":\"SetTabCount\",\"count\":{}}}", count);
        let aliased = format!("{{\"type\":\"set_tab_count\",\"count\":{}}}", count);
        assert_eq!(decode(&aliased), decode(&named));
    }
    assert_eq!(decode(r#"{"type":"set_tab_count","count":42}"#), set_tab_count(42));
    assert_eq!(
        decode(r#"{"type":"set_tab_count"}"#),
        decode(r#"{"type":"SetTabCount"}"#)
    );
}

#[test]
fn member_order_and_layout_do_not_matter() {
    assert_eq!(decode(r#"{"count":3,"type":"SetTabCount"}"#), set_tab_count(3));
    assert_eq!(
        decode(" {\n  \"type\" : \"SetTabCount\" ,\n  \"count\" : 3\n}\n"),
        set_tab_count(3)
    );
}

#[test]
fn other_members_are_passed_over() {
    assert_eq!(
        decode(r#"{"type":"SetTabCount","count":3,"window":{"id":[1,2]},"note":null}"#),
        set_tab_count(3)
    );
}

#[test]
fn members_are_read_from_the_document_not_from_inside_it() {
    assert_eq!(
        decode(r#"{"inner":{"type":"SetTabCount","count":3}}"#),
        Err(DecodeError::MissingType)
    );
    assert_eq!(
        decode(r#"{"type":"SetTabCount","inner":{"count":3}}"#),
        Err(DecodeError::InvalidCount)
    );
}

#[test]
fn what_is_not_json_is_malformed() {
    for text in [
        "",
        " ",
        "{",
        "}",
        "{\"type\":\"SetTabCount\",\"count\":1",
        "{\"type\":\"SetTabCount\",\"count\":}",
        "{\"type\":\"SetTabCount\" \"count\":1}",
        "{type:\"SetTabCount\",count:1}",
        "{'type':'SetTabCount','count':1}",
        "{\"type\":\"SetTabCount\",\"count\":1}}",
        "{\"type\":\"SetTabCount\",\"count\":1} x",
        "{\"type\":\"SetTabCount\",\"count\":01}",
        "SetTabCount 1",
    ] {
        assert_eq!(decode(text), Err(DecodeError::Malformed), "{:?}", text);
    }
}

#[test]
fn bytes_that_are_not_utf8_are_malformed() {
    assert_eq!(AgentMessage::decode(&[0xff, 0xfe, 0x00]), Err(DecodeError::Malformed));
    let mut text = b"{\"type\":\"SetTabCount\",\"count\":1,\"x\":\"".to_vec();
    text.push(0xff);
    text.extend_from_slice(b"\"}");
    assert_eq!(AgentMessage::decode(&text), Err(DecodeError::Malformed));
}

#[test]
fn a_document_without_a_string_type_misses_the_type() {
    for text in [
        "{}",
        "{\"count\":1}",
        "{\"type\":null,\"count\":1}",
        "{\"type\":7,\"count\":1}",
        "{\"type\":[\"SetTabCount\"],\"count\":1}",
        "{\"Type\":\"SetTabCount\",\"count\":1}",
        "[]",
        "[\"SetTabCount\",1]",
        "null",
        "true",
        "1",
        "\"SetTabCount\"",
    ] {
        assert_eq!(decode(text), Err(DecodeError::MissingType), "{:?}", text);
    }
}

#[test]
fn a_type_that_names_nothing_is_unknown() {
    for tag in [
        "",
        "settabcount",
        "setTabCount",
        "SET_TAB_COUNT",
        "Set_Tab_Count",
        "SetTabCount ",
        " SetTabCount",
        "set-tab-count",
        "SetTabCounts",
        "GetTabCount",
    ] {
        let text = format!("{{\"type\":\"{}\",\"count\":1}}", tag);
        assert_eq!(decode(&text), Err(DecodeError::UnknownType), "{:?}", tag);
    }
}

#[test]
fn the_type_is_judged_before_the_count() {
    assert_eq!(decode(r#"{"type":"Other"}"#), Err(DecodeError::UnknownType));
    assert_eq!(
        decode(r#"{"type":"Other","count":4294967296}"#),
        Err(DecodeError::UnknownType)
    );
    assert_eq!(decode(r#"{"count":-1}"#), Err(DecodeError::MissingType));
}

#[test]
fn a_count_that_is_no_natural_number_is_invalid() {
    for count in [
        "-1",
        "-0",
        "1.5",
        "1.0",
        "1e2",
        "\"1\"",
        "null",
        "true",
        "[1]",
        "{\"count\":1}",
        "18446744073709551616",
    ] {
        let text = format!("{{\"type\":\"SetTabCount\",\"count\":{}}}", count);
        assert_eq!(decode(&text), Err(DecodeError::InvalidCount), "{:?}", count);
    }
    assert_eq!(decode(r#"{"type":"SetTabCount"}"#), Err(DecodeError::InvalidCount));
    assert_eq!(
        decode(r#"{"type":"SetTabCount","Count":1}"#),
        Err(DecodeError::InvalidCount)
    );
}

#[test]
fn a_count_beyond_32_bits_is_out_of_range() {
    for count in ["4294967296", "4294967297", "10000000000", "18446744073709551615"] {
        let text = format!("{{\"type\":\"SetTabCount\",\"count\":{}}}", count);
        assert_eq!(decode(&text), Err(DecodeError::CountOutOfRange), "{:?}", count);
    }
}

#[test]
fn escapes_in_the_type_are_resolved() {
    assert_eq!(
        decode(r#"{"type":"SetTab\u0043ount","count":9}"#),
        set_tab_count(9)
    );
    assert_eq!(
        decode(r#"{"type":"set\u005ftab_count","co\u0075nt":9}"#),
        set_tab_count(9)
    );
    assert_eq!(
        decode(r#"{"type":"SetTab\u0063ount","count":9}"#),
        Err(DecodeError::UnknownType)
    );
}

#[test]
fn count_accessor_gives_the_count() {
    assert_eq!(AgentMessage::SetTabCount { count: 12 }.count(), 12);
}

#[test]
fn from_fields_follows_the_two_members() {
    let raw = |tag: Option<&str>, count: Option<u64>| RawMessage {
        tag: tag.map(String::from),
        count,
    };
    assert_eq!(
        AgentMessage::from_fields(&raw(Some("SetTabCount"), Some(5))),
        set_tab_count(5)
    );
    assert_eq!(
        AgentMessage::from_fields(&raw(Some("set_tab_count"), Some(5))),
        set_tab_count(5)
    );
    assert_eq!(
        AgentMessage::from_fields(&raw(Some("SetTabCount"), Some(4294967295))),
        set_tab_count(u32::MAX)
    );
    assert_eq!(
        AgentMessage::from_fields(&raw(Some("SetTabCount"), Some(4294967296))),
        Err(DecodeError::CountOutOfRange)
    );
    assert_eq!(
        AgentMessage::from_fields(&raw(Some("SetTabCount"), Some(u64::MAX))),
        Err(DecodeError::CountOutOfRange)
    );
    assert_eq!(
        AgentMessage::from_fields(&raw(Some("SetTabCount"), None)),
        Err(DecodeError::InvalidCount)
    );
    assert_eq!(
        AgentMessage::from_fields(&raw(Some("setTabCount"), Some(5))),
        Err(DecodeError::UnknownType)
    );
    assert_eq!(
        AgentMessage::from_fields(&raw(None, Some(5))),
        Err(DecodeError::MissingType)
    );
    assert_eq!(AgentMessage::from_fields(&raw(None, None)), Err(DecodeError::MissingType));
}

#[test]
fn a_repeated_member_counts_by_its_last_value() {
    assert_eq!(
        decode(r#"{"type":"SetTabCount","count":1,"count":2}"#),
        set_tab_count(2)
    );
    assert_eq!(
        decode(r#"{"type":"Other","type":"set_tab_count","count":2}"#),
        set_tab_count(2)
    );
    assert_eq!(
        decode(r#"{"type":"SetTabCount","type":"Other","count":2}"#),
        Err(DecodeError::UnknownType)
    );
    assert_eq!(
        decode(r#"{"type":"SetTabCount","count":2,"count":"two"}"#),
        Err(DecodeError::InvalidCount)
    );
}

#[test]
fn nesting_beyond_the_parser_limit_is_malformed() {
    let shallow = format!(
        "{{\"type\":\"SetTabCount\",\"count\":1,\"x\":{}{}}}",
        "[".repeat(100),
        "]".repeat(100)
    );
    assert_eq!(decode(&shallow), set_tab_count(1));
    let deep = format!(
        "{{\"type\":\"SetTabCount\",\"count\":1,\"x\":{}{}}}",
        "[".repeat(200),
        "]".repeat(200)
    );
    assert_eq!(decode(&deep), Err(DecodeError::Malformed));
}
