use story_factory::keys::{parse_submit_key, parse_task_key, submit_key, task_key};
use story_factory::text::{i32_to_string, parse_decimal, split_commas_exec, u64_to_string};
use story_factory::contract::build_token_uri;

#[test]
fn unsigned_numbers_render_in_decimal() {
    assert_eq!(u64_to_string(0), "0");
    assert_eq!(u64_to_string(7), "7");
    assert_eq!(u64_to_string(10), "10");
    assert_eq!(u64_to_string(1234567890), "1234567890");
    assert_eq!(u64_to_string(u64::MAX), u64::MAX.to_string());
}

#[test]
fn signed_numbers_render_in_decimal() {
    assert_eq!(i32_to_string(0), "0");
    assert_eq!(i32_to_string(42), "42");
    assert_eq!(i32_to_string(-5), "-5");
    assert_eq!(i32_to_string(i32::MIN), "-2147483648");
    assert_eq!(i32_to_string(i32::MAX), "2147483647");
}

#[test]
fn token_uris_join_prefix_number_and_extension() {
    assert_eq!(build_token_uri(&"ipfs://abc".to_string(), 12), "ipfs://abc/12.json");
    assert_eq!(build_token_uri(&"".to_string(), -1), "/-1.json");
}

#[test]
fn split_matches_std_split() {
    for text in ["", "a", "a,b", "a,,b", ",", "1,2,3,", ",x", "héllo,wörld"] {
        let expected: Vec<String> = text.split(',').map(|p| p.to_string()).collect();
        assert_eq!(split_commas_exec(text), expected, "splitting {:?}", text);
    }
}

#[test]
fn split_then_join_gives_back_the_text() {
    for text in ["", "1,2", ",,", "abc"] {
        let pieces = split_commas_exec(text);
        assert_eq!(pieces.join(","), text);
        assert_eq!(pieces.len(), text.matches(',').count() + 1);
    }
}

#[test]
fn decimal_parsing_accepts_only_renderings() {
    assert_eq!(parse_decimal("0"), Some(0));
    assert_eq!(parse_decimal("15"), Some(15));
    assert_eq!(parse_decimal("18446744073709551615"), Some(u64::MAX));
    assert_eq!(parse_decimal("18446744073709551616"), None);
    assert_eq!(parse_decimal("99999999999999999999"), None);
    assert_eq!(parse_decimal(""), None);
    assert_eq!(parse_decimal("007"), None);
    assert_eq!(parse_decimal("+7"), None);
    assert_eq!(parse_decimal("1a"), None);
    assert_eq!(parse_decimal("-1"), None);
}

#[test]
fn task_keys_round_trip() {
    assert_eq!(task_key(1, 2), "1,2");
    assert_eq!(parse_task_key("1,2"), Some((1, 2)));
    assert_eq!(parse_task_key(&task_key(u64::MAX, 0)), Some((u64::MAX, 0)));
    assert_eq!(parse_task_key("1,2,3"), None);
    assert_eq!(parse_task_key("12"), None);
    assert_eq!(parse_task_key("01,2"), None);
    assert_eq!(parse_task_key(",2"), None);
}

#[test]
fn submit_keys_round_trip() {
    assert_eq!(submit_key(3, 4, 5), "3,4,5");
    assert_eq!(parse_submit_key("3,4,5"), Some((3, 4, 5)));
    assert_eq!(parse_submit_key(&submit_key(10, 0, 99)), Some((10, 0, 99)));
    assert_eq!(parse_submit_key("3,4"), None);
    assert_eq!(parse_submit_key("3,4,5,6"), None);
    assert_eq!(parse_submit_key("3,x,5"), None);
}
