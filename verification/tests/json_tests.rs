use swarm_relay::json::{get_field_is_null, get_field_number, get_field_raw, get_field_string,
    get_has_field, json_validate};

fn jb(t: &str) -> Vec<u8> {
    t.as_bytes().to_vec()
}

#[test]
fn whole_messages_validate() {
    assert!(json_validate(&jb("{\"a\":1}")));
    assert!(json_validate(&jb("  [1, 2.5, -3e2, \"x\", true, false, null]  ")));
    assert!(json_validate(&jb("\"hi \\\"there\\\"\"")));
    assert!(json_validate(&jb("0")));
    assert!(!json_validate(&jb("")));
    assert!(!json_validate(&jb("{\"a\":1")));
    assert!(!json_validate(&jb("{\"a\":1} trailing")));
    assert!(!json_validate(&jb("{'a':1}")));
    assert!(!json_validate(&jb("[01]")));
    assert!(!json_validate(&jb("[1,]")));
}

#[test]
fn field_extraction_by_kind() {
    let m = jb("{\"name\": \"vee\", \"count\": 12.5, \"data\": {\"inner\": [1,2]}, \"gone\": null}");
    assert_eq!(get_field_string(&m, &jb("name")), Some(jb("vee")));
    assert_eq!(get_field_number(&m, &jb("count")), Some(jb("12.5")));
    assert_eq!(get_field_raw(&m, &jb("data")), Some(jb("{\"inner\": [1,2]}")));
    assert!(get_field_is_null(&m, &jb("gone")));
    assert!(!get_field_is_null(&m, &jb("name")));
    assert!(get_has_field(&m, &jb("gone")));
    assert!(!get_has_field(&m, &jb("missing")));
    assert_eq!(get_field_string(&m, &jb("count")), None);
    assert_eq!(get_field_number(&m, &jb("name")), None);
}

#[test]
fn repeated_keys_last_one_wins() {
    let m = jb("{\"a\": 1, \"a\": 2}");
    assert_eq!(get_field_number(&m, &jb("a")), Some(jb("2")));
}

#[test]
fn string_escapes_are_checked_and_kept() {
    let m = jb("{\"a\": \"x\\n\\\"y\\u0041\"}");
    assert_eq!(get_field_string(&m, &jb("a")), Some(jb("x\\n\\\"y\\u0041")));
    assert!(!json_validate(&jb("{\"a\": \"bad\\q\"}")));
    assert!(!json_validate(&jb("{\"a\": \"bad\\u12\"}")));
}

#[test]
fn nesting_deeper_than_the_budget_is_rejected() {
    let mut deep = String::new();
    for _ in 0..127 {
        deep.push('[');
    }
    deep.push_str("1");
    for _ in 0..127 {
        deep.push(']');
    }
    assert!(json_validate(&jb(&deep)));
    let mut too_deep = String::new();
    for _ in 0..200 {
        too_deep.push('[');
    }
    too_deep.push_str("1");
    for _ in 0..200 {
        too_deep.push(']');
    }
    assert!(!json_validate(&jb(&too_deep)));
}

#[test]
fn non_object_messages_have_no_fields() {
    assert_eq!(get_field_raw(&jb("[1,2,3]"), &jb("a")), None);
    assert_eq!(get_field_raw(&jb("12"), &jb("a")), None);
    assert_eq!(get_field_raw(&jb("{}"), &jb("a")), None);
}

#[test]
fn whitespace_around_members_is_accepted() {
    let m = jb("  {  \"a\"  :  { \"b\" : [ 1 , 2 ] }  ,  \"c\" : \"d\" }  ");
    assert_eq!(get_field_raw(&m, &jb("a")), Some(jb("{ \"b\" : [ 1 , 2 ] }")));
    assert_eq!(get_field_string(&m, &jb("c")), Some(jb("d")));
}

#[test]
fn number_lexemes_cover_the_grammar() {
    assert!(json_validate(&jb("[-0, 0.5, 1e+10, 2E-3, 123.456e7]")));
    assert!(!json_validate(&jb("1.")));
    assert!(!json_validate(&jb(".5")));
    assert!(!json_validate(&jb("1e")));
    assert!(!json_validate(&jb("+1")));
}
