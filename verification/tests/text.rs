use fbpml::text::{
    decimal_string, has_basename, hex2_string, join_path, replace, replace_basename, set_extension,
};

#[test]
fn decimal_of_small_and_large_numbers() {
    assert_eq!(decimal_string(0), "0");
    assert_eq!(decimal_string(7), "7");
    assert_eq!(decimal_string(10), "10");
    assert_eq!(decimal_string(1234567890), "1234567890");
    assert_eq!(decimal_string(u128::MAX), u128::MAX.to_string());
}

#[test]
fn hex_is_upper_case_and_padded_to_two_digits() {
    assert_eq!(hex2_string(0), "00");
    assert_eq!(hex2_string(10), "0A");
    assert_eq!(hex2_string(15), "0F");
    assert_eq!(hex2_string(16), "10");
    assert_eq!(hex2_string(255), "FF");
    assert_eq!(hex2_string(256), "100");
}

#[test]
fn replace_takes_every_occurrence_from_the_left() {
    assert_eq!(replace("10.0.ID.2:50051", "ID", "7"), "10.0.7.2:50051");
    assert_eq!(replace("IDID", "ID", "x"), "xx");
    assert_eq!(replace("aaa", "aa", "b"), "ba");
    assert_eq!(replace("abc", "", "x"), "abc");
    assert_eq!(replace("I", "ID", "x"), "I");
    assert_eq!(replace("", "ID", "x"), "");
}

#[test]
fn socket_template_renders_hex_id_in_basename() {
    let rendered = replace_basename("firecracker-{bench}-IDh.socket", "IDh", &hex2_string(10));
    assert_eq!(rendered, "firecracker-{bench}-0A.socket");
}

#[test]
fn directory_part_is_left_alone() {
    assert_eq!(
        replace_basename("/run/IDh/fc-IDh.sock", "IDh", "0B"),
        "/run/IDh/fc-0B.sock"
    );
    assert_eq!(replace_basename("/run/IDh/", "IDh", "0B"), "/run/IDh/");
}

#[test]
fn token_without_occurrence_changes_nothing() {
    assert_eq!(replace("10.0.0.2:50051", "ID", "7"), "10.0.0.2:50051");
}

#[test]
fn replacement_is_not_scanned_again() {
    assert_eq!(replace("ID", "ID", "IDID"), "IDID");
    assert_eq!(replace("xIDhIDh", "IDh", "ID"), "xIDID");
}

#[test]
fn basename_is_what_follows_the_last_slash() {
    assert!(has_basename("fc.sock"));
    assert!(has_basename("/tmp/fc.sock"));
    assert!(has_basename("/tmp/."));
    assert!(!has_basename(""));
    assert!(!has_basename("/"));
    assert!(!has_basename("/tmp/"));
    assert!(!has_basename(".."));
    assert!(!has_basename("/tmp/.."));
}

#[test]
fn join_puts_one_separator_between_directory_and_name() {
    assert_eq!(join_path("/store", "logs"), "/store/logs");
    assert_eq!(join_path("/store/", "logs"), "/store/logs");
    assert_eq!(join_path("", "logs"), "logs");
    assert_eq!(join_path("/store", "/abs"), "/abs");
    assert_eq!(join_path("store", ""), "store/");
}

#[test]
fn extension_replaces_what_follows_the_last_dot_of_the_basename() {
    assert_eq!(set_extension("/s/logs/fc-hello-0A", "log"), "/s/logs/fc-hello-0A.log");
    assert_eq!(set_extension("/s/logs/fc-a.b-0A", "log"), "/s/logs/fc-a.log");
    assert_eq!(set_extension("/s.d/fc-hello-0A", "metrics"), "/s.d/fc-hello-0A.metrics");
    assert_eq!(set_extension(".hidden", "log"), ".hidden.log");
    assert_eq!(set_extension("a.", "log"), "a.log");
    assert_eq!(set_extension("/tmp/", "log"), "/tmp/");
}
