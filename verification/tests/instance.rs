use yt::instance::{pick_instance, usable_uris, Instance, DIRECTORY_URL};

fn instance(kind: &str, uri: &str, supports_api: Option<bool>) -> Instance {
    Instance { kind: kind.to_string(), uri: uri.to_string(), supports_api }
}

fn named(name: &str, kind: &str, uri: &str, supports_api: Option<bool>) -> (String, Instance) {
    (name.to_string(), instance(kind, uri, supports_api))
}

#[test]
fn directory_has_its_address() {
    assert_eq!(DIRECTORY_URL, "https://api.invidious.io/instances.json");
}

#[test]
fn usable_needs_an_http_kind_and_a_known_api() {
    assert!(instance("https", "https://a", Some(true)).is_usable());
    assert!(instance("http", "http://a", Some(true)).is_usable());
    assert!(!instance("http", "http://a", Some(false)).is_usable());
    assert!(!instance("https", "https://a", None).is_usable());
    assert!(!instance("ftp", "ftp://a", Some(true)).is_usable());
    assert!(!instance("onion", "http://a.onion", Some(true)).is_usable());
    assert!(!instance("", "https://a", Some(true)).is_usable());
    assert!(!instance("htt", "https://a", Some(true)).is_usable());
    assert!(!instance("HTTPS", "https://a", Some(true)).is_usable());
}

#[test]
fn usable_uris_keeps_the_usable_ones_in_order() {
    let directory = vec![
        named("one", "http", "http://no-api.example", Some(false)),
        named("two", "ftp", "ftp://files.example", Some(true)),
        named("three", "https", "https://good.example", Some(true)),
        named("four", "onion", "http://hidden.onion", Some(true)),
        named("five", "https", "https://unknown.example", None),
        named("six", "http", "http://plain.example", Some(true)),
    ];
    assert_eq!(
        usable_uris(&directory),
        vec!["https://good.example".to_string(), "http://plain.example".to_string()]
    );
}

#[test]
fn usable_uris_of_nothing_usable_is_empty() {
    let none: Vec<(String, Instance)> = vec![];
    assert_eq!(usable_uris(&none), Vec::<String>::new());
    let directory = vec![
        named("one", "http", "http://no-api.example", Some(false)),
        named("two", "ftp", "ftp://files.example", Some(true)),
    ];
    assert_eq!(usable_uris(&directory), Vec::<String>::new());
}

#[test]
fn usable_uris_keeps_an_address_listed_twice() {
    let directory = vec![
        named("a", "https", "https://same.example", Some(true)),
        named("b", "https", "https://same.example", Some(true)),
    ];
    assert_eq!(usable_uris(&directory).len(), 2);
}

#[test]
fn pick_instance_takes_the_remainder() {
    let list = vec!["a".to_string(), "b".to_string(), "c".to_string()];
    assert_eq!(pick_instance(&list, 0), Some("a".to_string()));
    assert_eq!(pick_instance(&list, 1), Some("b".to_string()));
    assert_eq!(pick_instance(&list, 2), Some("c".to_string()));
    assert_eq!(pick_instance(&list, 3), Some("a".to_string()));
    assert_eq!(pick_instance(&list, 10), Some("b".to_string()));
    assert_eq!(pick_instance(&list, usize::MAX), Some(list[usize::MAX % 3].clone()));
    let one = vec!["only".to_string()];
    assert_eq!(pick_instance(&one, 12345), Some("only".to_string()));
}

#[test]
fn pick_instance_from_an_empty_list_gives_nothing() {
    let none: Vec<String> = vec![];
    assert_eq!(pick_instance(&none, 0), None);
    assert_eq!(pick_instance(&none, 7), None);
}

#[test]
fn an_unusable_instance_is_never_picked() {
    let directory = vec![
        named("one", "http", "http://no-api.example", Some(false)),
        named("two", "ftp", "ftp://files.example", Some(true)),
        named("three", "https", "https://good.example", Some(true)),
    ];
    let list = usable_uris(&directory);
    for random in 0..20usize {
        assert_eq!(pick_instance(&list, random), Some("https://good.example".to_string()));
    }
}
