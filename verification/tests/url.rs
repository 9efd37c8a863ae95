use firebase_db::url::build_url;

/// The indices at which `text` holds two slashes in a row.
fn doubled_slashes(text: &str) -> Vec<usize> {
    let chars: Vec<char> = text.chars().collect();
    let mut found = Vec::new();
    let mut i = 0;
    while i + 1 < chars.len() {
        if chars[i] == '/' && chars[i + 1] == '/' {
            found.push(i);
        }
        i += 1;
    }
    found
}

#[test]
fn url_of_a_nested_path() {
    assert_eq!(
        build_url("wave-mainframe-default-rtdb", "users/tom", "ya29.token"),
        "https://wave-mainframe-default-rtdb.firebaseio.com/users/tom.json?access_token=ya29.token"
    );
}

#[test]
fn url_of_a_single_segment() {
    assert_eq!(build_url("p", "a", "t"), "https://p.firebaseio.com/a.json?access_token=t");
}

#[test]
fn url_of_empty_parts() {
    assert_eq!(build_url("", "", ""), "https://.firebaseio.com/.json?access_token=");
}

#[test]
fn url_keeps_parts_as_given() {
    assert_eq!(
        build_url("my proj", "a b/c?d", "x&y=z"),
        "https://my proj.firebaseio.com/a b/c?d.json?access_token=x&y=z"
    );
}

#[test]
fn url_keeps_non_ascii_parts() {
    assert_eq!(
        build_url("p", "caf\u{e9}/\u{4e16}", "t"),
        "https://p.firebaseio.com/caf\u{e9}/\u{4e16}.json?access_token=t"
    );
}

#[test]
fn url_without_leading_slash_has_one_double_slash() {
    let url = build_url("proj", "users/joe", "tok");
    assert_eq!(doubled_slashes(&url), vec![6]);
}

#[test]
fn url_with_leading_slash_has_a_second_double_slash() {
    let url = build_url("proj", "/users/joe", "tok");
    assert_eq!(url, "https://proj.firebaseio.com//users/joe.json?access_token=tok");
    assert_eq!(doubled_slashes(&url), vec![6, "proj".len() + 23]);
}

#[test]
fn url_with_trailing_slash_in_path_has_one_double_slash() {
    let url = build_url("proj", "users/", "tok");
    assert_eq!(url, "https://proj.firebaseio.com/users/.json?access_token=tok");
    assert_eq!(doubled_slashes(&url), vec![6]);
}

#[test]
fn url_shows_a_double_slash_inside_the_token() {
    let url = build_url("proj", "users", "a//b");
    assert_eq!(url, "https://proj.firebaseio.com/users.json?access_token=a//b");
    assert_eq!(doubled_slashes(&url), vec![6, url.len() - 3]);
}

#[test]
fn url_is_as_long_as_its_parts_and_the_fixed_text() {
    let url = build_url("wave-mainframe-default-rtdb", "users/tom", "tok");
    let parts = "wave-mainframe-default-rtdb".len() + "users/tom".len() + "tok".len();
    assert_eq!(url.chars().count(), parts + 43);
}
