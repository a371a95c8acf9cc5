use wikicache::handler::slug_ok;
use wikicache::orchestrate::article_url;

#[test]
fn article_url_is_origin_plus_slug() {
    assert_eq!(
        article_url(&String::from("Cat")),
        "https://en.wikipedia.org/wiki/Cat"
    );
    assert_eq!(
        article_url(&String::from("Dog_(animal)")),
        "https://en.wikipedia.org/wiki/Dog_(animal)"
    );
}

#[test]
fn ordinary_slugs_are_accepted() {
    assert!(slug_ok(&String::from("Cat")));
    assert!(slug_ok(&String::from("Dog_(animal)")));
    assert!(slug_ok(&String::from("C%C3%A9zanne")));
    assert!(slug_ok(&String::from("AC.DC")));
}

#[test]
fn injection_prone_slugs_are_refused() {
    assert!(!slug_ok(&String::from("")));
    assert!(!slug_ok(&String::from("a/b")));
    assert!(!slug_ok(&String::from("a?action=raw")));
    assert!(!slug_ok(&String::from("a#frag")));
    assert!(!slug_ok(&String::from("a b")));
    assert!(!slug_ok(&String::from("a\tb")));
    assert!(!slug_ok(&String::from("a{b}")));
}
