use wikicache::cache::Cache;
use wikicache::record::ArticleRecord;

fn record(slug: &str, title: &str, links: Vec<String>) -> ArticleRecord {
    ArticleRecord {
        title: String::from(title),
        slug: String::from(slug),
        content_html: format!("<div>{}</div>", title),
        links,
    }
}

#[test]
fn insert_does_not_alter_other_slugs() {
    let mut cache = Cache::new();
    cache.add(record("Cat", "Cat", vec![String::from("Dog")]));
    let before = cache.access_count(&String::from("Cat"));
    assert_eq!(before, Some(1));

    cache.add(record("Dog", "Dog", vec![]));
    assert_eq!(cache.access_count(&String::from("Cat")), Some(1));
    let looked = cache.lookup(&String::from("Cat")).expect("Cat must stay cached");
    assert_eq!(looked.title, "Cat");
    assert_eq!(looked.links, vec![String::from("Dog")]);
}

#[test]
fn lookup_after_insert_returns_deep_equal_record() {
    let mut cache = Cache::new();
    let original = record("Cat", "The Cat", vec![String::from("Dog"), String::from("Mouse")]);
    cache.add(original);
    cache.add(record("Tree", "Tree", vec![]));
    let mut unrelated = cache.lookup(&String::from("Tree"));
    assert!(unrelated.is_some());
    unrelated = cache.lookup(&String::from("Absent"));
    assert!(unrelated.is_none());

    let got = cache.lookup(&String::from("Cat")).expect("Cat must be cached");
    assert_eq!(got.title, "The Cat");
    assert_eq!(got.slug, "Cat");
    assert_eq!(got.content_html, "<div>The Cat</div>");
    assert_eq!(got.links, vec![String::from("Dog"), String::from("Mouse")]);
}

#[test]
fn repeated_lookups_increment_counter_by_one() {
    let mut cache = Cache::new();
    cache.add(record("Cat", "Cat", vec![]));
    assert_eq!(cache.access_count(&String::from("Cat")), Some(1));
    for expected in 2..6u64 {
        let hit = cache.lookup(&String::from("Cat"));
        assert!(hit.is_some());
        assert_eq!(cache.access_count(&String::from("Cat")), Some(expected));
    }
}

#[test]
fn absent_slug_has_no_observable_counter() {
    let mut cache = Cache::new();
    cache.add(record("Cat", "Cat", vec![]));
    assert_eq!(cache.access_count(&String::from("Dog")), None);
    let miss = cache.lookup(&String::from("Dog"));
    assert!(miss.is_none());
    assert_eq!(cache.access_count(&String::from("Dog")), None);
    assert!(!cache.contains(&String::from("Dog")));
}

#[test]
fn reinsert_replaces_record_and_bumps_counter() {
    let mut cache = Cache::new();
    cache.add(record("Cat", "Old title", vec![]));
    cache.add(record("Cat", "New title", vec![]));
    assert_eq!(cache.access_count(&String::from("Cat")), Some(2));
    let got = cache.lookup(&String::from("Cat")).expect("Cat must be cached");
    assert_eq!(got.title, "New title");
    assert_eq!(cache.access_count(&String::from("Cat")), Some(3));
}
