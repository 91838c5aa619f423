use rmp::model::MediaInfo;
use rmp::queue::{carries_all_tags, effective_pattern, media_matches, queue_ids};

fn medium(id: i64, uri: &str, title: Option<&str>, artist: Option<&str>, tags: &[&str]) -> MediaInfo {
    MediaInfo {
        id,
        uri: uri.to_string(),
        name: format!("m{id}"),
        title: title.map(|t| t.to_string()),
        artist: artist.map(|a| a.to_string()),
        kind: "offline".to_string(),
        source: None,
        duration: None,
        bitrate: None,
        tags: tags.iter().map(|t| t.to_string()).collect(),
        favorite: false,
    }
}

fn library() -> Vec<MediaInfo> {
    vec![
        medium(1, "/music/a.mp3", Some("Blue Train"), Some("Coltrane"), &["jazz", "sax"]),
        medium(2, "/music/b.mp3", Some("Paranoid"), Some("Black Sabbath"), &["rock", "metal"]),
        medium(3, "http://radio.example/stream", None, None, &["jazz", "radio"]),
        medium(4, "/music/d.mp3", Some("So What"), Some("Miles Davis"), &["jazz"]),
    ]
}

fn strings(xs: &[&str]) -> Vec<String> {
    xs.iter().map(|x| x.to_string()).collect()
}

#[test]
fn no_filter_keeps_the_library_order() {
    assert_eq!(queue_ids(&library(), &vec![], None), vec![1, 2, 3, 4]);
}

#[test]
fn every_checked_tag_must_be_carried() {
    assert_eq!(queue_ids(&library(), &strings(&["jazz"]), None), vec![1, 3, 4]);
    assert_eq!(queue_ids(&library(), &strings(&["jazz", "radio"]), None), vec![3]);
    assert_eq!(queue_ids(&library(), &strings(&["jazz", "rock"]), None), Vec::<i64>::new());
    assert!(carries_all_tags(&library()[0], &strings(&["sax", "jazz"])));
    assert!(!carries_all_tags(&library()[0], &strings(&["sax", "rock"])));
    assert!(carries_all_tags(&library()[0], &vec![]));
}

#[test]
fn search_looks_at_title_artist_uri_and_tags() {
    let lib = library();
    assert!(media_matches(&lib[0], "Train"));
    assert!(media_matches(&lib[0], "^Colt"));
    assert!(media_matches(&lib[0], r"a\.mp3$"));
    assert!(media_matches(&lib[0], "^sax$"));
    assert!(!media_matches(&lib[0], "Davis"));
    assert!(!media_matches(&lib[0], "m1"));
    assert_eq!(queue_ids(&lib, &vec![], Some("^http")), vec![3]);
    assert_eq!(queue_ids(&lib, &vec![], Some("Bl(ue|ack)")), vec![1, 2]);
    assert_eq!(queue_ids(&lib, &strings(&["jazz"]), Some("(?i)miles|radio")), vec![3, 4]);
}

#[test]
fn a_pattern_that_does_not_compile_matches_nothing() {
    let lib = library();
    assert!(!media_matches(&lib[0], "("));
    assert_eq!(queue_ids(&lib, &vec![], Some("(")), Vec::<i64>::new());
}

#[test]
fn the_search_filters_only_when_set_and_valid() {
    assert_eq!(effective_pattern(&None), None);
    assert_eq!(effective_pattern(&Some(String::new())), None);
    assert_eq!(effective_pattern(&Some("[".to_string())), None);
    assert_eq!(effective_pattern(&Some("jazz".to_string())), Some("jazz"));
}
