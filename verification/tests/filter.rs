use reddsaver::filter::{accepted_requests, accepts, extension_of, media_request, SavedItem};

fn item(url: Option<&str>, subreddit: &str) -> SavedItem {
    SavedItem { url: url.map(String::from), subreddit: String::from(subreddit) }
}

#[test]
fn extension_is_what_follows_the_last_dot() {
    assert_eq!(extension_of("http://x/a.png"), "png");
    assert_eq!(extension_of("https://i.redd.it/abc.jpg"), "jpg");
    assert_eq!(extension_of("http://x/archive.tar.gz"), "gz");
    assert_eq!(extension_of("http://x/a.png?size=large"), "png?size=large");
}

#[test]
fn extension_without_a_dot_is_unknown() {
    assert_eq!(extension_of("localhost/picture"), "unknown");
    assert_eq!(extension_of(""), "unknown");
    assert_eq!(extension_of("jpg"), "unknown");
}

#[test]
fn extension_after_a_trailing_dot_is_empty() {
    assert_eq!(extension_of("http://x/a."), "");
    assert_eq!(extension_of("."), "");
}

#[test]
fn extension_counts_characters_not_bytes() {
    assert_eq!(extension_of("http://x/é中.png"), "png");
    assert_eq!(extension_of("http://x/a.पंग"), "पंग");
}

#[test]
fn urls_ending_in_jpg_or_png_are_accepted() {
    assert!(accepts("http://x/a.jpg"));
    assert!(accepts("http://x/a.png"));
    assert!(accepts("http://x/a.b.c.png"));
    assert!(accepts(".jpg"));
    assert!(accepts("http://x/é.png"));
}

#[test]
fn other_urls_are_rejected() {
    assert!(!accepts("http://x/a.gif"));
    assert!(!accepts("http://x/a.jpeg"));
    assert!(!accepts("http://x/a"));
    assert!(!accepts("localhost"));
    assert!(!accepts(""));
    assert!(!accepts("http://x/a.png/"));
    assert!(!accepts("http://x/a.png?raw=1"));
    assert!(!accepts("http://x/a.png."));
}

#[test]
fn the_extension_is_compared_with_its_case() {
    assert!(!accepts("http://x/a.JPG"));
    assert!(!accepts("http://x/a.Png"));
}

#[test]
fn a_bare_extension_without_a_dot_is_rejected() {
    assert!(!accepts("jpg"));
    assert!(!accepts("http://x/ajpg"));
    assert!(!accepts("png"));
    assert!(!accepts("unknown"));
}

#[test]
fn request_carries_url_extension_and_group() {
    let request = media_request(&item(Some("https://i.redd.it/abc.jpg"), "pics")).unwrap();
    assert_eq!(request.url, "https://i.redd.it/abc.jpg");
    assert_eq!(request.extension, "jpg");
    assert_eq!(request.subreddit, "pics");
}

#[test]
fn post_without_url_gives_no_request() {
    assert!(media_request(&item(None, "dogs")).is_none());
}

#[test]
fn post_with_other_extension_gives_no_request() {
    assert!(media_request(&item(Some("http://x/b.txt"), "cats")).is_none());
    assert!(media_request(&item(Some("http://x/b.gif"), "cats")).is_none());
    assert!(media_request(&item(Some("http://x/b"), "cats")).is_none());
}

#[test]
fn request_copy_is_equal() {
    let request = media_request(&item(Some("http://x/a.png"), "cats")).unwrap();
    let copy = request.clone();
    assert_eq!(copy.url, request.url);
    assert_eq!(copy.extension, request.extension);
    assert_eq!(copy.subreddit, request.subreddit);
}

#[test]
fn mixed_collection_gives_one_request() {
    let items = vec![
        item(Some("http://x/a.png"), "cats"),
        item(Some("http://x/b.txt"), "cats"),
        item(None, "dogs"),
    ];
    let requests = accepted_requests(&items);
    assert_eq!(requests.len(), 1);
    assert_eq!(requests[0].url, "http://x/a.png");
    assert_eq!(requests[0].extension, "png");
    assert_eq!(requests[0].subreddit, "cats");
}

#[test]
fn work_set_keeps_the_order_of_the_collection() {
    let items = vec![
        item(Some("http://x/3.jpg"), "c"),
        item(Some("http://x/skip.gif"), "c"),
        item(Some("http://x/1.png"), "a"),
        item(None, "b"),
        item(Some("http://x/2.png"), "b"),
    ];
    let requests = accepted_requests(&items);
    let urls: Vec<&str> = requests.iter().map(|request| request.url.as_str()).collect();
    assert_eq!(urls, vec!["http://x/3.jpg", "http://x/1.png", "http://x/2.png"]);
}

#[test]
fn empty_collection_gives_empty_work_set() {
    assert!(accepted_requests(&Vec::new()).is_empty());
}

#[test]
fn same_url_twice_gives_two_requests() {
    let items = vec![item(Some("http://x/a.png"), "cats"), item(Some("http://x/a.png"), "cats")];
    assert_eq!(accepted_requests(&items).len(), 2);
}
