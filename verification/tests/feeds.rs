use feed_relay::feed::{get_twi_info, parse_feed, Feed, FeedError, RawItem, MAX_OPENING_TAGS};

const DOCUMENT: &str = "<?xml version=\"1.0\" encoding=\"UTF-8\"?>\
<rss version=\"2.0\"><channel>\
<title>Bob / @bob</title>\
<link>https://nitter.net/bob</link>\
<description>Twitter feed for: @bob.</description>\
<image><title>Bob / @bob</title><link>https://nitter.net/bob</link>\
<url>https://nitter.net/pic/profile_images%2F1%2Fbob.jpg</url></image>\
<item><title>second</title><description>&lt;p&gt;second&lt;/p&gt;</description>\
<pubDate>Tue, 02 May 2023 10:00:00 GMT</pubDate>\
<link>https://nitter.net/bob/status/2#m</link></item>\
<item><title>first</title>\
<pubDate>Mon, 01 May 2023 10:00:00 GMT</pubDate></item>\
</channel></rss>";

#[test]
fn parse_feed_reads_title_image_and_items() {
    let feed = parse_feed(DOCUMENT.as_bytes()).unwrap();
    assert_eq!(feed.title, "Bob / @bob");
    assert_eq!(
        feed.image,
        Some("https://nitter.net/pic/profile_images%2F1%2Fbob.jpg".to_string())
    );
    assert_eq!(
        feed.items,
        vec![
            RawItem {
                link: Some("https://nitter.net/bob/status/2#m".to_string()),
                pub_date: Some("Tue, 02 May 2023 10:00:00 GMT".to_string()),
                description: Some("<p>second</p>".to_string()),
            },
            RawItem {
                link: None,
                pub_date: Some("Mon, 01 May 2023 10:00:00 GMT".to_string()),
                description: None,
            },
        ]
    );
}

#[test]
fn parse_feed_rejects_what_is_no_feed() {
    assert_eq!(parse_feed(b"<html></html>"), Err(FeedError::Malformed));
    assert_eq!(parse_feed(b""), Err(FeedError::Malformed));
    assert_eq!(parse_feed(b"not xml"), Err(FeedError::Malformed));
}

#[test]
fn parse_feed_without_items() {
    let feed = parse_feed(b"<rss version=\"2.0\"><channel><title>t</title></channel></rss>")
        .unwrap();
    assert_eq!(feed.title, "t");
    assert_eq!(feed.image, None);
    assert!(feed.items.is_empty());
}

#[test]
fn raw_item_clone_keeps_every_field() {
    let item = RawItem {
        link: Some("l".to_string()),
        pub_date: None,
        description: Some("d".to_string()),
    };
    assert_eq!(item.clone(), item);
}

#[test]
fn get_twi_info_takes_name_and_picture() {
    let feed = parse_feed(DOCUMENT.as_bytes()).unwrap();
    let info = get_twi_info(&feed, "bob".to_string()).unwrap();
    assert_eq!(info.display_name, "Bob");
    assert_eq!(info.account, "bob");
    assert_eq!(
        info.icon_url.as_str(),
        "https://nitter.net/pic/profile_images%2F1%2Fbob.jpg"
    );
}

#[test]
fn get_twi_info_keeps_a_title_of_another_account() {
    let feed = parse_feed(DOCUMENT.as_bytes()).unwrap();
    let info = get_twi_info(&feed, "alice".to_string()).unwrap();
    assert_eq!(info.display_name, "Bob / @bob");
    assert_eq!(info.account, "alice");
}

#[test]
fn get_twi_info_needs_an_image() {
    let feed = Feed { title: "Bob / @bob".to_string(), image: None, items: Vec::new() };
    assert_eq!(get_twi_info(&feed, "bob".to_string()), Err(FeedError::NoImage));
}

#[test]
fn get_twi_info_needs_an_address_of_the_image() {
    let feed = Feed {
        title: "Bob / @bob".to_string(),
        image: Some("/pic/bob.jpg".to_string()),
        items: Vec::new(),
    };
    assert_eq!(get_twi_info(&feed, "bob".to_string()), Err(FeedError::InvalidIcon));
}

fn with_items(count: usize) -> String {
    format!(
        "<rss version=\"2.0\"><channel><title>t</title>{}</channel></rss>",
        "<item/>".repeat(count)
    )
}

#[test]
fn parse_feed_reads_a_document_with_as_many_tags_as_allowed() {
    assert_eq!(MAX_OPENING_TAGS, 1024);
    let feed = parse_feed(with_items(MAX_OPENING_TAGS - 3).as_bytes()).unwrap();
    assert_eq!(feed.items.len(), MAX_OPENING_TAGS - 3);
}

#[test]
fn parse_feed_refuses_a_document_with_one_tag_more() {
    assert_eq!(
        parse_feed(with_items(MAX_OPENING_TAGS - 2).as_bytes()),
        Err(FeedError::TooManyTags)
    );
}

#[test]
fn parse_feed_refuses_a_deeply_nested_document() {
    let document = format!(
        "<rss version=\"2.0\"><channel><title>t</title><dc:a>{}",
        "<b>".repeat(100_000)
    );
    assert_eq!(parse_feed(document.as_bytes()), Err(FeedError::TooManyTags));
}

#[test]
fn parse_feed_counts_only_what_may_open_an_element() {
    let document = format!(
        "<?xml version=\"1.0\"?><rss version=\"2.0\"><channel><title>t</title>\
         <!-- {} -->{}</channel></rss>",
        "<!x>".repeat(2000),
        "<item></item>".repeat(MAX_OPENING_TAGS - 3)
    );
    let feed = parse_feed(document.as_bytes()).unwrap();
    assert_eq!(feed.items.len(), MAX_OPENING_TAGS - 3);
}

#[test]
fn parse_feed_takes_an_empty_date_for_none() {
    let document = "<rss version=\"2.0\"><channel><title>t</title>\
        <item><pubDate></pubDate><link>https://nitter.net/bob/status/1</link></item>\
        </channel></rss>";
    let feed = parse_feed(document.as_bytes()).unwrap();
    assert_eq!(feed.items.len(), 1);
    assert_eq!(feed.items[0].pub_date, None);
}

#[test]
fn parse_feed_reads_as_deep_as_it_admits() {
    let depth = MAX_OPENING_TAGS - 4;
    let document = format!(
        "<rss version=\"2.0\" xmlns:dc=\"http://purl.org/dc/elements/1.1/\"><channel>\
         <title>t</title><dc:a>{}{}</dc:a></channel></rss>",
        "<b>".repeat(depth),
        "</b>".repeat(depth)
    );
    let feed = parse_feed(document.as_bytes()).unwrap();
    assert_eq!(feed.title, "t");
    assert!(feed.items.is_empty());
}

#[test]
fn parse_feed_reads_as_deep_as_it_admits_inside_an_item() {
    let depth = MAX_OPENING_TAGS - 6;
    let document = format!(
        "<rss version=\"2.0\" xmlns:dc=\"http://purl.org/dc/elements/1.1/\"><channel>\
         <title>t</title><item><pubDate>T1</pubDate><dc:a>{}{}</dc:a></item></channel></rss>",
        "<b>".repeat(depth),
        "</b>".repeat(depth)
    );
    let feed = parse_feed(document.as_bytes()).unwrap();
    assert_eq!(feed.items.len(), 1);
    assert_eq!(feed.items[0].pub_date, Some("T1".to_string()));
}
