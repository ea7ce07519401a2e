use base64::Engine;
use feed_relay::media::{
    decode_base64, decoded_text, fetch_nitter_images, fetch_twi_images, get_image_id, media_url,
    parse_sources, resolve_images,
};
use feed_relay::web::Url;

fn texts(urls: &[Url]) -> Vec<String> {
    urls.iter().map(|u| u.to_string()).collect()
}

#[test]
fn get_image_id_of_a_marked_segment() {
    let url = Url::parse("https://nitter.net/pic/media%2FFabc.jpg").unwrap();
    assert_eq!(get_image_id(&url), Some("media/Fabc.jpg".to_string()));
}

#[test]
fn get_image_id_of_a_marked_segment_without_encoding() {
    let url = Url::parse("https://nitter.net/pic/media_x.jpg").unwrap();
    assert_eq!(get_image_id(&url), Some("media_x.jpg".to_string()));
}

#[test]
fn get_image_id_of_a_base64_token() {
    let url = Url::parse("https://nitter.net/pic/enc/bWVkaWEvRmFiYy5qcGc=").unwrap();
    assert_eq!(get_image_id(&url), Some("media/Fabc.jpg".to_string()));
}

#[test]
fn get_image_id_drops_what_is_not_base64() {
    let url = Url::parse("https://nitter.net/pic/Fabc.jpg").unwrap();
    assert_eq!(get_image_id(&url), None);
}

#[test]
fn get_image_id_drops_base64_that_is_not_utf8() {
    let url = Url::parse("https://nitter.net/pic/enc/gICA").unwrap();
    assert_eq!(get_image_id(&url), None);
}

#[test]
fn get_image_id_needs_a_last_segment() {
    let url = Url::parse("https://nitter.net/pic/").unwrap();
    assert_eq!(get_image_id(&url), None);
}

#[test]
fn decode_base64_cases() {
    assert_eq!(decode_base64("bWVkaWEvRzEucG5n"), Some("media/G1.png".to_string()));
    assert_eq!(decode_base64(""), Some(String::new()));
    assert_eq!(decode_base64("gICA"), None);
    assert_eq!(decode_base64("bWVkaWEvRzEucG5"), None);
    assert_eq!(decode_base64("bWVk*WEv"), None);
}

#[test]
fn decoded_text_cases() {
    assert_eq!(decoded_text(Some(b"media/x".to_vec())), Some("media/x".to_string()));
    assert_eq!(decoded_text(Some(vec![0xff])), None);
    assert_eq!(decoded_text(Some(Vec::new())), Some(String::new()));
    assert_eq!(decoded_text(None), None);
}

#[test]
fn parse_sources_keeps_the_addresses() {
    let sources = vec![
        Some("https://nitter.net/pic/a".to_string()),
        None,
        Some("pic/b".to_string()),
        Some("https://nitter.net/pic/c".to_string()),
    ];
    assert_eq!(
        texts(&parse_sources(&sources)),
        vec!["https://nitter.net/pic/a", "https://nitter.net/pic/c"]
    );
    assert!(parse_sources(&Vec::new()).is_empty());
}

#[test]
fn fetch_nitter_images_reads_every_img_with_a_source() {
    let description = "<p>text <a href=\"https://nitter.net/x\">x</a></p>\
        <img src=\"https://nitter.net/pic/media%2FFabc.jpg\" style=\"max-width:250px;\" />\
        <img alt=\"no source\">\
        <img src=\"/pic/relative.jpg\">\
        <IMG SRC=\"https://nitter.net/pic/enc/bWVkaWEvRzEucG5n\">";
    assert_eq!(
        texts(&fetch_nitter_images(description)),
        vec![
            "https://nitter.net/pic/media%2FFabc.jpg",
            "https://nitter.net/pic/enc/bWVkaWEvRzEucG5n"
        ]
    );
}

#[test]
fn fetch_nitter_images_of_plain_text() {
    assert!(fetch_nitter_images("just text").is_empty());
    assert!(fetch_nitter_images("").is_empty());
}

#[test]
fn resolve_images_joins_the_path_to_the_media_host() {
    let shown = vec![
        Url::parse("https://nitter.net/pic/media%2FFabc.jpg").unwrap(),
        Url::parse("https://nitter.net/pic/Fabc.jpg").unwrap(),
        Url::parse("https://nitter.net/pic/enc/bWVkaWEvRzEucG5n").unwrap(),
    ];
    assert_eq!(
        texts(&resolve_images(&shown)),
        vec!["https://pbs.twimg.com/media/Fabc.jpg", "https://pbs.twimg.com/media/G1.png"]
    );
}

#[test]
fn fetch_twi_images_round_trip() {
    let description = "<img src=\"https://nitter.net/pic/media%2FFabc.jpg\" />";
    assert_eq!(
        texts(&fetch_twi_images(description)),
        vec!["https://pbs.twimg.com/media/Fabc.jpg"]
    );
}

#[test]
fn fetch_twi_images_of_a_base64_token() {
    let description = "<img src=\"https://nitter.net/pic/enc/bWVkaWEvRmFiYy5qcGc=\" />";
    assert_eq!(
        texts(&fetch_twi_images(description)),
        vec!["https://pbs.twimg.com/media/Fabc.jpg"]
    );
}

#[test]
fn fetch_twi_images_drops_what_cannot_be_resolved() {
    let description = "<img src=\"https://nitter.net/pic/enc/gICA\" />\
        <img src=\"https://nitter.net/pic/not*base64\" />\
        <img src=\"https://nitter.net/pic/media%2FG2.jpg\" />";
    assert_eq!(
        texts(&fetch_twi_images(description)),
        vec!["https://pbs.twimg.com/media/G2.jpg"]
    );
}

#[test]
fn get_image_id_gives_back_what_was_encoded() {
    let paths = ["media/Fabc.jpg", "media/\u{e9}t\u{e9}.jpg", "x", "tweet_video_thumb/A_b-c.jpg"];
    for path in paths {
        let token = base64::engine::general_purpose::STANDARD.encode(path);
        if token.contains('/') || token.starts_with("media") {
            continue;
        }
        let url = Url::parse(&format!("https://nitter.net/pic/enc/{token}")).unwrap();
        assert_eq!(get_image_id(&url), Some(path.to_string()));
    }
    let url = Url::parse("https://nitter.net/pic/enc/bWVkaWEvw6l0w6kuanBn").unwrap();
    assert_eq!(get_image_id(&url), Some("media/\u{e9}t\u{e9}.jpg".to_string()));
}

#[test]
fn media_url_stays_on_the_media_host() {
    assert_eq!(
        media_url("media/Z.jpg").unwrap().as_str(),
        "https://pbs.twimg.com/media/Z.jpg"
    );
    assert_eq!(
        media_url("https://pbs.twimg.com/media/Z.jpg").unwrap().as_str(),
        "https://pbs.twimg.com/media/Z.jpg"
    );
    assert_eq!(media_url("//evil.example/x.jpg"), None);
    assert_eq!(media_url("https://evil.example/x.jpg"), None);
    assert_eq!(media_url("https://"), None);
}

#[test]
fn resolve_images_drops_a_token_that_leads_off_the_media_host() {
    let shown = vec![
        Url::parse("https://nitter.net/pic/enc/Ly9ldmlsLmV4YW1wbGUveC5qcGc=").unwrap(),
        Url::parse("https://nitter.net/pic/enc/aHR0cHM6Ly9ldmlsLmV4YW1wbGUveC5qcGc=").unwrap(),
        Url::parse("https://nitter.net/pic/enc/aHR0cHM6Ly9wYnMudHdpbWcuY29tL21lZGlhL1ouanBn").unwrap(),
    ];
    assert_eq!(texts(&resolve_images(&shown)), vec!["https://pbs.twimg.com/media/Z.jpg"]);
}

#[test]
fn get_image_id_reads_the_last_segment_of_the_path() {
    let url = Url::parse("https://nitter.net/pic/media%2FFabc.jpg?name=small#top").unwrap();
    assert_eq!(get_image_id(&url), Some("media/Fabc.jpg".to_string()));
    let url = Url::parse("https://nitter.net/pic/enc/bWVkaWEvRzEucG5n?x=a/b").unwrap();
    assert_eq!(get_image_id(&url), Some("media/G1.png".to_string()));
    let url = Url::parse("https://nitter.net/pic/?next=/media").unwrap();
    assert_eq!(get_image_id(&url), None);
}
