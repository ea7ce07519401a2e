use feed_relay::detect::Tweet;
use feed_relay::dispatch::{
    retweet_text, tweet_imgs_contents, tweet_text, tweets_contents, Dispatcher, Message,
};
use feed_relay::feed::TwiInfo;
use feed_relay::web::Url;

fn post(address: &str, pics: &[&str]) -> Tweet {
    Tweet {
        twi_url: Url::parse(address).unwrap(),
        pics: pics.iter().map(|p| Url::parse(p).unwrap()).collect(),
    }
}

fn alice() -> TwiInfo {
    TwiInfo {
        icon_url: Url::parse("https://nitter.net/pic/alice.jpg").unwrap(),
        display_name: "Alice".to_string(),
        account: "alice".to_string(),
    }
}

fn to(channel: &str, text: &str) -> Message {
    Message {
        channel: channel.to_string(),
        text: text.to_string(),
        username: "Alice".to_string(),
        icon_url: "https://nitter.net/pic/alice.jpg".to_string(),
    }
}

fn run(dispatcher: &mut Dispatcher, fails: &[usize]) -> Vec<Message> {
    let mut tried = Vec::new();
    while let Some(message) = dispatcher.next() {
        let delivered = !fails.contains(&tried.len());
        tried.push(message);
        dispatcher.record(delivered);
    }
    tried
}

#[test]
fn retweet_text_test() {
    let twi_url_str = "https://twitter.com/test/status/0000";
    let twi_url = Url::parse(twi_url_str).unwrap();
    let tweet = Tweet {
        twi_url,
        pics: Vec::default(),
    };
    let account = "test";
    let display_name = "tester";

    let rt_text = retweet_text(&tweet, account, display_name).unwrap();

    assert_eq!("https://twitter.com/test/status/0000\ntester retweeted:", rt_text);
}

#[test]
fn retweet_text_can_always_be_made() {
    let tweet = post("https://twitter.com/test/status/0000", &[]);
    assert_eq!(
        retweet_text(&tweet, "https://", ""),
        Ok("https://twitter.com/test/status/0000\n retweeted:".to_string())
    );
}

#[test]
fn tweet_text_of_an_own_post_is_its_address() {
    let tweet = post("https://twitter.com/alice/status/1", &[]);
    assert_eq!(tweet_text(&tweet, &alice()), "https://twitter.com/alice/status/1");
}

#[test]
fn tweet_text_of_a_retweet_is_framed() {
    let tweet = post("https://twitter.com/bob/status/1", &[]);
    assert_eq!(
        tweet_text(&tweet, &alice()),
        "https://twitter.com/bob/status/1\nAlice retweeted:"
    );
}

#[test]
fn tweet_text_frames_every_retweet() {
    let tweet = post("https://twitter.com/bob/status/1", &[]);
    let mut info = alice();
    info.account = "https://".to_string();
    assert_eq!(
        tweet_text(&tweet, &info),
        "https://twitter.com/bob/status/1\nAlice retweeted:"
    );
}

#[test]
fn tweet_imgs_contents_leaves_out_the_first() {
    let none = post("https://twitter.com/alice/status/1", &[]);
    assert!(tweet_imgs_contents(&none).is_empty());
    let one = post("https://twitter.com/alice/status/1", &["https://pbs.twimg.com/media/a.jpg"]);
    assert!(tweet_imgs_contents(&one).is_empty());
    let three = post(
        "https://twitter.com/alice/status/1",
        &[
            "https://pbs.twimg.com/media/a.jpg",
            "https://pbs.twimg.com/media/b.jpg",
            "https://pbs.twimg.com/media/c.jpg",
        ],
    );
    assert_eq!(
        tweet_imgs_contents(&three),
        vec!["https://pbs.twimg.com/media/b.jpg", "https://pbs.twimg.com/media/c.jpg"]
    );
}

#[test]
fn tweets_contents_lists_post_after_post() {
    let tweets = vec![
        post(
            "https://twitter.com/alice/status/1",
            &["https://pbs.twimg.com/media/a.jpg", "https://pbs.twimg.com/media/b.jpg"],
        ),
        post("https://twitter.com/bob/status/2", &[]),
    ];
    assert_eq!(
        tweets_contents(&tweets, &alice()),
        vec![
            "https://twitter.com/alice/status/1",
            "https://pbs.twimg.com/media/b.jpg",
            "https://twitter.com/bob/status/2\nAlice retweeted:",
        ]
    );
    assert!(tweets_contents(&Vec::new(), &alice()).is_empty());
}

#[test]
fn fan_out_serves_channel_after_channel() {
    let first = post(
        "https://twitter.com/alice/status/1",
        &["https://pbs.twimg.com/media/a.jpg", "https://pbs.twimg.com/media/b.jpg"],
    );
    let second = post("https://twitter.com/alice/status/2", &[]);
    let channels = vec!["C1".to_string(), "C2".to_string()];
    let mut dispatcher = Dispatcher::new(channels, &vec![first, second], &alice());
    let sent = run(&mut dispatcher, &[]);
    assert_eq!(
        sent,
        vec![
            to("C1", "https://twitter.com/alice/status/1"),
            to("C1", "https://pbs.twimg.com/media/b.jpg"),
            to("C1", "https://twitter.com/alice/status/2"),
            to("C2", "https://twitter.com/alice/status/1"),
            to("C2", "https://pbs.twimg.com/media/b.jpg"),
            to("C2", "https://twitter.com/alice/status/2"),
        ]
    );
    assert!(dispatcher.is_done());
    assert_eq!(dispatcher.failed(), 0);
    assert_eq!(dispatcher.next(), None);
}

#[test]
fn fan_out_failure_ends_only_the_pass_of_its_channel() {
    let first = post("https://twitter.com/alice/status/1", &[]);
    let second = post("https://twitter.com/alice/status/2", &[]);
    let third = post("https://twitter.com/alice/status/3", &[]);
    let channels = vec!["C1".to_string(), "C2".to_string(), "C3".to_string()];
    let mut dispatcher = Dispatcher::new(channels, &vec![first, second, third], &alice());
    let tried = run(&mut dispatcher, &[1]);
    assert_eq!(
        tried,
        vec![
            to("C1", "https://twitter.com/alice/status/1"),
            to("C1", "https://twitter.com/alice/status/2"),
            to("C2", "https://twitter.com/alice/status/1"),
            to("C2", "https://twitter.com/alice/status/2"),
            to("C2", "https://twitter.com/alice/status/3"),
            to("C3", "https://twitter.com/alice/status/1"),
            to("C3", "https://twitter.com/alice/status/2"),
            to("C3", "https://twitter.com/alice/status/3"),
        ]
    );
    assert_eq!(dispatcher.failed(), 1);
    assert!(dispatcher.is_done());
}

#[test]
fn fan_out_failure_in_the_last_channel() {
    let first = post("https://twitter.com/alice/status/1", &[]);
    let second = post("https://twitter.com/alice/status/2", &[]);
    let channels = vec!["C1".to_string(), "C2".to_string()];
    let mut dispatcher = Dispatcher::new(channels, &vec![first, second], &alice());
    let tried = run(&mut dispatcher, &[0, 1]);
    assert_eq!(
        tried,
        vec![
            to("C1", "https://twitter.com/alice/status/1"),
            to("C2", "https://twitter.com/alice/status/1"),
        ]
    );
    assert_eq!(dispatcher.failed(), 2);
    dispatcher.record(true);
    dispatcher.record(false);
    assert_eq!(dispatcher.failed(), 2);
    assert_eq!(dispatcher.next(), None);
}

#[test]
fn fan_out_without_posts_sends_nothing() {
    let channels = vec!["C1".to_string(), "C2".to_string()];
    let mut dispatcher = Dispatcher::new(channels, &Vec::new(), &alice());
    assert!(dispatcher.is_done());
    assert!(run(&mut dispatcher, &[]).is_empty());
}

#[test]
fn fan_out_without_channels_sends_nothing() {
    let first = post("https://twitter.com/alice/status/1", &[]);
    let mut dispatcher = Dispatcher::new(Vec::new(), &vec![first], &alice());
    assert!(dispatcher.is_done());
    assert!(run(&mut dispatcher, &[]).is_empty());
}
