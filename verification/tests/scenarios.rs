use snipe_relay::channel::ChannelDescriptor;
use snipe_relay::config::Config;
use snipe_relay::relay::{Announcement, Discard, Handler, NewMessage};
use snipe_relay::store::{Lookup, MessageStore, StoredMessage};

fn handler(channels: &[&str]) -> Handler {
    Handler::new(Config {
        token: "token".to_string(),
        channels: channels.iter().map(|c| c.to_string()).collect(),
    })
}

fn channel(id: u64, parent_id: Option<u64>) -> Option<ChannelDescriptor> {
    Some(ChannelDescriptor::new(id, parent_id).unwrap())
}

fn message(id: &str, author_id: &str, bot: bool, channel_id: u64, content: &str) -> NewMessage {
    NewMessage {
        id: id.to_string(),
        author_id: author_id.to_string(),
        author_is_bot: bot,
        channel_id,
        content: content.to_string(),
    }
}

fn found(user_id: &str, content: &str) -> Lookup {
    Lookup::Found { user_id: user_id.to_string(), content: content.to_string() }
}

#[test]
fn recorded_message_is_replayed_on_delete() {
    let watching = handler(&["100"]);
    let mut store = MessageStore::new();
    let m1 = message("1", "A", false, 100, "hello");

    assert_eq!(watching.on_message_created(&mut store, &m1, channel(100, None)), None);
    assert_eq!(store.lookup("1"), found("A", "hello"));

    let sent = watching.on_message_deleted(&store, 100, channel(100, None), "1".to_string());
    let notice = sent.unwrap();
    assert_eq!(notice.channel_id, 100);
    assert!(notice.text.contains("<@A>"));
    assert!(notice.text.contains("hello"));
    assert_eq!(notice.text, "\n\t\t\t\t[  \u{1F6AB} <@A>  ]: hello\n\t\t");
}

#[test]
fn recorded_message_is_replayed_step_by_step() {
    let watching = handler(&["100"]);
    let mut store = MessageStore::new();
    let m1 = message("1", "A", false, 100, "hello");

    assert_eq!(watching.message_received(&m1), Ok(100));
    let row = watching.message(&m1, channel(100, None)).unwrap();
    assert_eq!(
        row,
        StoredMessage {
            message_id: "1".to_string(),
            user_id: "A".to_string(),
            content: "hello".to_string(),
        }
    );
    assert_eq!(store.record(row), Ok(()));

    let key = watching.message_delete(100, channel(100, None), "1".to_string()).unwrap();
    assert_eq!(key, "1");
    assert_eq!(
        watching.replay(100, store.lookup(&key)),
        Ok(Announcement {
            channel_id: 100,
            text: "\n\t\t\t\t[  \u{1F6AB} <@A>  ]: hello\n\t\t".to_string(),
        })
    );
}

#[test]
fn message_in_unwatched_channel_is_neither_recorded_nor_replayed() {
    let watching = handler(&["100"]);
    let mut store = MessageStore::new();
    let m2 = message("2", "A", false, 200, "hello");

    assert_eq!(
        watching.on_message_created(&mut store, &m2, channel(200, None)),
        Some(Discard::NotMonitored { channel_id: 200 })
    );
    assert_eq!(store.lookup("2"), Lookup::NotFound);

    assert_eq!(
        watching.on_message_deleted(&store, 200, channel(200, None), "2".to_string()),
        Err(Discard::NotMonitored { channel_id: 200 })
    );
    assert_eq!(
        watching.on_message_deleted(&store, 100, channel(100, None), "2".to_string()),
        Err(Discard::NotRecorded)
    );
}

#[test]
fn bot_message_in_watched_channel_is_not_recorded() {
    let watching = handler(&["100"]);
    let mut store = MessageStore::new();
    let from_bot = message("3", "B", true, 100, "beep");

    assert_eq!(
        watching.on_message_created(&mut store, &from_bot, channel(100, None)),
        Some(Discard::BotAuthor)
    );
    assert_eq!(store.lookup("3"), Lookup::NotFound);
}

#[test]
fn bot_message_is_not_recorded_wherever_it_is_sent() {
    let watching = handler(&["100", "300"]);
    let mut store = MessageStore::new();
    let places = [channel(100, None), channel(200, Some(300)), channel(200, None), None];
    for place in places {
        let from_bot = message("3", "B", true, 100, "beep");
        assert_eq!(
            watching.on_message_created(&mut store, &from_bot, place),
            Some(Discard::BotAuthor)
        );
        assert_eq!(store.lookup("3"), Lookup::NotFound);
    }
}

#[test]
fn message_outside_the_watched_channels_leaves_the_table_alone() {
    let watching = handler(&["100"]);
    let mut store = MessageStore::new();
    let kept = message("1", "A", false, 100, "kept");
    assert_eq!(watching.on_message_created(&mut store, &kept, channel(100, None)), None);

    let elsewhere = message("1", "C", false, 200, "elsewhere");
    assert_eq!(
        watching.on_message_created(&mut store, &elsewhere, channel(200, Some(201))),
        Some(Discard::NotMonitored { channel_id: 200 })
    );
    let nowhere = message("4", "C", false, 200, "nowhere");
    assert_eq!(
        watching.on_message_created(&mut store, &nowhere, None),
        Some(Discard::NoGuildChannel)
    );
    assert_eq!(store.lookup("1"), found("A", "kept"));
    assert_eq!(store.lookup("4"), Lookup::NotFound);
}

#[test]
fn message_in_watched_channel_is_found_afterwards() {
    let watching = handler(&["100", "300"]);
    let mut store = MessageStore::new();
    let first = message("10", "1", false, 100, "in the channel");
    let second = message("11", "2", false, 200, "in the category");
    assert_eq!(watching.on_message_created(&mut store, &first, channel(100, None)), None);
    assert_eq!(watching.on_message_created(&mut store, &second, channel(200, Some(300))), None);
    assert_eq!(store.lookup("10"), found("1", "in the channel"));
    assert_eq!(store.lookup("11"), found("2", "in the category"));
}

#[test]
fn failed_write_is_passed_over() {
    let watching = handler(&["100"]);
    let mut store = MessageStore::new();
    let first = message("1", "A", false, 100, "first");
    let again = message("1", "B", false, 100, "again");
    assert_eq!(watching.on_message_created(&mut store, &first, channel(100, None)), None);
    assert_eq!(watching.on_message_created(&mut store, &again, channel(100, None)), None);
    assert_eq!(store.lookup("1"), found("A", "first"));
}

#[test]
fn deletion_of_unrecorded_message_sends_nothing() {
    let watching = handler(&["100"]);
    let mut store = MessageStore::new();
    let other = message("1", "A", false, 100, "hello");
    assert_eq!(watching.on_message_created(&mut store, &other, channel(100, None)), None);

    assert_eq!(
        watching.on_message_deleted(&store, 100, channel(100, None), "2".to_string()),
        Err(Discard::NotRecorded)
    );
    assert_eq!(
        watching.on_message_deleted(&store, 100, None, "2".to_string()),
        Err(Discard::NoGuildChannel)
    );
    assert_eq!(
        watching.on_message_deleted(&MessageStore::new(), 100, channel(100, None), "1".to_string()),
        Err(Discard::NotRecorded)
    );
}

#[test]
fn deletion_replays_the_text_character_for_character() {
    let watching = handler(&["100"]);
    let mut store = MessageStore::new();
    let content = " line one\n\n\tline  two \r\n trailing  ";
    let odd = message("9", "81", false, 100, content);
    assert_eq!(watching.on_message_created(&mut store, &odd, channel(100, None)), None);

    let notice = watching
        .on_message_deleted(&store, 100, channel(100, None), "9".to_string())
        .unwrap();
    assert_eq!(notice.channel_id, 100);
    assert_eq!(notice.text, format!("\n\t\t\t\t[  \u{1F6AB} <@81>  ]: {content}\n\t\t"));
    assert!(notice.text.contains(content));
    assert!(notice.text.contains("<@81>"));
}

#[test]
fn deletion_in_unwatched_channel_sends_nothing_for_a_recorded_message() {
    let watching = handler(&["100"]);
    let mut store = MessageStore::new();
    let m1 = message("1", "A", false, 100, "hello");
    assert_eq!(watching.on_message_created(&mut store, &m1, channel(100, None)), None);
    assert_eq!(
        watching.on_message_deleted(&store, 200, channel(200, None), "1".to_string()),
        Err(Discard::NotMonitored { channel_id: 200 })
    );
}

#[test]
fn rows_stay_after_a_replay() {
    let watching = handler(&["100"]);
    let mut store = MessageStore::new();
    let m1 = message("1", "A", false, 100, "hello");
    assert_eq!(watching.on_message_created(&mut store, &m1, channel(100, None)), None);
    let once = watching.on_message_deleted(&store, 100, channel(100, None), "1".to_string());
    let twice = watching.on_message_deleted(&store, 100, channel(100, None), "1".to_string());
    assert!(once.is_ok());
    assert_eq!(once, twice);
    assert_eq!(store.lookup("1"), found("A", "hello"));
}
