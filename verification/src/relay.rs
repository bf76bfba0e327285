//! The decisions of the relay.
//!
//! Handling an event takes work that only the caller can do: asking the
//! gateway what a channel is, writing to the table, reading from it, sending a
//! message. Between two such pieces of work stands one decision, and each
//! decision is a function here. It takes what the handler holds and what the
//! last piece of work gave, and returns what to do next, or why the event is
//! dropped.
//!
//! A created message goes through [`Handler::message_received`] and
//! [`Handler::message`]; a deleted one through [`Handler::message_delete`] and
//! [`Handler::replay`]. [`Handler::on_message_created`] and
//! [`Handler::on_message_deleted`] run the same decisions against a table in
//! memory.

use crate::channel::{ChannelDescriptor, ChannelView};
use crate::config::{Config, ConfigView};
use crate::snowflake::{channel_id_text, decimal_text};
use crate::store::{
    table_lookup, table_record, Lookup, LookupView, MessageStore, RowView, StoredMessage, Table,
};
use vstd::prelude::*;

verus! {

/// The mathematical content of a [`NewMessage`].
pub struct MessageView {
    pub id: Seq<char>,
    pub author_id: Seq<char>,
    pub author_is_bot: bool,
    pub channel_id: u64,
    pub content: Seq<char>,
}

/// A message that was just created, as the gateway delivered it. The
/// identifiers of the message and of its author are held as the text under
/// which they are recorded; the channel's is held as the number that the
/// gateway is asked about.
#[derive(Clone, Debug, PartialEq, Eq)]
pub struct NewMessage {
    /// The message's identifier, as text.
    pub id: String,
    /// The author's identifier, as text.
    pub author_id: String,
    /// Whether the author is a bot account.
    pub author_is_bot: bool,
    /// The channel the message was sent in.
    pub channel_id: u64,
    /// The text of the message.
    pub content: String,
}

impl View for NewMessage {
    type V = MessageView;

    open spec fn view(&self) -> MessageView {
        MessageView {
            id: self.id@,
            author_id: self.author_id@,
            author_is_bot: self.author_is_bot,
            channel_id: self.channel_id,
            content: self.content@,
        }
    }
}

/// The mathematical content of an [`Announcement`].
pub struct AnnouncementView {
    pub channel_id: u64,
    pub text: Seq<char>,
}

/// A message for the relay to send.
#[derive(Clone, Debug, PartialEq, Eq)]
pub struct Announcement {
    /// The channel to send it to.
    pub channel_id: u64,
    /// What it says.
    pub text: String,
}

impl View for Announcement {
    type V = AnnouncementView;

    open spec fn view(&self) -> AnnouncementView {
        AnnouncementView { channel_id: self.channel_id, text: self.text@ }
    }
}

/// Why the relay drops an event without doing anything further.
#[derive(Clone, Copy, Debug, PartialEq, Eq, Structural)]
pub enum Discard {
    /// The message was written by a bot account.
    BotAuthor,
    /// The channel could not be resolved, or is not a channel of a guild.
    NoGuildChannel,
    /// Neither the channel nor its category is among the configured ones.
    NotMonitored { channel_id: u64 },
    /// The deleted message was never recorded.
    NotRecorded,
    /// The table could not be read.
    StorageFailed,
}

/// Whether the configuration names the channel or the category above it.
/// A configured entry names a channel where it is the channel's identifier in
/// decimal.
pub open spec fn targets(config: ConfigView, channel: ChannelView) -> bool {
    ||| config.channels.contains(decimal_text(channel.id as nat))
    ||| channel.parent_id matches Some(parent) && config.channels.contains(
        decimal_text(parent as nat),
    )
}

/// How a user is mentioned in a message.
pub open spec fn mention(user_id: Seq<char>) -> Seq<char> {
    "<@"@ + user_id + ">"@
}

/// The notice that replays a deleted message: a mention of its author, then
/// its text, unchanged.
pub open spec fn announcement_text(user_id: Seq<char>, content: Seq<char>) -> Seq<char> {
    "\n\t\t\t\t[  \u{1F6AB} "@ + mention(user_id) + "  ]: "@ + content + "\n\t\t"@
}

/// What the gateway's answer about a channel amounts to.
pub open spec fn resolved(channel: Option<ChannelDescriptor>) -> Option<ChannelView> {
    match channel {
        Some(channel) => Some(channel@),
        None => None,
    }
}

/// What becomes of a created message: the row to record, or why there is
/// none.
pub open spec fn create_decision(
    config: ConfigView,
    message: MessageView,
    channel: Option<ChannelView>,
) -> Result<RowView, Discard> {
    if message.author_is_bot {
        Err(Discard::BotAuthor)
    } else {
        match channel {
            None => Err(Discard::NoGuildChannel),
            Some(channel) => if targets(config, channel) {
                Ok(
                    RowView {
                        message_id: message.id,
                        user_id: message.author_id,
                        content: message.content,
                    },
                )
            } else {
                Err(Discard::NotMonitored { channel_id: message.channel_id })
            },
        }
    }
}

/// What becomes of a deletion before the table is read: the identifier to
/// look up, or why nothing is looked up.
pub open spec fn delete_decision(
    config: ConfigView,
    channel_id: u64,
    channel: Option<ChannelView>,
    message_id: Seq<char>,
) -> Result<Seq<char>, Discard> {
    match channel {
        None => Err(Discard::NoGuildChannel),
        Some(channel) => if targets(config, channel) {
            Ok(message_id)
        } else {
            Err(Discard::NotMonitored { channel_id })
        },
    }
}

/// What becomes of a deletion once the table has answered: the notice to
/// send, or why none is sent.
pub open spec fn replay_decision(channel_id: u64, found: LookupView) -> Result<
    AnnouncementView,
    Discard,
> {
    match found {
        LookupView::Found { user_id, content } => Ok(
            AnnouncementView { channel_id, text: announcement_text(user_id, content) },
        ),
        LookupView::NotFound => Err(Discard::NotRecorded),
        LookupView::Failed => Err(Discard::StorageFailed),
    }
}

/// The table after a created message was handled, where the write, if there
/// was one, failed for no other cause than a taken identifier.
pub open spec fn table_after_message(
    config: ConfigView,
    table: Table,
    message: MessageView,
    channel: Option<ChannelView>,
) -> Table {
    match create_decision(config, message, channel) {
        Ok(row) => table_record(table, row),
        Err(_) => table,
    }
}

/// How the handling of a deletion ends, where the table answers: with the one
/// notice to send, or with the reason why nothing is sent.
pub open spec fn delete_outcome(
    config: ConfigView,
    table: Table,
    channel_id: u64,
    channel: Option<ChannelView>,
    message_id: Seq<char>,
) -> Result<AnnouncementView, Discard> {
    match delete_decision(config, channel_id, channel, message_id) {
        Ok(key) => replay_decision(channel_id, table_lookup(table, key)),
        Err(why) => Err(why),
    }
}

/// Whether `part` stands in `whole`, unbroken and unchanged.
pub open spec fn occurs_in(part: Seq<char>, whole: Seq<char>) -> bool {
    exists|at: int|
        0 <= at && at + part.len() <= whole.len() && #[trigger] whole.subrange(
            at,
            at + part.len(),
        ) == part
}

/// The relay's handler: the configuration it was started with.
#[derive(Clone, Debug, PartialEq, Eq)]
pub struct Handler {
    pub config: Config,
}

/// The text of the notice that replays a deleted message.
pub fn announcement(user_id: &str, content: &str) -> (text: String)
    ensures
        text@ == announcement_text(user_id@, content@),
{
    let mut text = String::from_str("\n\t\t\t\t[  \u{1F6AB} ");
    let mut author = String::from_str("<@");
    author.append(user_id);
    author.append(">");
    text.append(author.as_str());
    text.append("  ]: ");
    text.append(content);
    text.append("\n\t\t");
    text
}

impl Handler {
    /// A handler that watches the channels of `config`.
    pub fn new(config: Config) -> (handler: Handler)
        ensures
            handler.config == config,
    {
        Handler { config }
    }

    /// Whether the channel is one to watch: its own identifier or that of its
    /// category, written in decimal, is a configured entry.
    pub fn is_target_channel(&self, channel: ChannelDescriptor) -> (watched: bool)
        ensures
            watched == targets(self.config@, channel@),
    {
        let own = channel_id_text(channel.id());
        let above = match channel.parent_id() {
            Some(parent) => Some(channel_id_text(parent)),
            None => None,
        };
        let ghost entries = self.config@.channels;
        let ghost own_text = decimal_text(channel@.id as nat);
        let ghost above_text = match channel@.parent_id {
            Some(parent) => Some(decimal_text(parent as nat)),
            None => None,
        };
        let mut at: usize = 0;
        while at < self.config.channels.len()
            invariant
                at <= self.config.channels@.len(),
                entries == self.config@.channels,
                own_text == decimal_text(channel@.id as nat),
                above_text == match channel@.parent_id {
                    Some(parent) => Some(decimal_text(parent as nat)),
                    None => None,
                },
                own@ == own_text,
                match above {
                    Some(text) => above_text == Some(text@),
                    None => above_text is None,
                },
                forall|i: int|
                    0 <= i < at ==> #[trigger] entries[i] != own_text && Some(entries[i])
                        != above_text,
            decreases self.config.channels@.len() - at,
        {
            let entry = &self.config.channels[at];
            assert(entries[at as int] == entry@);
            if *entry == own {
                assert(entries.contains(own_text));
                return true;
            }
            let matched = match &above {
                Some(text) => *text == *entry,
                None => false,
            };
            if matched {
                assert(entries.contains(above_text->0));
                return true;
            }
            at += 1;
        }
        false
    }

    /// The first decision about a created message, taken before anything is
    /// asked of the gateway: a bot's message is dropped; for any other, the
    /// channel to resolve is the one it was sent in.
    pub fn message_received(&self, message: &NewMessage) -> (step: Result<u64, Discard>)
        ensures
            message.author_is_bot ==> step == Err::<u64, Discard>(Discard::BotAuthor),
            !message.author_is_bot ==> step == Ok::<u64, Discard>(message.channel_id),
    {
        if message.author_is_bot {
            Err(Discard::BotAuthor)
        } else {
            Ok(message.channel_id)
        }
    }

    /// The decision about a created message once its channel is known:
    /// `channel` is the gateway's answer, `None` where the channel could not
    /// be resolved to a channel of a guild. Returns the row to record.
    pub fn message(&self, message: &NewMessage, channel: Option<ChannelDescriptor>) -> (step:
        Result<StoredMessage, Discard>)
        ensures
            match create_decision(self.config@, message@, resolved(channel)) {
                Ok(row) => step matches Ok(made) && made@ == row,
                Err(why) => step matches Err(given) && given == why,
            },
    {
        if message.author_is_bot {
            return Err(Discard::BotAuthor);
        }
        let channel = match channel {
            Some(channel) => channel,
            None => {
                return Err(Discard::NoGuildChannel);
            },
        };
        if !self.is_target_channel(channel) {
            return Err(Discard::NotMonitored { channel_id: message.channel_id });
        }
        Ok(
            StoredMessage {
                message_id: message.id.clone(),
                user_id: message.author_id.clone(),
                content: message.content.clone(),
            },
        )
    }

    /// The decision about a deleted message once its channel is known:
    /// `channel` is the gateway's answer for `channel_id`. Returns the
    /// identifier to look up in the table.
    pub fn message_delete(
        &self,
        channel_id: u64,
        channel: Option<ChannelDescriptor>,
        message_id: String,
    ) -> (step: Result<String, Discard>)
        ensures
            match delete_decision(self.config@, channel_id, resolved(channel), message_id@) {
                Ok(key) => step matches Ok(asked) && asked@ == key,
                Err(why) => step matches Err(given) && given == why,
            },
    {
        let channel = match channel {
            Some(channel) => channel,
            None => {
                return Err(Discard::NoGuildChannel);
            },
        };
        if !self.is_target_channel(channel) {
            return Err(Discard::NotMonitored { channel_id });
        }
        Ok(message_id)
    }

    /// The decision about a deleted message once the table has answered:
    /// a row that was found is announced in the channel of the deletion.
    pub fn replay(&self, channel_id: u64, found: Lookup) -> (step: Result<Announcement, Discard>)
        ensures
            match replay_decision(channel_id, found@) {
                Ok(notice) => step matches Ok(made) && made@ == notice,
                Err(why) => step matches Err(given) && given == why,
            },
    {
        match found {
            Lookup::Found { user_id, content } => Ok(
                Announcement {
                    channel_id,
                    text: announcement(user_id.as_str(), content.as_str()),
                },
            ),
            Lookup::NotFound => Err(Discard::NotRecorded),
            Lookup::Failed => Err(Discard::StorageFailed),
        }
    }

    /// Handles a created message against a table in memory: decides as
    /// [`Handler::message_received`] and [`Handler::message`] do and records
    /// the row. A write that fails is passed over in silence. Returns why the
    /// message was dropped, or `None` where a write was attempted.
    pub fn on_message_created(
        &self,
        store: &mut MessageStore,
        message: &NewMessage,
        channel: Option<ChannelDescriptor>,
    ) -> (dropped: Option<Discard>)
        requires
            old(store).wf(),
        ensures
            final(store).wf(),
            final(store)@ == table_after_message(
                self.config@,
                old(store)@,
                message@,
                resolved(channel),
            ),
            dropped == match create_decision(self.config@, message@, resolved(channel)) {
                Ok(_) => None,
                Err(why) => Some(why),
            },
    {
        if let Err(why) = self.message_received(message) {
            return Some(why);
        }
        match self.message(message, channel) {
            Ok(row) => {
                let _ = store.record(row);
                None
            },
            Err(why) => Some(why),
        }
    }

    /// Handles a deleted message against a table in memory: decides as
    /// [`Handler::message_delete`] and [`Handler::replay`] do. Returns the
    /// one notice to send, or why nothing is sent.
    pub fn on_message_deleted(
        &self,
        store: &MessageStore,
        channel_id: u64,
        channel: Option<ChannelDescriptor>,
        message_id: String,
    ) -> (end: Result<Announcement, Discard>)
        requires
            store.wf(),
        ensures
            match delete_outcome(self.config@, store@, channel_id, resolved(channel), message_id@) {
                Ok(notice) => end matches Ok(made) && made@ == notice,
                Err(why) => end matches Err(given) && given == why,
            },
    {
        match self.message_delete(channel_id, channel, message_id) {
            Ok(key) => self.replay(channel_id, store.lookup(key.as_str())),
            Err(why) => Err(why),
        }
    }
}

/// Only membership counts: two configurations that name the same entries,
/// in whatever order and however often, watch the same channels.
pub proof fn targets_ignores_order(first: ConfigView, second: ConfigView, channel: ChannelView)
    requires
        first.channels.to_set() == second.channels.to_set(),
    ensures
        targets(first, channel) == targets(second, channel),
{
    assert forall|entry: Seq<char>| #[trigger]
        first.channels.contains(entry) == second.channels.contains(entry) by {
        assert(first.channels.to_set().contains(entry) == first.channels.contains(entry));
        assert(second.channels.to_set().contains(entry) == second.channels.contains(entry));
    }
}

/// A message that a person wrote in a watched channel is found under its
/// identifier once it was handled, with its author and its text, where the
/// write did not fail: no row was recorded under that identifier before.
pub proof fn recorded_message_is_found(
    config: ConfigView,
    table: Table,
    message: MessageView,
    channel: ChannelView,
)
    requires
        !message.author_is_bot,
        targets(config, channel),
        !table.dom().contains(message.id),
    ensures
        table_lookup(table_after_message(config, table, message, Some(channel)), message.id) == (
        LookupView::Found { user_id: message.author_id, content: message.content }),
{
}

/// A bot's message leaves the table as it was, whatever the channel.
pub proof fn bot_message_is_not_recorded(
    config: ConfigView,
    table: Table,
    message: MessageView,
    channel: Option<ChannelView>,
)
    requires
        message.author_is_bot,
    ensures
        table_after_message(config, table, message, channel) == table,
{
}

/// A message in a channel that is not watched, or in no channel of a guild
/// at all, leaves the table as it was.
pub proof fn unwatched_message_is_not_recorded(
    config: ConfigView,
    table: Table,
    message: MessageView,
    channel: Option<ChannelView>,
)
    requires
        channel matches Some(known) ==> !targets(config, known),
    ensures
        table_after_message(config, table, message, channel) == table,
{
}

/// The deletion of a message that was never recorded sends nothing, in any
/// channel and under any configuration.
pub proof fn unrecorded_deletion_sends_nothing(
    config: ConfigView,
    table: Table,
    channel_id: u64,
    channel: Option<ChannelView>,
    message_id: Seq<char>,
)
    requires
        !table.dom().contains(message_id),
    ensures
        delete_outcome(config, table, channel_id, channel, message_id) is Err,
{
}

/// The deletion of a recorded message in a watched channel sends one notice,
/// to the channel of the deletion. The notice holds a mention of the recorded
/// author and the recorded text, character for character.
pub proof fn recorded_deletion_is_replayed(
    config: ConfigView,
    table: Table,
    channel_id: u64,
    channel: ChannelView,
    message_id: Seq<char>,
)
    requires
        table.dom().contains(message_id),
        targets(config, channel),
    ensures
        delete_outcome(config, table, channel_id, Some(channel), message_id) == Ok::<
            AnnouncementView,
            Discard,
        >(
            AnnouncementView {
                channel_id,
                text: announcement_text(table[message_id].0, table[message_id].1),
            },
        ),
        occurs_in(
            mention(table[message_id].0),
            announcement_text(table[message_id].0, table[message_id].1),
        ),
        occurs_in(
            table[message_id].1,
            announcement_text(table[message_id].0, table[message_id].1),
        ),
{
    let author = mention(table[message_id].0);
    let content = table[message_id].1;
    let text = announcement_text(table[message_id].0, content);
    let before_author = "\n\t\t\t\t[  \u{1F6AB} "@.len() as int;
    let before_content = before_author + author.len() + "  ]: "@.len();
    assert(text.subrange(before_author, before_author + author.len()) =~= author);
    assert(text.subrange(before_content, before_content + content.len()) =~= content);
}

/// A message that a person wrote in a watched channel and that is then
/// deleted there comes back as one notice with its author and its text, where
/// no row was recorded under its identifier before.
pub proof fn deleted_message_is_replayed(
    config: ConfigView,
    table: Table,
    message: MessageView,
    channel: ChannelView,
)
    requires
        !message.author_is_bot,
        targets(config, channel),
        !table.dom().contains(message.id),
    ensures
        delete_outcome(
            config,
            table_after_message(config, table, message, Some(channel)),
            message.channel_id,
            Some(channel),
            message.id,
        ) == Ok::<AnnouncementView, Discard>(
            AnnouncementView {
                channel_id: message.channel_id,
                text: announcement_text(message.author_id, message.content),
            },
        ),
{
}

} // verus!
