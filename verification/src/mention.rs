//! How users and channels are named in a message.

use crate::text::decimal_digits;
use serenity::model::id::{ChannelId, UserId};
use serenity::model::mention::Mention;
use serenity::utils::MessageBuilder;
use vstd::prelude::*;

verus! {

/// The text that names the user `id` in a message.
pub open spec fn user_mention(id: nat) -> Seq<char> {
    "<@"@ + decimal_digits(id) + ">"@
}

/// The text that names the channel `id` in a message.
pub open spec fn channel_mention(id: nat) -> Seq<char> {
    "<#"@ + decimal_digits(id) + ">"@
}

/// `Mention::from(UserId)` and its `Display` in `serenity`: a user is
/// written as `<@`, the id in decimal, and `>`. `UserId::new` panics on zero,
/// which the precondition leaves out.
#[verifier::external_body]
pub(crate) fn mention_user(id: u64) -> (text: String)
    requires
        id != 0,
    ensures
        text@ == user_mention(id as nat),
{
    Mention::from(UserId::new(id)).to_string()
}

/// `MessageBuilder::push`, `MessageBuilder::mention` and
/// `MessageBuilder::build` in `serenity`: the built message is the pushed text
/// as it is, followed by the channel written as `<#`, the id in decimal, and
/// `>`. `ChannelId::new` panics on zero, which the precondition leaves out.
#[verifier::external_body]
pub(crate) fn text_then_channel(text: &str, channel: u64) -> (message: String)
    requires
        channel != 0,
    ensures
        message@ == text@ + channel_mention(channel as nat),
{
    MessageBuilder::new().push(text).mention(&ChannelId::new(channel)).build()
}

} // verus!
