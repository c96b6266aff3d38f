//! Command resolution for a chat bot that announces new media and shuffles
//! the members of a lobby voice channel into teams.
//!
//! The library decides; the program around it performs the network calls.
//! Every command is a small machine: it is started with the parsed
//! interaction, names the next outside call, and is resumed with the answer.

use crate::commands::options::{Interaction, InteractionView};
use crate::commands::{announce, shuffle};
use crate::text::same_text;
use vstd::prelude::*;
use vstd::string::*;

pub mod api;
pub mod commands;
pub mod markup;
pub mod mention;
pub mod text;
pub mod utils;

verus! {

/// The identifiers that the bot is configured with. None of them is zero.
#[derive(Debug)]
pub struct Handler {
    guild_id: u64,
    admin_user_id: u64,
    jellyfin_announcements_channel_id: u64,
    shuffle_category_id: u64,
    lobby_channel_id: u64,
}

pub struct HandlerView {
    pub guild_id: u64,
    pub admin_user_id: u64,
    pub jellyfin_announcements_channel_id: u64,
    pub shuffle_category_id: u64,
    pub lobby_channel_id: u64,
}

impl HandlerView {
    /// No identifier is zero.
    pub open spec fn well_formed(self) -> bool {
        &&& self.guild_id != 0
        &&& self.admin_user_id != 0
        &&& self.jellyfin_announcements_channel_id != 0
        &&& self.shuffle_category_id != 0
        &&& self.lobby_channel_id != 0
    }
}

impl View for Handler {
    type V = HandlerView;

    closed spec fn view(&self) -> HandlerView {
        HandlerView {
            guild_id: self.guild_id,
            admin_user_id: self.admin_user_id,
            jellyfin_announcements_channel_id: self.jellyfin_announcements_channel_id,
            shuffle_category_id: self.shuffle_category_id,
            lobby_channel_id: self.lobby_channel_id,
        }
    }
}

impl Handler {
    #[verifier::type_invariant]
    spec fn identifiers_are_set(&self) -> bool {
        self@.well_formed()
    }

    /// The configuration with the given identifiers, or `None` where one of
    /// them is zero.
    pub fn new(
        guild_id: u64,
        admin_user_id: u64,
        jellyfin_announcements_channel_id: u64,
        shuffle_category_id: u64,
        lobby_channel_id: u64,
    ) -> (handler: Option<Handler>)
        ensures
            handler is Some <==> guild_id != 0 && admin_user_id != 0
                && jellyfin_announcements_channel_id != 0 && shuffle_category_id != 0
                && lobby_channel_id != 0,
            handler is Some ==> handler->0@ == (HandlerView {
                guild_id,
                admin_user_id,
                jellyfin_announcements_channel_id,
                shuffle_category_id,
                lobby_channel_id,
            }),
    {
        if guild_id == 0 || admin_user_id == 0 || jellyfin_announcements_channel_id == 0
            || shuffle_category_id == 0 || lobby_channel_id == 0 {
            None
        } else {
            Some(
                Handler {
                    guild_id,
                    admin_user_id,
                    jellyfin_announcements_channel_id,
                    shuffle_category_id,
                    lobby_channel_id,
                },
            )
        }
    }

    pub fn guild_id(&self) -> (id: u64)
        ensures
            id == self@.guild_id,
            id != 0,
    {
        proof {
            use_type_invariant(self);
        }
        self.guild_id
    }

    pub fn admin_user_id(&self) -> (id: u64)
        ensures
            id == self@.admin_user_id,
            id != 0,
    {
        proof {
            use_type_invariant(self);
        }
        self.admin_user_id
    }

    pub fn jellyfin_announcements_channel_id(&self) -> (id: u64)
        ensures
            id == self@.jellyfin_announcements_channel_id,
            id != 0,
    {
        proof {
            use_type_invariant(self);
        }
        self.jellyfin_announcements_channel_id
    }

    pub fn shuffle_category_id(&self) -> (id: u64)
        ensures
            id == self@.shuffle_category_id,
            id != 0,
    {
        proof {
            use_type_invariant(self);
        }
        self.shuffle_category_id
    }

    pub fn lobby_channel_id(&self) -> (id: u64)
        ensures
            id == self@.lobby_channel_id,
            id != 0,
    {
        proof {
            use_type_invariant(self);
        }
        self.lobby_channel_id
    }
}

/// What an interaction begins with: the first step of the command that it
/// names, or the reply to a name that is no command.
#[derive(Debug)]
pub enum Dispatch {
    Announce(announce::Step),
    Shuffle(shuffle::Step),
    Reply { message: String },
}

pub enum DispatchView {
    Announce(announce::StepView),
    Shuffle(shuffle::StepView),
    Reply { message: Seq<char> },
}

impl View for Dispatch {
    type V = DispatchView;

    open spec fn view(&self) -> DispatchView {
        match *self {
            Dispatch::Announce(step) => DispatchView::Announce(step@),
            Dispatch::Shuffle(step) => DispatchView::Shuffle(step@),
            Dispatch::Reply { message } => DispatchView::Reply { message: message@ },
        }
    }
}

/// How an interaction is routed by the name of its command.
pub open spec fn dispatched(command: InteractionView, handler: HandlerView) -> DispatchView {
    if command.name == "announce"@ {
        DispatchView::Announce(announce::started(command, handler))
    } else if command.name == "shuffle"@ {
        DispatchView::Shuffle(shuffle::started(command))
    } else {
        DispatchView::Reply { message: "not implemented"@ }
    }
}

impl Handler {
    /// Routes an interaction to its command and begins it.
    pub fn interaction_create(&self, command: &Interaction) -> (dispatch: Dispatch)
        ensures
            dispatch@ == dispatched(command@, self@),
    {
        if same_text(command.name.as_str(), "announce") {
            Dispatch::Announce(announce::run(command, self))
        } else if same_text(command.name.as_str(), "shuffle") {
            Dispatch::Shuffle(shuffle::run(command, self))
        } else {
            Dispatch::Reply { message: String::from_str("not implemented") }
        }
    }
}

} // verus!
