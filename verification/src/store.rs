//! The boundary with the entity store: what an admission asks of it and what it
//! may answer.
//!
//! The store is reached from outside this library. An admission names each
//! operation it needs as a [`StoreRequest`]; whoever drives the admission
//! performs it and hands back a [`StoreReply`].
use vstd::prelude::*;
use crate::model::{views, Channel, ChannelView, Invite, InviteView, Server, ServerView, User, UserView};
use crate::result::Error;

verus! {

/// One operation asked of the entity store.
#[derive(Clone, Debug, PartialEq, Eq)]
pub enum StoreRequest {
    /// Count the servers that `user` is a member of.
    CountServers { user: String },
    /// Look up the invite with this id, of whichever kind it is.
    LookupInvite { id: String },
    /// Fetch the server with this id.
    FetchServer { id: String },
    /// Create the record that makes `user` a member of `server`, together with
    /// the channels a new member sees by default. All of it or nothing.
    CreateMember { server: String, user: String },
    /// Fetch the channel with this id.
    FetchChannel { id: String },
    /// Add `user` to the recipients of the group `channel`, on behalf of
    /// `creator`. All of it or nothing.
    AddUserToGroup { channel: String, user: String, creator: String },
    /// Fetch the users with these ids. The fetches are independent of each
    /// other and may run at the same time.
    FetchUsers { ids: Vec<String> },
}

/// Model of [`StoreRequest`].
pub enum StoreRequestView {
    CountServers { user: Seq<char> },
    LookupInvite { id: Seq<char> },
    FetchServer { id: Seq<char> },
    CreateMember { server: Seq<char>, user: Seq<char> },
    FetchChannel { id: Seq<char> },
    AddUserToGroup { channel: Seq<char>, user: Seq<char>, creator: Seq<char> },
    FetchUsers { ids: Seq<Seq<char>> },
}

impl StoreRequestView {
    /// Whether the operation changes what the store holds.
    pub open spec fn writes(self) -> bool {
        self is CreateMember || self is AddUserToGroup
    }
}

impl View for StoreRequest {
    type V = StoreRequestView;

    open spec fn view(&self) -> StoreRequestView {
        match self {
            StoreRequest::CountServers { user } => StoreRequestView::CountServers { user: user@ },
            StoreRequest::LookupInvite { id } => StoreRequestView::LookupInvite { id: id@ },
            StoreRequest::FetchServer { id } => StoreRequestView::FetchServer { id: id@ },
            StoreRequest::CreateMember { server, user } => StoreRequestView::CreateMember {
                server: server@,
                user: user@,
            },
            StoreRequest::FetchChannel { id } => StoreRequestView::FetchChannel { id: id@ },
            StoreRequest::AddUserToGroup { channel, user, creator } => {
                StoreRequestView::AddUserToGroup {
                    channel: channel@,
                    user: user@,
                    creator: creator@,
                }
            },
            StoreRequest::FetchUsers { ids } => StoreRequestView::FetchUsers { ids: views(ids@) },
        }
    }
}

impl StoreRequest {
    /// Whether the operation changes what the store holds.
    pub fn is_write(&self) -> (b: bool)
        ensures
            b == self@.writes(),
    {
        match self {
            StoreRequest::CreateMember { .. } => true,
            StoreRequest::AddUserToGroup { .. } => true,
            _ => false,
        }
    }
}

/// What the entity store answered.
#[derive(Clone, Debug, PartialEq, Eq)]
pub enum StoreReply {
    /// The number of servers the user is a member of.
    ServerCount(usize),
    /// The invite that was looked up.
    Invite(Invite),
    /// The server that was fetched.
    Server(Server),
    /// The member record was created; these are the channels it can see.
    Member(Vec<Channel>),
    /// The channel that was fetched.
    Channel(Channel),
    /// The user was added; this is the group as it is now.
    GroupJoined(Channel),
    /// The users that were fetched, in any order.
    Users(Vec<User>),
    /// The operation failed.
    Failed(Error),
}

/// Model of [`StoreReply`].
pub enum StoreReplyView {
    ServerCount(nat),
    Invite(InviteView),
    Server(ServerView),
    Member(Seq<ChannelView>),
    Channel(ChannelView),
    GroupJoined(ChannelView),
    Users(Seq<UserView>),
    Failed(Error),
}

impl View for StoreReply {
    type V = StoreReplyView;

    open spec fn view(&self) -> StoreReplyView {
        match self {
            StoreReply::ServerCount(n) => StoreReplyView::ServerCount(*n as nat),
            StoreReply::Invite(invite) => StoreReplyView::Invite(invite@),
            StoreReply::Server(server) => StoreReplyView::Server(server@),
            StoreReply::Member(channels) => StoreReplyView::Member(views(channels@)),
            StoreReply::Channel(channel) => StoreReplyView::Channel(channel@),
            StoreReply::GroupJoined(channel) => StoreReplyView::GroupJoined(channel@),
            StoreReply::Users(users) => StoreReplyView::Users(views(users@)),
            StoreReply::Failed(error) => StoreReplyView::Failed(*error),
        }
    }
}

} // verus!
