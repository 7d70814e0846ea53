//! The entities an admission reads, as plain values, and their mathematical
//! models.
//!
//! Every type here implements `View`. The model of a type replaces each
//! `String` by its sequence of characters and each `Vec` by the sequence of its
//! items' models, so that two values with equal models are indistinguishable to
//! the admission rules.
use vstd::prelude::*;

verus! {

/// The models of the items of a sequence, in order.
pub open spec fn views<T: View>(items: Seq<T>) -> Seq<T::V> {
    items.map_values(|item: T| item@)
}

/// The model of an optional string.
pub open spec fn opt_view(s: Option<String>) -> Option<Seq<char>> {
    match s {
        Some(s) => Some(s@),
        None => None,
    }
}

/// How one user stands to another.
#[derive(Clone, Copy, Debug, PartialEq, Eq, Structural)]
pub enum RelationshipStatus {
    /// No relationship is recorded.
    Unrelated,
    /// The other user is the user themself.
    Myself,
    /// The two are friends.
    Friend,
    /// A friend request was sent and is unanswered.
    Outgoing,
    /// A friend request was received and is unanswered.
    Incoming,
    /// The user blocked the other.
    Blocked,
    /// The other blocked the user.
    BlockedOther,
}

/// One entry of a user's relationship list.
#[derive(Clone, Debug, PartialEq, Eq)]
pub struct Relation {
    /// The other user's id.
    pub id: String,
    /// How the owner of the list stands to that user.
    pub status: RelationshipStatus,
}

/// Model of [`Relation`].
pub struct RelationView {
    pub id: Seq<char>,
    pub status: RelationshipStatus,
}

impl View for Relation {
    type V = RelationView;

    open spec fn view(&self) -> RelationView {
        RelationView { id: self.id@, status: self.status }
    }
}

/// A user account, as far as admission reads it.
#[derive(Clone, Debug, PartialEq, Eq)]
pub struct User {
    /// The user's id.
    pub id: String,
    /// Whether the account is a bot.
    pub bot: bool,
    /// The user's relationships with others. Where a user id occurs more than
    /// once, the first entry counts.
    pub relations: Vec<Relation>,
}

/// Model of [`User`].
pub struct UserView {
    pub id: Seq<char>,
    pub bot: bool,
    pub relations: Seq<RelationView>,
}

impl View for User {
    type V = UserView;

    open spec fn view(&self) -> UserView {
        UserView { id: self.id@, bot: self.bot, relations: views(self.relations@) }
    }
}

/// A server.
#[derive(Clone, Debug, PartialEq, Eq)]
pub struct Server {
    /// The server's id.
    pub id: String,
    /// The id of the user who owns the server.
    pub owner: String,
    /// The server's display name.
    pub name: String,
}

/// Model of [`Server`].
pub struct ServerView {
    pub id: Seq<char>,
    pub owner: Seq<char>,
    pub name: Seq<char>,
}

impl View for Server {
    type V = ServerView;

    open spec fn view(&self) -> ServerView {
        ServerView { id: self.id@, owner: self.owner@, name: self.name@ }
    }
}

/// A channel, tagged by its kind.
#[derive(Clone, Debug, PartialEq, Eq)]
pub enum Channel {
    /// A group chat.
    Group {
        /// The channel's id.
        id: String,
        /// The id of the user who owns the group.
        owner: String,
        /// The ids of the participants, in the order in which they joined.
        recipients: Vec<String>,
    },
    /// A text channel of a server.
    Text {
        /// The channel's id.
        id: String,
        /// The id of the server the channel belongs to.
        server: String,
    },
}

/// Model of [`Channel`].
pub enum ChannelView {
    Group { id: Seq<char>, owner: Seq<char>, recipients: Seq<Seq<char>> },
    Text { id: Seq<char>, server: Seq<char> },
}

impl View for Channel {
    type V = ChannelView;

    open spec fn view(&self) -> ChannelView {
        match self {
            Channel::Group { id, owner, recipients } => ChannelView::Group {
                id: id@,
                owner: owner@,
                recipients: views(recipients@),
            },
            Channel::Text { id, server } => ChannelView::Text { id: id@, server: server@ },
        }
    }
}

/// What an invite id resolves to: an invitation to a server or to a group chat.
#[derive(Clone, Debug, PartialEq, Eq)]
pub enum Invite {
    /// An invitation to a server.
    Server {
        /// The id of the server.
        server: String,
        /// The id of the user who created the invite.
        creator: String,
        /// The id of the channel the invite was created in, where one is recorded.
        channel: Option<String>,
    },
    /// An invitation to a group chat.
    Group {
        /// The id of the group channel.
        channel: String,
        /// The id of the user who created the invite.
        creator: String,
    },
}

/// Model of [`Invite`].
pub enum InviteView {
    Server { server: Seq<char>, creator: Seq<char>, channel: Option<Seq<char>> },
    Group { channel: Seq<char>, creator: Seq<char> },
}

impl View for Invite {
    type V = InviteView;

    open spec fn view(&self) -> InviteView {
        match self {
            Invite::Server { server, creator, channel } => InviteView::Server {
                server: server@,
                creator: creator@,
                channel: opt_view(*channel),
            },
            Invite::Group { channel, creator } => InviteView::Group {
                channel: channel@,
                creator: creator@,
            },
        }
    }
}

/// A user as another user may know them.
#[derive(Clone, Debug, PartialEq, Eq)]
pub struct RelativeUser {
    /// The user's id.
    pub id: String,
    /// Whether the account is a bot.
    pub bot: bool,
    /// How the beholder stands to this user.
    pub relationship: RelationshipStatus,
}

/// Model of [`RelativeUser`].
pub struct RelativeUserView {
    pub id: Seq<char>,
    pub bot: bool,
    pub relationship: RelationshipStatus,
}

impl View for RelativeUser {
    type V = RelativeUserView;

    open spec fn view(&self) -> RelativeUserView {
        RelativeUserView { id: self.id@, bot: self.bot, relationship: self.relationship }
    }
}

/// What a successful admission hands back, tagged by the kind of invite.
#[derive(Clone, Debug, PartialEq, Eq)]
pub enum InviteJoinResponse {
    /// The actor joined a server.
    Server {
        /// The server that was joined.
        server: Server,
        /// The channels the new member can see.
        channels: Vec<Channel>,
    },
    /// The actor joined a group chat.
    Group {
        /// The group, with the actor among its recipients.
        channel: Channel,
        /// The other recipients, as the actor may know them.
        users: Vec<RelativeUser>,
    },
}

/// Model of [`InviteJoinResponse`].
pub enum InviteJoinResponseView {
    Server { server: ServerView, channels: Seq<ChannelView> },
    Group { channel: ChannelView, users: Seq<RelativeUserView> },
}

impl View for InviteJoinResponse {
    type V = InviteJoinResponseView;

    open spec fn view(&self) -> InviteJoinResponseView {
        match self {
            InviteJoinResponse::Server { server, channels } => InviteJoinResponseView::Server {
                server: server@,
                channels: views(channels@),
            },
            InviteJoinResponse::Group { channel, users } => InviteJoinResponseView::Group {
                channel: channel@,
                users: views(users@),
            },
        }
    }
}

} // verus!
