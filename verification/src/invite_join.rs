//! The invite admission engine.
//!
//! Redeeming an invite alternates between questions to the entity store and
//! decisions on its answers. The decisions are this module: an admission is a
//! [`JoinState`], which names the one question it waits on
//! ([`JoinState::request`]) and moves on when handed the answer
//! ([`JoinState::step`]). Whoever drives it asks the store and hands the
//! answers back until no question is left; the admission then holds the
//! response or the error.
//!
//! The order of the questions is fixed. The policy comes first and does not
//! look at the invite; then the invite is resolved; then its kind alone decides
//! what follows:
//!
//! * for a server: fetch the server, create the member record, answer with the
//!   server and the channels that the creation returned;
//! * for a group: fetch the channel, add the actor to it, fetch the other
//!   recipients, answer with the group and the others as the actor may know
//!   them, in the order of the group's recipient list.
//!
//! The first step that fails ends the admission with the error as it came.
use vstd::prelude::*;
use crate::model::{
    views, Channel, ChannelView, Invite, InviteJoinResponse, InviteJoinResponseView, InviteView,
    RelativeUser, RelativeUserView, Server, ServerView, User, UserView,
};
use crate::policy::{refuse_bots, within_quota};
use crate::projector::{project, project_spec};
use crate::reference::{resolve_spec, Reference};
use crate::result::Error;
use crate::store::{StoreReply, StoreReplyView, StoreRequest, StoreRequestView};

verus! {

/// An admission in progress or at its end.
#[derive(Clone, Debug, PartialEq, Eq)]
pub enum JoinState {
    /// The actor is no bot; the number of their servers was asked for.
    CheckingQuota { actor: User, target: Reference, quota: usize },
    /// The actor is eligible; the invite was asked for.
    Resolving { actor: User, target: Reference },
    /// The invite is for a server; the server was asked for.
    FetchingServer { actor: User, server: String },
    /// The server exists; the member record was asked for.
    CreatingMember { actor: User, server: Server },
    /// The invite is for a group; the channel was asked for.
    FetchingChannel { actor: User, channel: String, creator: String },
    /// The channel is a group; adding the actor was asked for.
    JoiningGroup { actor: User, channel: String, creator: String },
    /// The actor is in the group; the other recipients were asked for.
    FetchingUsers { actor: User, channel: Channel, others: Vec<String> },
    /// The actor was admitted.
    Admitted(InviteJoinResponse),
    /// The admission was turned down.
    Rejected(Error),
}

/// Model of [`JoinState`].
pub enum JoinStateView {
    CheckingQuota { actor: UserView, target: Seq<char>, quota: nat },
    Resolving { actor: UserView, target: Seq<char> },
    FetchingServer { actor: UserView, server: Seq<char> },
    CreatingMember { actor: UserView, server: ServerView },
    FetchingChannel { actor: UserView, channel: Seq<char>, creator: Seq<char> },
    JoiningGroup { actor: UserView, channel: Seq<char>, creator: Seq<char> },
    FetchingUsers { actor: UserView, channel: ChannelView, others: Seq<Seq<char>> },
    Admitted(InviteJoinResponseView),
    Rejected(Error),
}

impl View for JoinState {
    type V = JoinStateView;

    open spec fn view(&self) -> JoinStateView {
        match self {
            JoinState::CheckingQuota { actor, target, quota } => JoinStateView::CheckingQuota {
                actor: actor@,
                target: target@,
                quota: *quota as nat,
            },
            JoinState::Resolving { actor, target } => JoinStateView::Resolving {
                actor: actor@,
                target: target@,
            },
            JoinState::FetchingServer { actor, server } => JoinStateView::FetchingServer {
                actor: actor@,
                server: server@,
            },
            JoinState::CreatingMember { actor, server } => JoinStateView::CreatingMember {
                actor: actor@,
                server: server@,
            },
            JoinState::FetchingChannel { actor, channel, creator } => {
                JoinStateView::FetchingChannel {
                    actor: actor@,
                    channel: channel@,
                    creator: creator@,
                }
            },
            JoinState::JoiningGroup { actor, channel, creator } => JoinStateView::JoiningGroup {
                actor: actor@,
                channel: channel@,
                creator: creator@,
            },
            JoinState::FetchingUsers { actor, channel, others } => JoinStateView::FetchingUsers {
                actor: actor@,
                channel: channel@,
                others: views(others@),
            },
            JoinState::Admitted(response) => JoinStateView::Admitted(response@),
            JoinState::Rejected(error) => JoinStateView::Rejected(*error),
        }
    }
}

impl JoinStateView {
    /// Whether the admission is at its end.
    pub open spec fn settled(self) -> bool {
        self is Admitted || self is Rejected
    }

    /// The question the admission waits on; none once it is settled.
    pub open spec fn pending(self) -> Option<StoreRequestView> {
        match self {
            JoinStateView::CheckingQuota { actor, .. } => Some(
                StoreRequestView::CountServers { user: actor.id },
            ),
            JoinStateView::Resolving { target, .. } => Some(
                StoreRequestView::LookupInvite { id: target },
            ),
            JoinStateView::FetchingServer { server, .. } => Some(
                StoreRequestView::FetchServer { id: server },
            ),
            JoinStateView::CreatingMember { actor, server } => Some(
                StoreRequestView::CreateMember { server: server.id, user: actor.id },
            ),
            JoinStateView::FetchingChannel { channel, .. } => Some(
                StoreRequestView::FetchChannel { id: channel },
            ),
            JoinStateView::JoiningGroup { actor, channel, creator } => Some(
                StoreRequestView::AddUserToGroup { channel, user: actor.id, creator },
            ),
            JoinStateView::FetchingUsers { others, .. } => Some(
                StoreRequestView::FetchUsers { ids: others },
            ),
            JoinStateView::Admitted(_) => None,
            JoinStateView::Rejected(_) => None,
        }
    }
}

/// Where an admission starts: a bot is turned down on the spot, before anything
/// is asked of the store; for anyone else the number of their servers is
/// asked for.
pub open spec fn start(actor: UserView, target: Seq<char>, quota: nat) -> JoinStateView {
    if actor.bot {
        JoinStateView::Rejected(Error::IsBot)
    } else {
        JoinStateView::CheckingQuota { actor, target, quota }
    }
}

/// Where a resolved invite leads, by its kind alone.
pub open spec fn dispatch(actor: UserView, invite: InviteView) -> JoinStateView {
    match invite {
        InviteView::Server { server, .. } => JoinStateView::FetchingServer { actor, server },
        InviteView::Group { channel, creator } => JoinStateView::FetchingChannel {
            actor,
            channel,
            creator,
        },
    }
}

/// The test that tells the other recipients from the actor.
pub open spec fn is_other(actor: Seq<char>) -> spec_fn(Seq<char>) -> bool {
    |id: Seq<char>| id != actor
}

/// The recipients but the actor, in the order of the recipient list.
pub open spec fn others(recipients: Seq<Seq<char>>, actor: Seq<char>) -> Seq<Seq<char>> {
    recipients.filter(is_other(actor))
}

/// The first of `users`, at index `from` or later, whose id is `id`.
pub open spec fn first_with_id(users: Seq<UserView>, id: Seq<char>, from: int) -> Option<UserView>
    decreases users.len() - from,
{
    if from < 0 || from >= users.len() {
        None
    } else if users[from].id == id {
        Some(users[from])
    } else {
        first_with_id(users, id, from + 1)
    }
}

/// Whether each of `ids` is the id of one of `users`.
pub open spec fn all_found(ids: Seq<Seq<char>>, users: Seq<UserView>) -> bool {
    forall|i: int| 0 <= i < ids.len() ==> first_with_id(users, #[trigger] ids[i], 0) is Some
}

/// The users named by `ids`, one for each id and in the order of `ids`, as
/// `actor` may know them; nothing if one of them is missing from `users`.
pub open spec fn known_users(
    ids: Seq<Seq<char>>,
    users: Seq<UserView>,
    actor: UserView,
) -> Option<Seq<RelativeUserView>> {
    if all_found(ids, users) {
        Some(
            Seq::new(
                ids.len(),
                |i: int| project_spec(first_with_id(users, ids[i], 0)->0, actor),
            ),
        )
    } else {
        None
    }
}

/// The admission after the store's answer `reply` to the question that `state`
/// waits on.
///
/// A settled admission stays as it is. A failure ends the admission with the
/// store's error. An answer to a question other than the pending one ends it
/// with `Internal`, and so does a channel that is no group where a group is
/// due.
pub open spec fn next(state: JoinStateView, reply: StoreReplyView) -> JoinStateView {
    match state {
        JoinStateView::Admitted(_) => state,
        JoinStateView::Rejected(_) => state,
        JoinStateView::CheckingQuota { actor, target, quota } => match reply {
            StoreReplyView::ServerCount(servers) => if servers < quota {
                JoinStateView::Resolving { actor, target }
            } else {
                JoinStateView::Rejected(Error::QuotaExceeded)
            },
            StoreReplyView::Failed(error) => JoinStateView::Rejected(error),
            _ => JoinStateView::Rejected(Error::Internal),
        },
        JoinStateView::Resolving { actor, .. } => match resolve_spec(reply) {
            Ok(invite) => dispatch(actor, invite),
            Err(error) => JoinStateView::Rejected(error),
        },
        JoinStateView::FetchingServer { actor, .. } => match reply {
            StoreReplyView::Server(server) => JoinStateView::CreatingMember { actor, server },
            StoreReplyView::Failed(error) => JoinStateView::Rejected(error),
            _ => JoinStateView::Rejected(Error::Internal),
        },
        JoinStateView::CreatingMember { server, .. } => match reply {
            StoreReplyView::Member(channels) => JoinStateView::Admitted(
                InviteJoinResponseView::Server { server, channels },
            ),
            StoreReplyView::Failed(error) => JoinStateView::Rejected(error),
            _ => JoinStateView::Rejected(Error::Internal),
        },
        JoinStateView::FetchingChannel { actor, creator, .. } => match reply {
            StoreReplyView::Channel(ChannelView::Group { id, .. }) => JoinStateView::JoiningGroup {
                actor,
                channel: id,
                creator,
            },
            StoreReplyView::Failed(error) => JoinStateView::Rejected(error),
            _ => JoinStateView::Rejected(Error::Internal),
        },
        JoinStateView::JoiningGroup { actor, .. } => match reply {
            StoreReplyView::GroupJoined(channel) => match channel {
                ChannelView::Group { recipients, .. } => JoinStateView::FetchingUsers {
                    actor,
                    channel,
                    others: others(recipients, actor.id),
                },
                _ => JoinStateView::Rejected(Error::Internal),
            },
            StoreReplyView::Failed(error) => JoinStateView::Rejected(error),
            _ => JoinStateView::Rejected(Error::Internal),
        },
        JoinStateView::FetchingUsers { actor, channel, others } => match reply {
            StoreReplyView::Users(users) => match known_users(others, users, actor) {
                Some(users) => JoinStateView::Admitted(
                    InviteJoinResponseView::Group { channel, users },
                ),
                None => JoinStateView::Rejected(Error::NotFound),
            },
            StoreReplyView::Failed(error) => JoinStateView::Rejected(error),
            _ => JoinStateView::Rejected(Error::Internal),
        },
    }
}

/// The admission after the store's answers `replies`, taken in order.
pub open spec fn run(state: JoinStateView, replies: Seq<StoreReplyView>) -> JoinStateView
    decreases replies.len(),
{
    if replies.len() == 0 {
        state
    } else {
        next(run(state, replies.drop_last()), replies.last())
    }
}

/// Begins the admission of `user` by the invite that `target` names. `quota` is
/// the number of servers that `user` may be a member of.
pub fn join(user: User, target: Reference, quota: usize) -> (state: JoinState)
    ensures
        state@ == start(user@, target@, quota as nat),
{
    match refuse_bots(&user) {
        Err(error) => JoinState::Rejected(error),
        Ok(()) => JoinState::CheckingQuota { actor: user, target, quota },
    }
}

/// Where a resolved invite leads.
fn route(actor: User, invite: Invite) -> (state: JoinState)
    ensures
        state@ == dispatch(actor@, invite@),
{
    match invite {
        Invite::Server { server, .. } => JoinState::FetchingServer { actor, server },
        Invite::Group { channel, creator } => JoinState::FetchingChannel { actor, channel, creator },
    }
}

/// Copies the recipients but the actor.
fn others_of(recipients: &Vec<String>, actor: &String) -> (rest: Vec<String>)
    ensures
        views(rest@) == others(views(recipients@), actor@),
{
    let mut rest: Vec<String> = Vec::new();
    let mut i: usize = 0;
    assert(views(recipients@).take(0) =~= Seq::<Seq<char>>::empty());
    assert(views(rest@) =~= Seq::<Seq<char>>::empty());
    assert(others(Seq::<Seq<char>>::empty(), actor@) =~= Seq::<Seq<char>>::empty()) by {
        reveal(Seq::filter);
    }
    while i < recipients.len()
        invariant
            i <= recipients.len(),
            views(rest@) == others(views(recipients@).take(i as int), actor@),
        decreases recipients.len() - i,
    {
        let ghost before = views(rest@);
        let ghost seen = views(recipients@).take(i as int);
        if recipients[i] != *actor {
            rest.push(recipients[i].clone());
            assert(views(rest@) =~= before.push(recipients@[i as int]@));
        }
        proof {
            assert(views(recipients@).take(i as int + 1) =~= seen.push(recipients@[i as int]@));
            Seq::lemma_filter_push(seen, recipients@[i as int]@, is_other(actor@));
        }
        i += 1;
    }
    assert(views(recipients@).take(i as int) =~= views(recipients@));
    rest
}

/// Finds the first user with the given id.
fn find_user<'a>(users: &'a Vec<User>, id: &String) -> (found: Option<&'a User>)
    ensures
        match found {
            Some(user) => first_with_id(views(users@), id@, 0) == Some(user@),
            None => first_with_id(views(users@), id@, 0) is None,
        },
{
    let mut i: usize = 0;
    while i < users.len()
        invariant
            i <= users.len(),
            first_with_id(views(users@), id@, 0) == first_with_id(views(users@), id@, i as int),
        decreases users.len() - i,
    {
        if users[i].id == *id {
            return Some(&users[i]);
        }
        i += 1;
    }
    None
}

/// Projects the users named by `ids`, in the order of `ids`.
fn know_all(ids: &Vec<String>, users: &Vec<User>, actor: &User) -> (known: Option<
    Vec<RelativeUser>,
>)
    ensures
        match known {
            Some(known) => known_users(views(ids@), views(users@), actor@) == Some(views(known@)),
            None => known_users(views(ids@), views(users@), actor@) is None,
        },
{
    let mut known: Vec<RelativeUser> = Vec::new();
    let mut i: usize = 0;
    while i < ids.len()
        invariant
            i <= ids.len(),
            known@.len() == i,
            forall|j: int|
                0 <= j < i ==> first_with_id(views(users@), #[trigger] views(ids@)[j], 0) is Some,
            forall|j: int|
                0 <= j < i ==> (#[trigger] known@[j])@ == project_spec(
                    first_with_id(views(users@), views(ids@)[j], 0)->0,
                    actor@,
                ),
        decreases ids.len() - i,
    {
        match find_user(users, &ids[i]) {
            None => {
                assert(first_with_id(views(users@), views(ids@)[i as int], 0) is None);
                return None;
            },
            Some(user) => {
                known.push(project(user, actor));
            },
        }
        i += 1;
    }
    assert(views(known@) =~= known_users(views(ids@), views(users@), actor@)->0);
    Some(known)
}

impl JoinState {
    /// Whether the admission is at its end.
    pub fn is_settled(&self) -> (settled: bool)
        ensures
            settled == self@.settled(),
    {
        match self {
            JoinState::Admitted(_) => true,
            JoinState::Rejected(_) => true,
            _ => false,
        }
    }

    /// The question to ask the store next; none once the admission is settled.
    pub fn request(&self) -> (request: Option<StoreRequest>)
        ensures
            match request {
                Some(request) => self@.pending() == Some(request@),
                None => self@.pending() is None,
            },
    {
        match self {
            JoinState::CheckingQuota { actor, .. } => Some(
                StoreRequest::CountServers { user: actor.id.clone() },
            ),
            JoinState::Resolving { target, .. } => Some(target.lookup()),
            JoinState::FetchingServer { server, .. } => Some(
                StoreRequest::FetchServer { id: server.clone() },
            ),
            JoinState::CreatingMember { actor, server } => Some(
                StoreRequest::CreateMember { server: server.id.clone(), user: actor.id.clone() },
            ),
            JoinState::FetchingChannel { channel, .. } => Some(
                StoreRequest::FetchChannel { id: channel.clone() },
            ),
            JoinState::JoiningGroup { actor, channel, creator } => Some(
                StoreRequest::AddUserToGroup {
                    channel: channel.clone(),
                    user: actor.id.clone(),
                    creator: creator.clone(),
                },
            ),
            JoinState::FetchingUsers { others, .. } => Some(
                StoreRequest::FetchUsers { ids: copy_ids(others) },
            ),
            JoinState::Admitted(_) => None,
            JoinState::Rejected(_) => None,
        }
    }

    /// Takes the store's answer to the pending question and moves on.
    pub fn step(self, reply: StoreReply) -> (after: JoinState)
        ensures
            after@ == next(self@, reply@),
    {
        match self {
            JoinState::Admitted(response) => JoinState::Admitted(response),
            JoinState::Rejected(error) => JoinState::Rejected(error),
            JoinState::CheckingQuota { actor, target, quota } => match reply {
                StoreReply::ServerCount(servers) => match within_quota(servers, quota) {
                    Ok(()) => JoinState::Resolving { actor, target },
                    Err(error) => JoinState::Rejected(error),
                },
                StoreReply::Failed(error) => JoinState::Rejected(error),
                _ => JoinState::Rejected(Error::Internal),
            },
            JoinState::Resolving { actor, target } => match target.resolve(reply) {
                Ok(invite) => route(actor, invite),
                Err(error) => JoinState::Rejected(error),
            },
            JoinState::FetchingServer { actor, .. } => match reply {
                StoreReply::Server(server) => JoinState::CreatingMember { actor, server },
                StoreReply::Failed(error) => JoinState::Rejected(error),
                _ => JoinState::Rejected(Error::Internal),
            },
            JoinState::CreatingMember { server, .. } => match reply {
                StoreReply::Member(channels) => JoinState::Admitted(
                    InviteJoinResponse::Server { server, channels },
                ),
                StoreReply::Failed(error) => JoinState::Rejected(error),
                _ => JoinState::Rejected(Error::Internal),
            },
            JoinState::FetchingChannel { actor, creator, .. } => match reply {
                StoreReply::Channel(Channel::Group { id, .. }) => JoinState::JoiningGroup {
                    actor,
                    channel: id,
                    creator,
                },
                StoreReply::Failed(error) => JoinState::Rejected(error),
                _ => JoinState::Rejected(Error::Internal),
            },
            JoinState::JoiningGroup { actor, .. } => match reply {
                StoreReply::GroupJoined(channel) => {
                    let rest = match &channel {
                        Channel::Group { recipients, .. } => Some(others_of(recipients, &actor.id)),
                        _ => None,
                    };
                    match rest {
                        Some(others) => JoinState::FetchingUsers { actor, channel, others },
                        None => JoinState::Rejected(Error::Internal),
                    }
                },
                StoreReply::Failed(error) => JoinState::Rejected(error),
                _ => JoinState::Rejected(Error::Internal),
            },
            JoinState::FetchingUsers { actor, channel, others } => match reply {
                StoreReply::Users(users) => match know_all(&others, &users, &actor) {
                    Some(users) => JoinState::Admitted(
                        InviteJoinResponse::Group { channel, users },
                    ),
                    None => JoinState::Rejected(Error::NotFound),
                },
                StoreReply::Failed(error) => JoinState::Rejected(error),
                _ => JoinState::Rejected(Error::Internal),
            },
        }
    }

    /// The end of the admission: the response or the error; nothing while a
    /// question is pending.
    pub fn outcome(self) -> (outcome: Option<Result<InviteJoinResponse, Error>>)
        ensures
            match outcome {
                Some(Ok(response)) => self@ == JoinStateView::Admitted(response@),
                Some(Err(error)) => self@ == JoinStateView::Rejected(error),
                None => !self@.settled(),
            },
    {
        match self {
            JoinState::Admitted(response) => Some(Ok(response)),
            JoinState::Rejected(error) => Some(Err(error)),
            _ => None,
        }
    }
}

/// Copies a list of ids.
fn copy_ids(ids: &Vec<String>) -> (copy: Vec<String>)
    ensures
        views(copy@) == views(ids@),
{
    let mut copy: Vec<String> = Vec::new();
    let mut i: usize = 0;
    while i < ids.len()
        invariant
            i <= ids.len(),
            copy@.len() == i,
            forall|j: int| 0 <= j < i ==> (#[trigger] copy@[j])@ == ids@[j]@,
        decreases ids.len() - i,
    {
        copy.push(ids[i].clone());
        i += 1;
    }
    assert(views(copy@) =~= views(ids@));
    copy
}

} // verus!
