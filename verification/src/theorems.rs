//! What holds of every admission, whatever the store answers.
//!
//! The theorems speak of [`run`]: the admission after a sequence of answers.
//! As the sequence is arbitrary, a statement about `run(.., replies)` holds at
//! every point of every course an admission can take.
use vstd::prelude::*;
use crate::invite_join::{
    all_found, first_with_id, is_other, known_users, next, others, run, start, JoinStateView,
};
use crate::model::{ChannelView, InviteJoinResponseView, InviteView, ServerView, UserView};
use crate::policy::eligible;
use crate::projector::project_spec;
use crate::result::Error;
use crate::store::{StoreReplyView, StoreRequestView};

verus! {

/// Whether the first answer is a number of servers with which `actor` passes
/// the policy.
pub open spec fn passed_policy(actor: UserView, quota: nat, replies: Seq<StoreReplyView>) -> bool {
    &&& replies.len() >= 1
    &&& replies[0] matches StoreReplyView::ServerCount(servers)
    &&& eligible(actor, servers, quota) is Ok
}

/// Whether the admission waits on an operation that changes the store.
pub open spec fn awaits_write(state: JoinStateView) -> bool {
    state.pending() matches Some(request) && request.writes()
}

/// The first `k` answers lead to where the first `k - 1` lead, moved on by
/// answer `k - 1`.
pub proof fn lemma_run_prefix(state: JoinStateView, replies: Seq<StoreReplyView>, k: int)
    requires
        0 < k <= replies.len(),
    ensures
        run(state, replies.take(k)) == next(run(state, replies.take(k - 1)), replies[k - 1]),
        run(state, replies.take(0)) == state,
        run(state, replies.take(replies.len() as int)) == run(state, replies),
{
    assert(replies.take(k).drop_last() =~= replies.take(k - 1));
    assert(replies.take(replies.len() as int) =~= replies);
}

/// A settled admission stays as it is, whatever is answered afterwards.
pub proof fn lemma_settled_stays(state: JoinStateView, replies: Seq<StoreReplyView>)
    requires
        state.settled(),
    ensures
        run(state, replies) == state,
    decreases replies.len(),
{
    if replies.len() > 0 {
        lemma_settled_stays(state, replies.drop_last());
    }
}

/// Once the first `k` answers have settled the admission, the rest change
/// nothing.
pub proof fn lemma_settled_prefix(state: JoinStateView, replies: Seq<StoreReplyView>, k: int)
    requires
        0 <= k <= replies.len(),
        run(state, replies.take(k)).settled(),
    ensures
        run(state, replies) == run(state, replies.take(k)),
    decreases replies.len() - k,
{
    if k < replies.len() {
        lemma_run_prefix(state, replies, k + 1);
        lemma_settled_prefix(state, replies, k + 1);
    } else {
        assert(replies.take(k) =~= replies);
    }
}

/// Where an admission can be after `replies`, and what must have been answered
/// for it to be there.
spec fn on_course(
    actor: UserView,
    target: Seq<char>,
    quota: nat,
    replies: Seq<StoreReplyView>,
    state: JoinStateView,
) -> bool {
    match state {
        JoinStateView::CheckingQuota { actor: a, target: t, quota: q } => {
            &&& replies.len() == 0
            &&& !actor.bot
            &&& a == actor
            &&& t == target
            &&& q == quota
        },
        JoinStateView::Resolving { actor: a, target: t } => {
            &&& replies.len() == 1
            &&& passed_policy(actor, quota, replies)
            &&& a == actor
            &&& t == target
        },
        JoinStateView::FetchingServer { actor: a, server } => {
            &&& replies.len() == 2
            &&& passed_policy(actor, quota, replies)
            &&& a == actor
            &&& replies[1] matches StoreReplyView::Invite(InviteView::Server { server: s, .. })
            &&& s == server
        },
        JoinStateView::CreatingMember { actor: a, server } => {
            &&& replies.len() == 3
            &&& passed_policy(actor, quota, replies)
            &&& a == actor
            &&& replies[1] matches StoreReplyView::Invite(InviteView::Server { .. })
            &&& replies[2] == StoreReplyView::Server(server)
        },
        JoinStateView::FetchingChannel { actor: a, channel, creator } => {
            &&& replies.len() == 2
            &&& passed_policy(actor, quota, replies)
            &&& a == actor
            &&& replies[1] == StoreReplyView::Invite(InviteView::Group { channel, creator })
        },
        JoinStateView::JoiningGroup { actor: a, channel, creator } => {
            &&& replies.len() == 3
            &&& passed_policy(actor, quota, replies)
            &&& a == actor
            &&& replies[1] matches StoreReplyView::Invite(InviteView::Group { creator: c, .. })
            &&& c == creator
            &&& replies[2] matches StoreReplyView::Channel(ChannelView::Group { id, .. })
            &&& id == channel
        },
        JoinStateView::FetchingUsers { actor: a, channel, others: rest } => {
            &&& replies.len() == 4
            &&& passed_policy(actor, quota, replies)
            &&& a == actor
            &&& replies[1] matches StoreReplyView::Invite(InviteView::Group { .. })
            &&& replies[2] matches StoreReplyView::Channel(ChannelView::Group { .. })
            &&& replies[3] == StoreReplyView::GroupJoined(channel)
            &&& channel matches ChannelView::Group { recipients, .. }
            &&& rest == others(recipients, actor.id)
        },
        JoinStateView::Admitted(InviteJoinResponseView::Server { server, channels }) => {
            &&& replies.len() >= 4
            &&& passed_policy(actor, quota, replies)
            &&& replies[1] matches StoreReplyView::Invite(InviteView::Server { .. })
            &&& replies[2] == StoreReplyView::Server(server)
            &&& replies[3] == StoreReplyView::Member(channels)
        },
        JoinStateView::Admitted(InviteJoinResponseView::Group { channel, users }) => {
            &&& replies.len() >= 5
            &&& passed_policy(actor, quota, replies)
            &&& replies[1] matches StoreReplyView::Invite(InviteView::Group { .. })
            &&& replies[2] matches StoreReplyView::Channel(ChannelView::Group { .. })
            &&& replies[3] == StoreReplyView::GroupJoined(channel)
            &&& channel matches ChannelView::Group { recipients, .. }
            &&& replies[4] matches StoreReplyView::Users(fetched)
            &&& known_users(others(recipients, actor.id), fetched, actor) == Some(users)
        },
        JoinStateView::Rejected(_) => true,
    }
}

/// Every admission stays on course.
proof fn lemma_on_course(
    actor: UserView,
    target: Seq<char>,
    quota: nat,
    replies: Seq<StoreReplyView>,
)
    ensures
        on_course(actor, target, quota, replies, run(start(actor, target, quota), replies)),
    decreases replies.len(),
{
    if replies.len() > 0 {
        let before = replies.drop_last();
        lemma_on_course(actor, target, quota, before);
        assert(forall|i: int| 0 <= i < before.len() ==> before[i] == replies[i]);
        assert(replies.last() == replies[replies.len() - 1]);
    }
}

/// A bot is refused, and refused unasked: whatever the target and whatever the
/// store would answer, the admission of a bot is `IsBot` from the start, and at
/// no point does it wait on any operation of the store.
pub proof fn theorem_bot_is_refused_unasked(
    actor: UserView,
    target: Seq<char>,
    quota: nat,
    replies: Seq<StoreReplyView>,
)
    requires
        actor.bot,
    ensures
        run(start(actor, target, quota), replies) == JoinStateView::Rejected(Error::IsBot),
        run(start(actor, target, quota), replies).pending() is None,
{
    lemma_settled_stays(start(actor, target, quota), replies);
}

/// The policy comes before everything else: an admission that has got past the
/// count of servers, to the invite, to a write or to its success, is the
/// admission of an actor whom the policy lets pass on that count.
pub proof fn theorem_policy_comes_first(
    actor: UserView,
    target: Seq<char>,
    quota: nat,
    replies: Seq<StoreReplyView>,
)
    ensures
        ({
            let state = run(start(actor, target, quota), replies);
            !(state is Rejected) && !(state is CheckingQuota) ==> passed_policy(
                actor,
                quota,
                replies,
            )
        }),
        awaits_write(run(start(actor, target, quota), replies)) ==> passed_policy(
            actor,
            quota,
            replies,
        ),
{
    lemma_on_course(actor, target, quota, replies);
}

/// An admission writes at most once: the only point at which it waits on a
/// write is after the third answer, so of all the questions of one admission at
/// most one changes the store. And it settles with the fifth answer at the
/// latest.
pub proof fn theorem_one_write_at_most(
    actor: UserView,
    target: Seq<char>,
    quota: nat,
    replies: Seq<StoreReplyView>,
)
    ensures
        awaits_write(run(start(actor, target, quota), replies)) ==> replies.len() == 3,
        replies.len() >= 5 ==> run(start(actor, target, quota), replies).settled(),
{
    lemma_on_course(actor, target, quota, replies);
}

/// A failure ends the admission with the store's error as it came, and nothing
/// is asked after it.
pub proof fn theorem_failure_is_final(
    state: JoinStateView,
    error: Error,
    replies: Seq<StoreReplyView>,
)
    requires
        !state.settled(),
    ensures
        next(state, StoreReplyView::Failed(error)) == JoinStateView::Rejected(error),
        run(next(state, StoreReplyView::Failed(error)), replies) == JoinStateView::Rejected(error),
        run(next(state, StoreReplyView::Failed(error)), replies).pending() is None,
{
    lemma_settled_stays(next(state, StoreReplyView::Failed(error)), replies);
}

/// An invite to a server that the store does not hold ends in the store's
/// error for the fetch (`NotFound` where it says so), and no member record is
/// asked for: at no point of such an admission is a write pending.
pub proof fn theorem_missing_server_creates_no_member(
    actor: UserView,
    target: Seq<char>,
    quota: nat,
    replies: Seq<StoreReplyView>,
    error: Error,
    k: int,
)
    requires
        replies.len() >= 3,
        passed_policy(actor, quota, replies),
        replies[1] matches StoreReplyView::Invite(invite) && invite is Server,
        replies[2] == StoreReplyView::Failed(error),
        0 <= k <= replies.len(),
    ensures
        run(start(actor, target, quota), replies) == JoinStateView::Rejected(error),
        !awaits_write(run(start(actor, target, quota), replies.take(k))),
{
    let begin = start(actor, target, quota);
    lemma_run_prefix(begin, replies, 1);
    lemma_run_prefix(begin, replies, 2);
    lemma_run_prefix(begin, replies, 3);
    lemma_settled_prefix(begin, replies, 3);
    if k > 3 {
        assert(replies.take(k).take(3) =~= replies.take(3));
        lemma_settled_prefix(begin, replies.take(k), 3);
    }
}

/// A server invite that goes through answers with the fetched server and with
/// the channels exactly as the creation of the member returned them. The member
/// is created once, for the actor and in the fetched server: that write is the
/// fourth question, and no other point of the admission waits on a write.
pub proof fn theorem_server_join(
    actor: UserView,
    target: Seq<char>,
    quota: nat,
    replies: Seq<StoreReplyView>,
    server: ServerView,
    k: int,
)
    requires
        replies.len() >= 4,
        passed_policy(actor, quota, replies),
        replies[1] matches StoreReplyView::Invite(invite) && invite is Server,
        replies[2] == StoreReplyView::Server(server),
        replies[3] is Member,
        0 <= k <= replies.len(),
    ensures
        run(start(actor, target, quota), replies) == JoinStateView::Admitted(
            InviteJoinResponseView::Server { server, channels: replies[3]->Member_0 },
        ),
        run(start(actor, target, quota), replies.take(3)).pending() == Some(
            StoreRequestView::CreateMember { server: server.id, user: actor.id },
        ),
        awaits_write(run(start(actor, target, quota), replies.take(k))) <==> k == 3,
{
    let begin = start(actor, target, quota);
    lemma_run_prefix(begin, replies, 1);
    lemma_run_prefix(begin, replies, 2);
    lemma_run_prefix(begin, replies, 3);
    lemma_run_prefix(begin, replies, 4);
    lemma_settled_prefix(begin, replies, 4);
    if k > 4 {
        assert(replies.take(k).take(4) =~= replies.take(4));
        lemma_settled_prefix(begin, replies.take(k), 4);
    }
}

/// The recipients but the actor: none of them is the actor, and there are no
/// more of them than recipients.
pub proof fn lemma_others_exclude_actor(recipients: Seq<Seq<char>>, actor: Seq<char>, i: int)
    requires
        0 <= i < others(recipients, actor).len(),
    ensures
        others(recipients, actor)[i] != actor,
        others(recipients, actor).len() <= recipients.len(),
{
    recipients.lemma_filter_pred(is_other(actor), i);
    recipients.lemma_filter_len(is_other(actor));
}

/// Recipients that do not include the actor are all others.
pub proof fn lemma_others_of_strangers(recipients: Seq<Seq<char>>, actor: Seq<char>)
    requires
        !recipients.contains(actor),
    ensures
        others(recipients, actor) == recipients,
    decreases recipients.len(),
{
    reveal(Seq::filter);
    if recipients.len() > 0 {
        let front = recipients.drop_last();
        assert(forall|i: int| 0 <= i < front.len() ==> front[i] == recipients[i]);
        assert(recipients.last() == recipients[recipients.len() - 1]);
        lemma_others_of_strangers(front, actor);
        assert(front.push(recipients.last()) =~= recipients);
    }
}

/// Where the actor was appended to a recipient list that did not hold them,
/// the others are the recipients as they were before, in their order.
pub proof fn lemma_others_after_append(before: Seq<Seq<char>>, actor: Seq<char>)
    requires
        !before.contains(actor),
    ensures
        others(before.push(actor), actor) == before,
{
    Seq::lemma_filter_push(before, actor, is_other(actor));
    lemma_others_of_strangers(before, actor);
}

/// A group invite that goes through answers with the group as it is after the
/// actor was added, and with its other recipients as the actor may know them:
/// one user for each recipient but the actor, in the order of the recipient
/// list, each the projection of the first fetched user with that id. The actor
/// is not among them. If a recipient is missing from what was fetched, the
/// admission ends in `NotFound` and no part of the list is handed out.
pub proof fn theorem_group_join(
    actor: UserView,
    target: Seq<char>,
    quota: nat,
    replies: Seq<StoreReplyView>,
)
    requires
        replies.len() >= 5,
        passed_policy(actor, quota, replies),
        replies[1] matches StoreReplyView::Invite(invite) && invite is Group,
        replies[2] matches StoreReplyView::Channel(channel) && channel is Group,
        replies[3] matches StoreReplyView::GroupJoined(channel) && channel is Group,
        replies[4] is Users,
    ensures
        ({
            let group = replies[3]->GroupJoined_0;
            let rest = others(group->recipients, actor.id);
            let fetched = replies[4]->Users_0;
            match run(start(actor, target, quota), replies) {
                JoinStateView::Admitted(InviteJoinResponseView::Group { channel, users }) => {
                    &&& all_found(rest, fetched)
                    &&& channel == group
                    &&& users.len() == rest.len()
                    &&& forall|i: int|
                        0 <= i < users.len() ==> {
                            &&& (#[trigger] users[i]).id == rest[i]
                            &&& users[i].id != actor.id
                            &&& users[i] == project_spec(
                                first_with_id(fetched, rest[i], 0)->0,
                                actor,
                            )
                        }
                },
                JoinStateView::Rejected(error) => {
                    &&& !all_found(rest, fetched)
                    &&& error == Error::NotFound
                },
                _ => false,
            }
        }),
        run(start(actor, target, quota), replies.take(3)).pending() == Some(
            StoreRequestView::AddUserToGroup {
                channel: replies[2]->Channel_0->Group_id,
                user: actor.id,
                creator: replies[1]->Invite_0->Group_creator,
            },
        ),
        run(start(actor, target, quota), replies.take(4)).pending() == Some(
            StoreRequestView::FetchUsers {
                ids: others(replies[3]->GroupJoined_0->recipients, actor.id),
            },
        ),
{
    let begin = start(actor, target, quota);
    lemma_run_prefix(begin, replies, 1);
    lemma_run_prefix(begin, replies, 2);
    lemma_run_prefix(begin, replies, 3);
    lemma_run_prefix(begin, replies, 4);
    lemma_run_prefix(begin, replies, 5);
    lemma_settled_prefix(begin, replies, 5);
    let group = replies[3]->GroupJoined_0;
    let rest = others(group->recipients, actor.id);
    let fetched = replies[4]->Users_0;
    if all_found(rest, fetched) {
        let users = known_users(rest, fetched, actor)->0;
        assert forall|i: int| 0 <= i < users.len() implies {
            &&& (#[trigger] users[i]).id == rest[i]
            &&& users[i].id != actor.id
        } by {
            lemma_found_has_id(fetched, rest[i], 0);
            lemma_others_exclude_actor(group->recipients, actor.id, i);
        }
    }
}

/// A user found by id has that id.
proof fn lemma_found_has_id(users: Seq<UserView>, id: Seq<char>, from: int)
    requires
        0 <= from,
    ensures
        first_with_id(users, id, from) matches Some(user) ==> user.id == id,
    decreases users.len() - from,
{
    if from < users.len() && users[from].id != id {
        lemma_found_has_id(users, id, from + 1);
    }
}

} // verus!
