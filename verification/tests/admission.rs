use revolt_delta::invite_join::{join, JoinState};
use revolt_delta::model::{
    Channel, Invite, InviteJoinResponse, Relation, RelationshipStatus, RelativeUser, Server, User,
};
use revolt_delta::projector::project;
use revolt_delta::reference::Reference;
use revolt_delta::result::Error;
use revolt_delta::store::{StoreReply, StoreRequest};

fn s(text: &str) -> String {
    text.to_string()
}

fn user(id: &str) -> User {
    User { id: s(id), bot: false, relations: Vec::new() }
}

fn bot(id: &str) -> User {
    User { id: s(id), bot: true, relations: Vec::new() }
}

fn target(id: &str) -> Reference {
    Reference::from_id(s(id)).unwrap()
}

fn group(id: &str, recipients: &[&str]) -> Channel {
    Channel::Group {
        id: s(id),
        owner: s("U2"),
        recipients: recipients.iter().map(|r| s(r)).collect(),
    }
}

fn text(id: &str) -> Channel {
    Channel::Text { id: s(id), server: s("S1") }
}

fn server(id: &str) -> Server {
    Server { id: s(id), owner: s("U2"), name: s("a server") }
}

/// A store that answers from a fixed script and keeps what it was asked.
struct Script {
    replies: Vec<StoreReply>,
    asked: Vec<StoreRequest>,
}

impl Script {
    fn new(replies: Vec<StoreReply>) -> Script {
        Script { replies, asked: Vec::new() }
    }

    fn run(&mut self, mut state: JoinState) -> Result<InviteJoinResponse, Error> {
        let mut next = 0;
        while let Some(request) = state.request() {
            self.asked.push(request);
            let reply = self.replies[next].clone();
            next += 1;
            state = state.step(reply);
        }
        state.outcome().unwrap()
    }

    fn writes(&self) -> usize {
        self.asked.iter().filter(|request| request.is_write()).count()
    }
}

#[test]
fn server_invite_is_redeemed() {
    let mut store = Script::new(vec![
        StoreReply::ServerCount(3),
        StoreReply::Invite(Invite::Server { server: s("S1"), creator: s("U2"), channel: None }),
        StoreReply::Server(server("S1")),
        StoreReply::Member(vec![text("C1"), text("C2")]),
    ]);
    let outcome = store.run(join(user("U1"), target("INV"), 100));
    assert_eq!(
        outcome,
        Ok(InviteJoinResponse::Server {
            server: server("S1"),
            channels: vec![text("C1"), text("C2")],
        })
    );
    assert_eq!(
        store.asked,
        vec![
            StoreRequest::CountServers { user: s("U1") },
            StoreRequest::LookupInvite { id: s("INV") },
            StoreRequest::FetchServer { id: s("S1") },
            StoreRequest::CreateMember { server: s("S1"), user: s("U1") },
        ]
    );
    assert_eq!(store.writes(), 1);
}

#[test]
fn group_invite_is_redeemed() {
    let joined = group("G1", &["U2", "U3", "U1"]);
    let mut store = Script::new(vec![
        StoreReply::ServerCount(0),
        StoreReply::Invite(Invite::Group { channel: s("G1"), creator: s("U2") }),
        StoreReply::Channel(group("G1", &["U2", "U3"])),
        StoreReply::GroupJoined(joined.clone()),
        StoreReply::Users(vec![user("U2"), user("U3")]),
    ]);
    let actor = user("U1");
    let outcome = store.run(join(actor.clone(), target("INV"), 100));
    assert_eq!(
        outcome,
        Ok(InviteJoinResponse::Group {
            channel: joined,
            users: vec![project(&user("U2"), &actor), project(&user("U3"), &actor)],
        })
    );
    assert_eq!(
        store.asked,
        vec![
            StoreRequest::CountServers { user: s("U1") },
            StoreRequest::LookupInvite { id: s("INV") },
            StoreRequest::FetchChannel { id: s("G1") },
            StoreRequest::AddUserToGroup { channel: s("G1"), user: s("U1"), creator: s("U2") },
            StoreRequest::FetchUsers { ids: vec![s("U2"), s("U3")] },
        ]
    );
    assert_eq!(store.writes(), 1);
}

#[test]
fn bot_is_refused_before_the_store_is_asked() {
    let mut store = Script::new(vec![]);
    let outcome = store.run(join(bot("B1"), target("INV"), 100));
    assert_eq!(outcome, Err(Error::IsBot));
    assert!(store.asked.is_empty());
    assert_eq!(store.writes(), 0);
}

#[test]
fn bot_stays_refused_whatever_is_answered() {
    let state = join(bot("B1"), target("INV"), 100);
    assert!(state.is_settled());
    let state = state.step(StoreReply::ServerCount(0));
    let state = state.step(StoreReply::Member(vec![text("C1")]));
    assert_eq!(state.request(), None);
    assert_eq!(state.outcome(), Some(Err(Error::IsBot)));
}

#[test]
fn actor_at_quota_is_refused() {
    let mut store = Script::new(vec![StoreReply::ServerCount(100)]);
    let outcome = store.run(join(user("U1"), target("INV"), 100));
    assert_eq!(outcome, Err(Error::QuotaExceeded));
    assert_eq!(store.asked, vec![StoreRequest::CountServers { user: s("U1") }]);
}

#[test]
fn actor_one_under_quota_passes() {
    let state = join(user("U1"), target("INV"), 100).step(StoreReply::ServerCount(99));
    assert_eq!(state.request(), Some(StoreRequest::LookupInvite { id: s("INV") }));
}

#[test]
fn quota_of_zero_admits_nobody() {
    let state = join(user("U1"), target("INV"), 0).step(StoreReply::ServerCount(0));
    assert_eq!(state.outcome(), Some(Err(Error::QuotaExceeded)));
}

#[test]
fn quota_is_checked_for_group_invites_too() {
    let mut store = Script::new(vec![StoreReply::ServerCount(5)]);
    let outcome = store.run(join(user("U1"), target("GROUPINV"), 5));
    assert_eq!(outcome, Err(Error::QuotaExceeded));
    assert_eq!(store.writes(), 0);
}

#[test]
fn unknown_invite_is_not_found() {
    let mut store =
        Script::new(vec![StoreReply::ServerCount(0), StoreReply::Failed(Error::NotFound)]);
    let outcome = store.run(join(user("U1"), target("NOPE"), 100));
    assert_eq!(outcome, Err(Error::NotFound));
    assert_eq!(store.asked.len(), 2);
}

#[test]
fn missing_server_creates_no_member() {
    let mut store = Script::new(vec![
        StoreReply::ServerCount(0),
        StoreReply::Invite(Invite::Server {
            server: s("GONE"),
            creator: s("U2"),
            channel: Some(s("C1")),
        }),
        StoreReply::Failed(Error::NotFound),
    ]);
    let outcome = store.run(join(user("U1"), target("INV"), 100));
    assert_eq!(outcome, Err(Error::NotFound));
    assert_eq!(store.asked.last(), Some(&StoreRequest::FetchServer { id: s("GONE") }));
    assert_eq!(store.writes(), 0);
}

#[test]
fn channels_come_back_as_created() {
    let created = vec![text("C9"), group("G7", &["U1"]), text("C1"), text("C9")];
    let mut store = Script::new(vec![
        StoreReply::ServerCount(0),
        StoreReply::Invite(Invite::Server { server: s("S1"), creator: s("U2"), channel: None }),
        StoreReply::Server(server("S1")),
        StoreReply::Member(created.clone()),
    ]);
    match store.run(join(user("U1"), target("INV"), 100)) {
        Ok(InviteJoinResponse::Server { channels, .. }) => assert_eq!(channels, created),
        other => panic!("unexpected outcome {:?}", other),
    }
}

#[test]
fn member_is_created_in_the_fetched_server() {
    let mut store = Script::new(vec![
        StoreReply::ServerCount(0),
        StoreReply::Invite(Invite::Server { server: s("S1"), creator: s("U2"), channel: None }),
        StoreReply::Server(server("S1-renamed")),
        StoreReply::Member(vec![]),
    ]);
    let outcome = store.run(join(user("U1"), target("INV"), 100));
    assert_eq!(
        outcome,
        Ok(InviteJoinResponse::Server { server: server("S1-renamed"), channels: vec![] })
    );
    assert_eq!(
        store.asked[3],
        StoreRequest::CreateMember { server: s("S1-renamed"), user: s("U1") }
    );
}

#[test]
fn failed_member_creation_is_handed_on() {
    let mut store = Script::new(vec![
        StoreReply::ServerCount(0),
        StoreReply::Invite(Invite::Server { server: s("S1"), creator: s("U2"), channel: None }),
        StoreReply::Server(server("S1")),
        StoreReply::Failed(Error::StoreUnavailable),
    ]);
    assert_eq!(store.run(join(user("U1"), target("INV"), 100)), Err(Error::StoreUnavailable));
}

#[test]
fn duplicate_membership_is_handed_on() {
    let mut store = Script::new(vec![
        StoreReply::ServerCount(0),
        StoreReply::Invite(Invite::Group { channel: s("G1"), creator: s("U2") }),
        StoreReply::Channel(group("G1", &["U2", "U1"])),
        StoreReply::Failed(Error::AlreadyMember),
    ]);
    assert_eq!(store.run(join(user("U1"), target("INV"), 100)), Err(Error::AlreadyMember));
    assert_eq!(store.asked.len(), 4);
}

#[test]
fn users_follow_the_recipient_list_not_the_fetch() {
    let mut store = Script::new(vec![
        StoreReply::ServerCount(0),
        StoreReply::Invite(Invite::Group { channel: s("G1"), creator: s("U2") }),
        StoreReply::Channel(group("G1", &["U4", "U2", "U3"])),
        StoreReply::GroupJoined(group("G1", &["U4", "U2", "U3", "U1"])),
        StoreReply::Users(vec![user("U3"), user("U9"), user("U2"), bot("U4")]),
    ]);
    match store.run(join(user("U1"), target("INV"), 100)) {
        Ok(InviteJoinResponse::Group { users, .. }) => {
            let ids: Vec<&str> = users.iter().map(|u| u.id.as_str()).collect();
            assert_eq!(ids, vec!["U4", "U2", "U3"]);
            assert!(users[0].bot);
            assert!(!users[1].bot);
        },
        other => panic!("unexpected outcome {:?}", other),
    }
}

#[test]
fn actor_is_left_out_wherever_they_stand() {
    let mut store = Script::new(vec![
        StoreReply::ServerCount(0),
        StoreReply::Invite(Invite::Group { channel: s("G1"), creator: s("U2") }),
        StoreReply::Channel(group("G1", &["U1", "U2"])),
        StoreReply::GroupJoined(group("G1", &["U1", "U2", "U1", "U3", "U2"])),
        StoreReply::Users(vec![user("U1"), user("U2"), user("U3")]),
    ]);
    match store.run(join(user("U1"), target("INV"), 100)) {
        Ok(InviteJoinResponse::Group { users, .. }) => {
            let ids: Vec<&str> = users.iter().map(|u| u.id.as_str()).collect();
            assert_eq!(ids, vec!["U2", "U3", "U2"]);
        },
        other => panic!("unexpected outcome {:?}", other),
    }
    assert_eq!(store.asked[4], StoreRequest::FetchUsers { ids: vec![s("U2"), s("U3"), s("U2")] });
}

#[test]
fn group_of_the_actor_alone_has_no_others() {
    let mut store = Script::new(vec![
        StoreReply::ServerCount(0),
        StoreReply::Invite(Invite::Group { channel: s("G1"), creator: s("U2") }),
        StoreReply::Channel(group("G1", &[])),
        StoreReply::GroupJoined(group("G1", &["U1"])),
        StoreReply::Users(vec![]),
    ]);
    assert_eq!(
        store.run(join(user("U1"), target("INV"), 100)),
        Ok(InviteJoinResponse::Group { channel: group("G1", &["U1"]), users: vec![] })
    );
}

#[test]
fn missing_recipient_fails_the_whole_join() {
    let mut store = Script::new(vec![
        StoreReply::ServerCount(0),
        StoreReply::Invite(Invite::Group { channel: s("G1"), creator: s("U2") }),
        StoreReply::Channel(group("G1", &["U2", "U3"])),
        StoreReply::GroupJoined(group("G1", &["U2", "U3", "U1"])),
        StoreReply::Users(vec![user("U2")]),
    ]);
    assert_eq!(store.run(join(user("U1"), target("INV"), 100)), Err(Error::NotFound));
}

#[test]
fn failed_fetch_of_users_is_handed_on() {
    let mut store = Script::new(vec![
        StoreReply::ServerCount(0),
        StoreReply::Invite(Invite::Group { channel: s("G1"), creator: s("U2") }),
        StoreReply::Channel(group("G1", &["U2"])),
        StoreReply::GroupJoined(group("G1", &["U2", "U1"])),
        StoreReply::Failed(Error::StoreUnavailable),
    ]);
    assert_eq!(store.run(join(user("U1"), target("INV"), 100)), Err(Error::StoreUnavailable));
}

#[test]
fn channel_that_is_no_group_is_an_internal_error() {
    let mut store = Script::new(vec![
        StoreReply::ServerCount(0),
        StoreReply::Invite(Invite::Group { channel: s("C1"), creator: s("U2") }),
        StoreReply::Channel(text("C1")),
    ]);
    assert_eq!(store.run(join(user("U1"), target("INV"), 100)), Err(Error::Internal));
    assert_eq!(store.writes(), 0);
}

#[test]
fn joined_channel_that_is_no_group_is_an_internal_error() {
    let mut store = Script::new(vec![
        StoreReply::ServerCount(0),
        StoreReply::Invite(Invite::Group { channel: s("G1"), creator: s("U2") }),
        StoreReply::Channel(group("G1", &["U2"])),
        StoreReply::GroupJoined(text("G1")),
    ]);
    assert_eq!(store.run(join(user("U1"), target("INV"), 100)), Err(Error::Internal));
}

#[test]
fn answer_to_another_question_is_an_internal_error() {
    let state = join(user("U1"), target("INV"), 100).step(StoreReply::Server(server("S1")));
    assert_eq!(state.outcome(), Some(Err(Error::Internal)));
    let state = join(user("U1"), target("INV"), 100)
        .step(StoreReply::ServerCount(0))
        .step(StoreReply::ServerCount(0));
    assert_eq!(state.outcome(), Some(Err(Error::Internal)));
}

#[test]
fn unavailable_store_ends_the_admission_at_once() {
    let mut store = Script::new(vec![StoreReply::Failed(Error::StoreUnavailable)]);
    assert_eq!(store.run(join(user("U1"), target("INV"), 100)), Err(Error::StoreUnavailable));
    assert_eq!(store.asked.len(), 1);
}

#[test]
fn outcome_is_pending_while_a_question_is_open() {
    let state = join(user("U1"), target("INV"), 100);
    assert!(!state.is_settled());
    assert_eq!(state.outcome(), None);
}

#[test]
fn users_are_projected_for_the_actor() {
    let actor = User {
        id: s("U1"),
        bot: false,
        relations: vec![
            Relation { id: s("U2"), status: RelationshipStatus::Friend },
            Relation { id: s("U3"), status: RelationshipStatus::Blocked },
        ],
    };
    let mut store = Script::new(vec![
        StoreReply::ServerCount(0),
        StoreReply::Invite(Invite::Group { channel: s("G1"), creator: s("U2") }),
        StoreReply::Channel(group("G1", &["U2", "U3", "U4"])),
        StoreReply::GroupJoined(group("G1", &["U2", "U3", "U4", "U1"])),
        StoreReply::Users(vec![user("U2"), user("U3"), user("U4")]),
    ]);
    match store.run(join(actor, target("INV"), 100)) {
        Ok(InviteJoinResponse::Group { users, .. }) => assert_eq!(
            users,
            vec![
                RelativeUser { id: s("U2"), bot: false, relationship: RelationshipStatus::Friend },
                RelativeUser { id: s("U3"), bot: false, relationship: RelationshipStatus::Blocked },
                RelativeUser {
                    id: s("U4"),
                    bot: false,
                    relationship: RelationshipStatus::Unrelated,
                },
            ]
        ),
        other => panic!("unexpected outcome {:?}", other),
    }
}
