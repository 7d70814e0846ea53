//! The relative-view projector: a user as the acting user may know them.
//!
//! The projection is a function of the pair alone. It reads both users and
//! changes nothing, so projections of different pairs can be computed in any
//! order or at the same time.
use vstd::prelude::*;
use crate::model::{
    views, Relation, RelationView, RelationshipStatus, RelativeUser, RelativeUserView, User,
    UserView,
};

verus! {

/// The status of the first entry of `relations`, at index `from` or later, that
/// names `id`; `Unrelated` where none does.
pub open spec fn relationship_from(
    relations: Seq<RelationView>,
    id: Seq<char>,
    from: int,
) -> RelationshipStatus
    decreases relations.len() - from,
{
    if from < 0 || from >= relations.len() {
        RelationshipStatus::Unrelated
    } else if relations[from].id == id {
        relations[from].status
    } else {
        relationship_from(relations, id, from + 1)
    }
}

/// How `actor` stands to the user with id `id`: to themself as `Myself`, to
/// anyone else as the actor's relationship list records it.
pub open spec fn relationship_with(actor: UserView, id: Seq<char>) -> RelationshipStatus {
    if id == actor.id {
        RelationshipStatus::Myself
    } else {
        relationship_from(actor.relations, id, 0)
    }
}

/// `user` as `actor` may know them.
pub open spec fn project_spec(user: UserView, actor: UserView) -> RelativeUserView {
    RelativeUserView {
        id: user.id,
        bot: user.bot,
        relationship: relationship_with(actor, user.id),
    }
}

/// The relationship list decides by its first matching entry: if entry `k`
/// names `id` and no earlier entry does, the relationship is that entry's
/// status; if no entry names `id`, it is `Unrelated`.
pub proof fn lemma_relationship_first_entry(relations: Seq<RelationView>, id: Seq<char>, k: int)
    requires
        0 <= k <= relations.len(),
        forall|j: int| 0 <= j < k ==> (#[trigger] relations[j]).id != id,
        k < relations.len() ==> relations[k].id == id,
    ensures
        relationship_from(relations, id, 0) == if k < relations.len() {
            relations[k].status
        } else {
            RelationshipStatus::Unrelated
        },
{
    lemma_skip_strangers(relations, id, 0, k);
}

/// Entries that do not name `id` do not matter to the relationship.
proof fn lemma_skip_strangers(relations: Seq<RelationView>, id: Seq<char>, from: int, to: int)
    requires
        0 <= from <= to <= relations.len(),
        forall|j: int| from <= j < to ==> (#[trigger] relations[j]).id != id,
    ensures
        relationship_from(relations, id, from) == relationship_from(relations, id, to),
    decreases to - from,
{
    if from < to {
        lemma_skip_strangers(relations, id, from + 1, to);
    }
}

/// Looks `id` up in a relationship list.
fn relationship_in(relations: &Vec<Relation>, id: &String) -> (status: RelationshipStatus)
    ensures
        status == relationship_from(views(relations@), id@, 0),
{
    let mut i: usize = 0;
    while i < relations.len()
        invariant
            i <= relations.len(),
            relationship_from(views(relations@), id@, 0) == relationship_from(
                views(relations@),
                id@,
                i as int,
            ),
        decreases relations.len() - i,
    {
        if relations[i].id == *id {
            return relations[i].status;
        }
        i += 1;
    }
    RelationshipStatus::Unrelated
}

/// Projects `user` into what `actor` may know of them.
pub fn project(user: &User, actor: &User) -> (known: RelativeUser)
    ensures
        known@ == project_spec(user@, actor@),
{
    let relationship = if user.id == actor.id {
        RelationshipStatus::Myself
    } else {
        relationship_in(&actor.relations, &user.id)
    };
    RelativeUser { id: user.id.clone(), bot: user.bot, relationship }
}

} // verus!
