//! The reference resolver: from an opaque id to the invite it names.
//!
//! A reference does not say what kind of invite it names. The store's single
//! lookup answers with an invite that carries its kind, and resolution hands
//! that invite on as it came.
use vstd::prelude::*;
use crate::model::{Invite, InviteView};
use crate::result::Error;
use crate::store::{StoreReply, StoreReplyView, StoreRequest, StoreRequestView};

verus! {

/// An invite id that was not resolved yet. It is never empty; nothing else is
/// known of it.
#[derive(Debug, PartialEq, Eq)]
pub struct Reference {
    id: String,
}

impl Clone for Reference {
    fn clone(&self) -> (copy: Reference)
        ensures
            copy@ == self@,
    {
        proof {
            use_type_invariant(self);
        }
        Reference { id: self.id.clone() }
    }
}

impl View for Reference {
    type V = Seq<char>;

    /// The id, as a sequence of characters.
    closed spec fn view(&self) -> Seq<char> {
        self.id@
    }
}

/// What resolution makes of the store's answer to the lookup: the invite as it
/// came, the store's error as it came, and `Internal` for an answer to some
/// other question.
pub open spec fn resolve_spec(reply: StoreReplyView) -> Result<InviteView, Error> {
    match reply {
        StoreReplyView::Invite(invite) => Ok(invite),
        StoreReplyView::Failed(error) => Err(error),
        _ => Err(Error::Internal),
    }
}

/// The answer that a store holding exactly the invites `invites` gives to a
/// lookup of `id`, when it is able to answer.
pub open spec fn lookup_answer(invites: Map<Seq<char>, InviteView>, id: Seq<char>) -> StoreReplyView {
    if invites.dom().contains(id) {
        StoreReplyView::Invite(invites[id])
    } else {
        StoreReplyView::Failed(Error::NotFound)
    }
}

/// Resolution is idempotent: two lookups of one id, answered by a store whose
/// invites did not change in between, resolve alike. Both give the invite that
/// the store holds under the id, or both give `NotFound`.
pub proof fn lemma_resolution_idempotent(
    invites: Map<Seq<char>, InviteView>,
    id: Seq<char>,
    first: StoreReplyView,
    second: StoreReplyView,
)
    requires
        first == lookup_answer(invites, id),
        second == lookup_answer(invites, id),
    ensures
        resolve_spec(first) == resolve_spec(second),
        resolve_spec(first) == if invites.dom().contains(id) {
            Ok::<InviteView, Error>(invites[id])
        } else {
            Err::<InviteView, Error>(Error::NotFound)
        },
{
}

impl Reference {
    #[verifier::type_invariant]
    spec fn nonempty(self) -> bool {
        self.id@.len() > 0
    }

    /// Takes an id as a reference. An empty id names nothing and gives `None`;
    /// every other id is taken as it is.
    pub fn from_id(id: String) -> (reference: Option<Reference>)
        ensures
            reference is Some <==> id@.len() > 0,
            reference matches Some(r) ==> r@ == id@,
    {
        if id.as_str().is_empty() {
            None
        } else {
            Some(Reference { id })
        }
    }

    /// The id.
    pub fn id(&self) -> (id: &String)
        ensures
            id@ == self@,
            id@.len() > 0,
    {
        proof {
            use_type_invariant(self);
        }
        &self.id
    }

    /// The one question that resolving this reference asks of the store.
    pub fn lookup(&self) -> (request: StoreRequest)
        ensures
            request@ == (StoreRequestView::LookupInvite { id: self@ }),
    {
        StoreRequest::LookupInvite { id: self.id.clone() }
    }

    /// Resolves the reference from the store's answer to [`Reference::lookup`].
    /// Nothing is changed and nothing further is asked.
    pub fn resolve(&self, reply: StoreReply) -> (resolved: Result<Invite, Error>)
        ensures
            match resolved {
                Ok(invite) => resolve_spec(reply@) == Ok::<InviteView, Error>(invite@),
                Err(error) => resolve_spec(reply@) == Err::<InviteView, Error>(error),
            },
    {
        match reply {
            StoreReply::Invite(invite) => Ok(invite),
            StoreReply::Failed(error) => Err(error),
            _ => Err(Error::Internal),
        }
    }
}

} // verus!
