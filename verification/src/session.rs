use vstd::prelude::*;

use crate::errors::CmdError;
use crate::logout::logout_message;
use crate::token::{DeleteOutcome, Lookup};

verus! {

/// The persistent state a single installation carries: at most one stored
/// credential (username and token) in the OS store, and the last-known
/// username in the local config file.
pub struct StoreModel {
    pub credential: Option<(Seq<char>, Seq<char>)>,
    pub username: Seq<char>,
}

/// A credential lookup agrees with a store state when it finds the stored
/// token exactly if one is stored.
pub open spec fn lookup_reflects(s: StoreModel, l: Lookup) -> bool {
    match l {
        Lookup::Found(t) => s.credential matches Some(c) && c.1 == t@,
        Lookup::Missing => s.credential is None,
        Lookup::StoreError(_) => false,
    }
}

/// A removal outcome agrees with a store state when the store answers
/// Deleted exactly if a credential was stored and NoEntry exactly if none
/// was.
pub open spec fn removal_reflects(s: StoreModel, o: DeleteOutcome) -> bool {
    match o {
        DeleteOutcome::Deleted => s.credential is Some,
        DeleteOutcome::NoEntry => s.credential is None,
        DeleteOutcome::Failure(_) => false,
    }
}

/// The store after a successful login for (user, token): the credential is
/// stored and the username persisted.
pub open spec fn model_after_login(s: StoreModel, user: Seq<char>, token: Seq<char>) -> StoreModel {
    StoreModel { credential: Some((user, token)), username: user }
}

/// The store after a logout: the credential is removed and the saved
/// username cleared.
pub open spec fn model_after_logout(s: StoreModel) -> StoreModel {
    StoreModel { credential: None, username: Seq::empty() }
}

/// What logout answers on a given store: the farewell message when a
/// credential is stored, NotAuthenticated when none is.
pub open spec fn spec_logout(s: StoreModel) -> Result<Seq<char>, CmdError> {
    match s.credential {
        Some(_) => Ok(logout_message(s.username)),
        None => Err(CmdError::NotAuthenticated),
    }
}

/// Whether login proceeds to the network call on a given store: it does
/// exactly when no credential is stored.
pub open spec fn spec_login_proceeds(s: StoreModel) -> bool {
    s.credential is None
}

/// With no stored credential, logout fails with NotAuthenticated while login
/// proceeds to the network call; every faithful lookup of such a store
/// reports the credential missing.
pub proof fn lemma_unauthenticated(s: StoreModel)
    requires
        s.credential is None,
    ensures
        spec_logout(s) == Err::<Seq<char>, CmdError>(CmdError::NotAuthenticated),
        spec_login_proceeds(s),
        forall|l: Lookup| lookup_reflects(s, l) ==> l is Missing,
        forall|o: DeleteOutcome| removal_reflects(s, o) ==> o is NoEntry,
{
}

/// With a credential stored, login does not proceed to the network call, and
/// every faithful lookup of such a store finds the stored token.
pub proof fn lemma_already_authenticated(s: StoreModel)
    requires
        s.credential is Some,
    ensures
        !spec_login_proceeds(s),
        forall|l: Lookup| lookup_reflects(s, l) ==> l is Found,
{
}

/// Logout after a successful login answers the farewell message, removes the
/// credential and clears the saved username; a second logout then fails with
/// NotAuthenticated.
pub proof fn lemma_logout_after_login(s: StoreModel, user: Seq<char>, token: Seq<char>)
    ensures
        spec_logout(model_after_login(s, user, token)) == Ok::<Seq<char>, CmdError>(
            logout_message(user),
        ),
        model_after_logout(model_after_login(s, user, token)).credential is None,
        model_after_logout(model_after_login(s, user, token)).username == Seq::<char>::empty(),
        spec_logout(model_after_logout(model_after_login(s, user, token))) == Err::<
            Seq<char>,
            CmdError,
        >(CmdError::NotAuthenticated),
        forall|o: DeleteOutcome|
            removal_reflects(model_after_logout(model_after_login(s, user, token)), o) ==> o
                is NoEntry,
{
}

} // verus!
