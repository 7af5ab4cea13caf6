//! One-shot bring-up policy: the first association may open the link once, and
//! any deviation rejects it for good.

use crate::netif_l2::RouteError;
use crate::radio::same_operation;
use hisi_rf_core::OperationId;
use vstd::prelude::*;

verus! {

/// Progress of the one bootstrap, association and authorization.
#[derive(Clone, Copy, Debug, PartialEq, Eq)]
pub enum InitialSession {
    Uninitialized,
    Bootstrapped,
    Armed(OperationId),
    Associating(OperationId),
    Associated(OperationId),
    Opened,
    Rejected,
}

impl InitialSession {
    pub open spec fn bootstrapped(self) -> InitialSession {
        match self {
            InitialSession::Uninitialized => InitialSession::Bootstrapped,
            _ => InitialSession::Rejected,
        }
    }

    pub open spec fn armed(self, id: OperationId) -> InitialSession {
        match self {
            InitialSession::Bootstrapped => InitialSession::Armed(id),
            _ => InitialSession::Rejected,
        }
    }

    pub open spec fn associating(self) -> InitialSession {
        match self {
            InitialSession::Armed(id) => InitialSession::Associating(id),
            _ => InitialSession::Rejected,
        }
    }

    pub open spec fn resulted(self, success: bool) -> InitialSession {
        match self {
            InitialSession::Associating(id) => if success {
                InitialSession::Associated(id)
            } else {
                InitialSession::Rejected
            },
            _ => InitialSession::Rejected,
        }
    }

    pub fn bootstrap(&mut self)
        ensures
            *final(self) == old(self).bootstrapped(),
    {
        *self = match *self {
            InitialSession::Uninitialized => InitialSession::Bootstrapped,
            _ => InitialSession::Rejected,
        };
    }

    pub fn connect(&mut self, id: OperationId)
        ensures
            *final(self) == old(self).armed(id),
    {
        *self = match *self {
            InitialSession::Bootstrapped => InitialSession::Armed(id),
            _ => InitialSession::Rejected,
        };
    }

    pub fn associate(&mut self)
        ensures
            *final(self) == old(self).associating(),
    {
        *self = match *self {
            InitialSession::Armed(id) => InitialSession::Associating(id),
            _ => InitialSession::Rejected,
        };
    }

    pub fn result(&mut self, success: bool)
        ensures
            *final(self) == old(self).resulted(success),
    {
        *self = match *self {
            InitialSession::Associating(id) => if success {
                InitialSession::Associated(id)
            } else {
                InitialSession::Rejected
            },
            _ => InitialSession::Rejected,
        };
    }

    /// Only the operation whose association succeeded may open the link.
    pub fn check(&self, id: OperationId) -> (result: Result<(), RouteError>)
        ensures
            result == (if *self == InitialSession::Associated(id) {
                Ok::<(), RouteError>(())
            } else {
                Err(RouteError::InitialSessionRejected)
            }),
    {
        match *self {
            InitialSession::Associated(associated) => if same_operation(associated, id) {
                Ok(())
            } else {
                Err(RouteError::InitialSessionRejected)
            },
            _ => Err(RouteError::InitialSessionRejected),
        }
    }
}

/// The only way to an association of `id` is one bootstrap, one connect of `id`,
/// one association and its success, in this order.
pub proof fn law_only_the_ordered_session_associates(session: InitialSession, id: OperationId)
    ensures
        session.resulted(true) == InitialSession::Associated(id) ==> session
            == InitialSession::Associating(id),
        session.associating() == InitialSession::Associating(id) ==> session
            == InitialSession::Armed(id),
        forall|other: OperationId| #[trigger]
            session.armed(other) == InitialSession::Armed(id) ==> session is Bootstrapped && other
                == id,
        session.bootstrapped() is Bootstrapped ==> session is Uninitialized,
{
}

/// A rejected session stays rejected.
pub proof fn law_rejection_is_final(id: OperationId, success: bool)
    ensures
        InitialSession::Rejected.bootstrapped() is Rejected,
        InitialSession::Rejected.armed(id) is Rejected,
        InitialSession::Rejected.associating() is Rejected,
        InitialSession::Rejected.resulted(success) is Rejected,
{
}

/// A session advances exactly from the stage before: by the bootstrap, by the connect
/// that names its operation, by its association, and by the success of it. Anything
/// else rejects it. Only the operation that it was armed with can open it.
pub proof fn law_session_advances_in_order(
    id: OperationId,
    success: bool,
    session: InitialSession,
    result: Result<(), RouteError>,
)
    requires
        call_ensures(InitialSession::check, (&session, id), result),
    ensures
        forall|state: &mut InitialSession, unit: ()| #[trigger]
            call_ensures(InitialSession::bootstrap, (state,), unit) ==> {
                &&& *state is Uninitialized ==> *final(state) is Bootstrapped
                &&& !(*state is Uninitialized) ==> *final(state) is Rejected
            },
        forall|state: &mut InitialSession, unit: ()| #[trigger]
            call_ensures(InitialSession::connect, (state, id), unit) ==> {
                &&& *state is Bootstrapped ==> *final(state) is Armed && (*final(state))->Armed_0
                    == id
                &&& !(*state is Bootstrapped) ==> *final(state) is Rejected
            },
        forall|state: &mut InitialSession, unit: ()| #[trigger]
            call_ensures(InitialSession::associate, (state,), unit) ==> {
                &&& *state is Armed ==> *final(state) is Associating
                    && (*final(state))->Associating_0 == (*state)->Armed_0
                &&& !(*state is Armed) ==> *final(state) is Rejected
            },
        forall|state: &mut InitialSession, unit: ()| #[trigger]
            call_ensures(InitialSession::result, (state, success), unit) ==> {
                &&& *state is Associating && success ==> *final(state) is Associated
                    && (*final(state))->Associated_0 == (*state)->Associating_0
                &&& !(*state is Associating && success) ==> *final(state) is Rejected
            },
        result is Ok <==> session is Associated && session->Associated_0 == id,
        result matches Err(error) ==> error is InitialSessionRejected,
{
}

} // verus!
