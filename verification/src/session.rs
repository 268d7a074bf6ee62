//! The per-request session, as an explicit value.
//!
//! The deployed service keeps this state in a tamper-evident client-held
//! cookie; the core only ever sees it as the value modelled here, passed into
//! each operation. Absence of a user id is equivalent to "unauthenticated":
//! no operation treats a missing session as anything but a hard failure.

use vstd::prelude::*;

verus! {

/// Server-side session state reachable from one request. It holds a single
/// field: the id of the authenticated customer, as text.
#[derive(Debug)]
pub struct SessionState {
    /// The authenticated customer's id, or `None` when anonymous.
    pub user_id: Option<String>,
}

impl View for SessionState {
    type V = Option<Seq<char>>;

    open spec fn view(&self) -> Option<Seq<char>> {
        self.user_id.deep_view()
    }
}

impl SessionState {
    /// A fresh, anonymous session.
    pub fn anonymous() -> (r: SessionState)
        ensures
            r@ is None,
    {
        SessionState { user_id: None }
    }

    /// Whether no customer is authenticated on this session.
    pub fn is_anonymous(&self) -> (r: bool)
        ensures
            r == (self@ is None),
    {
        self.user_id.is_none()
    }

    /// Record `user` as the authenticated customer.
    pub fn establish(&mut self, user: String)
        ensures
            final(self)@ == Some(user@),
    {
        self.user_id = Some(user);
    }

    /// Destroy the session unconditionally; idempotent.
    pub fn purge(&mut self)
        ensures
            final(self)@ is None,
    {
        self.user_id = None;
    }
}

} // verus!
