//! The identity that a request carries, and how a handler may change it.

use vstd::prelude::*;
use vstd::string::StringExecFns;

verus! {

/// Who a request acts as.
#[derive(Debug, PartialEq, Eq)]
pub struct Identity(String);

impl View for Identity {
    type V = Seq<char>;

    closed spec fn view(&self) -> Seq<char> {
        self.0@
    }
}

impl Clone for Identity {
    fn clone(&self) -> (copy: Self)
        ensures
            copy@ == self@,
    {
        Identity(self.0.clone())
    }
}

impl Identity {
    /// The identity with the given name.
    pub fn new(s: &str) -> (identity: Self)
        ensures
            identity@ == s@,
    {
        Identity(String::from_str(s))
    }

    /// The identity's name.
    pub fn name(&self) -> (name: &str)
        ensures
            name@ == self@,
    {
        self.0.as_str()
    }
}

/// The identity of one request, and whether a handler has changed it since
/// the request came in.
#[derive(Debug)]
pub struct SecurityContext {
    identity: Option<Identity>,
    changed: bool,
}

/// A security context as contracts see it.
pub struct SecurityContextView {
    pub identity: Option<Seq<char>>,
    pub changed: bool,
}

impl View for SecurityContext {
    type V = SecurityContextView;

    closed spec fn view(&self) -> SecurityContextView {
        SecurityContextView {
            identity: match self.identity {
                Some(identity) => Some(identity@),
                None => None,
            },
            changed: self.changed,
        }
    }
}

impl SecurityContext {
    /// The context of a request that came in with `identity`; unchanged.
    pub fn new(identity: Option<Identity>) -> (context: Self)
        ensures
            context@.changed == false,
            match identity {
                Some(given) => context@.identity == Some(given@),
                None => context@.identity.is_none(),
            },
    {
        SecurityContext { identity, changed: false }
    }

    /// The current identity.
    pub fn identity(&self) -> (current: Option<Identity>)
        ensures
            match current {
                Some(identity) => self@.identity == Some(identity@),
                None => self@.identity.is_none(),
            },
    {
        match &self.identity {
            Some(identity) => Some(identity.clone()),
            None => None,
        }
    }

    /// Whether the identity was set or dropped since the request came in.
    pub fn is_changed(&self) -> (changed: bool)
        ensures
            changed == self@.changed,
    {
        self.changed
    }

    /// Makes `identity` the current one and marks the context changed.
    pub fn remember(&mut self, identity: Identity)
        ensures
            final(self)@.identity == Some(identity@),
            final(self)@.changed,
    {
        self.identity = Some(identity);
        self.changed = true;
    }

    /// Drops the current identity. A context without one stays as it is;
    /// otherwise it is marked changed.
    pub fn forget(&mut self)
        ensures
            final(self)@.identity.is_none(),
            final(self)@.changed == (old(self)@.changed || old(self)@.identity.is_some()),
    {
        if self.identity.is_some() {
            self.identity = None;
            self.changed = true;
        }
    }
}

} // verus!
