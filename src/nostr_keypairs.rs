use vstd::prelude::*;

use crate::keys::{keys_of, parse_keys};
use crate::routes::ConnectedState;

verus! {

/// The keypair management screen: a session and the subscreen shown.
pub struct Page<S, R> {
    pub connected_state: ConnectedState<S, R>,
    pub subroute: Subroute,
}

#[derive(Debug, Clone, Copy, PartialEq, Eq, Structural)]
pub enum SubrouteName {
    List,
    Add,
}

pub enum Subroute {
    List(List),
    Add(Add),
}

impl Subroute {
    pub open spec fn spec_to_name(&self) -> SubrouteName {
        match self {
            Subroute::List(_) => SubrouteName::List,
            Subroute::Add(_) => SubrouteName::Add,
        }
    }

    #[verifier::when_used_as_spec(spec_to_name)]
    pub fn to_name(&self) -> (r: SubrouteName)
        ensures
            r == self.spec_to_name(),
    {
        match self {
            Subroute::List(_) => SubrouteName::List,
            Subroute::Add(_) => SubrouteName::Add,
        }
    }

    /// The subscreen as it is when first shown: the add form starts empty.
    pub open spec fn is_fresh(self) -> bool {
        match self {
            Subroute::List(_) => true,
            Subroute::Add(a) => a.nsec@ == Seq::<char>::empty() && a.keypair_or is None,
        }
    }

    /// A freshly shown subscreen of the given name.
    pub fn new(name: SubrouteName) -> (r: Subroute)
        ensures
            r.to_name() == name,
            r.is_fresh(),
    {
        match name {
            SubrouteName::List => Subroute::List(List {}),
            SubrouteName::Add => Subroute::Add(Add { nsec: String::new(), keypair_or: None }),
        }
    }
}

/// The list of stored public keys; it holds no state of its own.
pub struct List {}

/// The add form: the secret key text typed so far and the keypair it denotes.
pub struct Add {
    pub nsec: String,
    pub keypair_or: Option<nostr::key::Keys>,
}

impl Add {
    /// The form holds the keypair that its text denotes, if any.
    pub open spec fn wf(self) -> bool {
        self.keypair_or == keys_of(self.nsec@)
    }

    /// Replaces the text and reads the keypair from it anew.
    pub fn set_nsec(&mut self, new_nsec: String)
        ensures
            final(self).nsec == new_nsec,
            final(self).keypair_or == keys_of(new_nsec@),
            final(self).wf(),
    {
        self.keypair_or = parse_keys(new_nsec.as_str());
        self.nsec = new_nsec;
    }
}

} // verus!
