use std::collections::VecDeque;

use vstd::prelude::*;

use crate::keys::keys_of;
use crate::nostr_keypairs::{Page, Subroute, SubrouteName};

verus! {

/// Names a screen apart from the data it holds.
#[derive(Debug, Clone, Copy, PartialEq, Eq, Structural)]
pub enum RouteName {
    Unlock,
    Home,
    NostrKeypairs(SubrouteName),
    NostrRelays,
    BitcoinWallet,
    Settings,
}

impl RouteName {
    /// Two names of one screen family: the keypair subscreens form one family,
    /// every other name is a family of its own.
    pub open spec fn same_top_level(self, other: RouteName) -> bool {
        match (self, other) {
            (RouteName::NostrKeypairs(_), RouteName::NostrKeypairs(_)) => true,
            _ => self == other,
        }
    }

    pub fn is_same_top_level_route_as(&self, other: Self) -> (r: bool)
        ensures
            r == self.same_top_level(other),
    {
        match self {
            RouteName::Unlock => other == RouteName::Unlock,
            RouteName::Home => other == RouteName::Home,
            RouteName::NostrKeypairs(_) => matches!(other, RouteName::NostrKeypairs(_)),
            RouteName::NostrRelays => other == RouteName::NostrRelays,
            RouteName::BitcoinWallet => other == RouteName::BitcoinWallet,
            RouteName::Settings => other == RouteName::Settings,
        }
    }
}

/// What a requester is told of its signing request.
#[derive(Debug, Clone, Copy, PartialEq, Eq, Structural)]
pub enum Nip46RequestApproval {
    Approve,
    Reject,
}

/// The session that exists while the store is unlocked: a handle to the
/// store and the signing requests waiting for a decision, oldest first.
pub struct ConnectedState<S, R> {
    pub db: S,
    pub in_flight_nip46_requests: VecDeque<R>,
}

impl<S, R> ConnectedState<S, R> {
    /// A session on a freshly opened store, with no request waiting.
    pub fn new(db: S) -> (r: Self)
        ensures
            r.db == db,
            r.in_flight_nip46_requests@ == Seq::<R>::empty(),
    {
        ConnectedState { db, in_flight_nip46_requests: VecDeque::new() }
    }
}

/// The unlock screen: the password typed so far, whether it is masked, and
/// whether a store already exists.
pub struct Unlock {
    pub password: String,
    pub is_secure: bool,
    pub db_already_exists: bool,
}

pub struct Home<S, R> {
    pub connected_state: ConnectedState<S, R>,
}

pub struct NostrRelays<S, R> {
    pub connected_state: ConnectedState<S, R>,
}

pub struct BitcoinWallet<S, R> {
    pub connected_state: ConnectedState<S, R>,
}

pub struct Settings<S, R> {
    pub connected_state: ConnectedState<S, R>,
}

/// The screen shown and its data. Every screen but `Unlock` holds the session.
pub enum Route<S, R> {
    Unlock(Unlock),
    Home(Home<S, R>),
    NostrKeypairs(Page<S, R>),
    NostrRelays(NostrRelays<S, R>),
    BitcoinWallet(BitcoinWallet<S, R>),
    Settings(Settings<S, R>),
}

/// The events the routes react to. Besides what the user does and the
/// requests that arrive, the outcomes of the store operations that a
/// `Command` asked for come back as events.
#[derive(Clone)]
pub enum KeystacheMessage<S, R> {
    Navigate(RouteName),
    UnlockPasswordInputChanged(String),
    UnlockToggleSecureInput,
    UnlockPasswordSubmitted,
    /// The store was opened (or created) with the password submitted.
    DbOpened(S),
    /// Whether a store exists, as found on request.
    DbExistenceChecked(bool),
    DbDeleteAllData,
    SaveKeypair,
    /// Save these freshly generated keys, bypassing the typed secret key.
    SaveGeneratedKeypair(nostr::key::Keys),
    SaveKeypairNsecInputChanged(String),
    IncomingNip46Request(R),
    ApproveFirstIncomingNip46Request,
    RejectFirstIncomingNip46Request,
}

/// What the surrounding program is asked to do after an event.
pub enum Command<R> {
    Nothing,
    /// Navigation to this screen was refused for want of a session.
    NavigationRefused(RouteName),
    /// Find out whether a store exists and answer with `DbExistenceChecked`.
    CheckDbExists,
    /// Open the store with this password, or create it if none exists, and
    /// answer with `DbOpened` on success.
    OpenOrCreateDb(String),
    /// Destroy the store.
    DeleteDb,
    /// Save this keypair in the session's store.
    SaveKeypair(nostr::key::Keys),
    /// Send this decision on the request's response channel.
    Respond(R, Nip46RequestApproval),
}

impl<S, R> Route<S, R> {
    /// The unlock screen as first shown: no password typed, input masked.
    pub fn new_locked(db_already_exists: bool) -> (r: Self)
        ensures
            r is Unlock,
            r.is_fresh(),
            r->Unlock_0.db_already_exists == db_already_exists,
    {
        Route::Unlock(Unlock { password: String::new(), is_secure: true, db_already_exists })
    }

    /// The name of the screen shown.
    #[verifier::when_used_as_spec(spec_to_name)]
    pub fn to_name(&self) -> (r: RouteName)
        ensures
            r == self.spec_to_name(),
    {
        match self {
            Route::Unlock(_) => RouteName::Unlock,
            Route::Home(_) => RouteName::Home,
            Route::NostrKeypairs(p) => RouteName::NostrKeypairs(p.subroute.to_name()),
            Route::NostrRelays(_) => RouteName::NostrRelays,
            Route::BitcoinWallet(_) => RouteName::BitcoinWallet,
            Route::Settings(_) => RouteName::Settings,
        }
    }

    /// The session, where the screen holds one.
    pub fn get_connected_state(&self) -> (r: Option<&ConnectedState<S, R>>)
        ensures
            match r {
                Some(c) => self.session() == Some(*c),
                None => self.session() is None,
            },
    {
        match self {
            Route::Unlock(_) => None,
            Route::Home(h) => Some(&h.connected_state),
            Route::NostrKeypairs(p) => Some(&p.connected_state),
            Route::NostrRelays(s) => Some(&s.connected_state),
            Route::BitcoinWallet(s) => Some(&s.connected_state),
            Route::Settings(s) => Some(&s.connected_state),
        }
    }

    /// The session, for change in place, where the screen holds one; the
    /// screen-local data stays as it was.
    pub fn get_connected_state_mut(&mut self) -> (r: Option<&mut ConnectedState<S, R>>)
        ensures
            old(self).session() is None ==> r is None && *final(self) == *old(self),
            old(self).session() is Some ==> {
                &&& r is Some
                &&& old(self).session() == Some(*r->Some_0)
                &&& final(self).same_screen(*old(self))
                &&& final(self).session() == Some(*final(r->Some_0))
            },
    {
        match self {
            Route::Unlock(_) => None,
            Route::Home(h) => Some(&mut h.connected_state),
            Route::NostrKeypairs(p) => Some(&mut p.connected_state),
            Route::NostrRelays(s) => Some(&mut s.connected_state),
            Route::BitcoinWallet(s) => Some(&mut s.connected_state),
            Route::Settings(s) => Some(&mut s.connected_state),
        }
    }
    /// Gives up the route for its session, or hands the route back where it
    /// holds none.
    pub fn into_connected_state(self) -> (r: Result<ConnectedState<S, R>, Self>)
        ensures
            match r {
                Ok(c) => self.session() == Some(c),
                Err(back) => self.session() is None && back == self,
            },
    {
        match self {
            Route::Home(h) => Ok(h.connected_state),
            Route::NostrKeypairs(p) => Ok(p.connected_state),
            Route::NostrRelays(s) => Ok(s.connected_state),
            Route::BitcoinWallet(s) => Ok(s.connected_state),
            Route::Settings(s) => Ok(s.connected_state),
            Route::Unlock(u) => Err(Route::Unlock(u)),
        }
    }

    /// The freshly shown screen of the given name on the given session.
    pub fn new_connected(name: RouteName, connected_state: ConnectedState<S, R>) -> (r: Self)
        requires
            name != RouteName::Unlock,
        ensures
            r.spec_to_name() == name,
            r.session() == Some(connected_state),
            r.is_fresh(),
    {
        match name {
            RouteName::Home => Route::Home(Home { connected_state }),
            RouteName::NostrKeypairs(sub) => Route::NostrKeypairs(
                Page { connected_state, subroute: Subroute::new(sub) },
            ),
            RouteName::NostrRelays => Route::NostrRelays(NostrRelays { connected_state }),
            RouteName::BitcoinWallet => Route::BitcoinWallet(BitcoinWallet { connected_state }),
            RouteName::Settings => Route::Settings(Settings { connected_state }),
            RouteName::Unlock => Route::Unlock(
                Unlock { password: String::new(), is_secure: true, db_already_exists: false },
            ),
        }
    }

    /// Answers the oldest waiting request, if any, with `decision`.
    fn resolve_first(&mut self, decision: Nip46RequestApproval) -> (cmd: Command<R>)
        ensures
            Self::resolution(*old(self), *final(self), cmd, decision),
    {
        let waiting = match self.get_connected_state() {
            Some(connected_state) => connected_state.in_flight_nip46_requests.len() > 0,
            None => false,
        };
        if !waiting {
            return Command::Nothing;
        }
        match self.get_connected_state_mut() {
            Some(connected_state) => match connected_state.in_flight_nip46_requests.pop_front() {
                Some(req) => Command::Respond(req, decision),
                None => Command::Nothing,
            },
            None => Command::Nothing,
        }
    }

    /// Reacts to one event: updates the route and says what the surrounding
    /// program is to do.
    pub fn update(&mut self, msg: KeystacheMessage<S, R>) -> (cmd: Command<R>)
        ensures
            Self::transition(*old(self), msg, *final(self), cmd),
    {
        match msg {
            KeystacheMessage::Navigate(target) => {
                if target == RouteName::Unlock {
                    *self = Self::new_locked(false);
                    Command::CheckDbExists
                } else {
                    let mut cur = Self::new_locked(false);
                    std::mem::swap(self, &mut cur);
                    match cur.into_connected_state() {
                        Ok(connected_state) => {
                            *self = Self::new_connected(target, connected_state);
                            Command::Nothing
                        },
                        Err(back) => {
                            *self = back;
                            Command::NavigationRefused(target)
                        },
                    }
                }
            },
            KeystacheMessage::UnlockPasswordInputChanged(new_password) => {
                if let Route::Unlock(u) = self {
                    u.password = new_password;
                }
                Command::Nothing
            },
            KeystacheMessage::UnlockToggleSecureInput => {
                if let Route::Unlock(u) = self {
                    u.is_secure = !u.is_secure;
                }
                Command::Nothing
            },
            KeystacheMessage::UnlockPasswordSubmitted => {
                match self {
                    Route::Unlock(u) => Command::OpenOrCreateDb(u.password.clone()),
                    _ => Command::Nothing,
                }
            },
            KeystacheMessage::DbOpened(db) => {
                if let Route::Unlock(_) = self {
                    *self = Route::Home(Home { connected_state: ConnectedState::new(db) });
                }
                Command::Nothing
            },
            KeystacheMessage::DbExistenceChecked(exists) => {
                if let Route::Unlock(u) = self {
                    u.db_already_exists = exists;
                }
                Command::Nothing
            },
            KeystacheMessage::DbDeleteAllData => {
                match self {
                    Route::Unlock(u) => {
                        u.db_already_exists = false;
                        Command::DeleteDb
                    },
                    _ => Command::Nothing,
                }
            },
            KeystacheMessage::SaveKeypair => {
                match self {
                    Route::NostrKeypairs(p) => match &p.subroute {
                        Subroute::Add(a) => match &a.keypair_or {
                            Some(keypair) => Command::SaveKeypair(keypair.clone()),
                            None => Command::Nothing,
                        },
                        Subroute::List(_) => Command::Nothing,
                    },
                    _ => Command::Nothing,
                }
            },
            KeystacheMessage::SaveGeneratedKeypair(keys) => {
                match self {
                    Route::NostrKeypairs(p) => match &p.subroute {
                        Subroute::Add(_) => Command::SaveKeypair(keys),
                        Subroute::List(_) => Command::Nothing,
                    },
                    _ => Command::Nothing,
                }
            },
            KeystacheMessage::SaveKeypairNsecInputChanged(new_nsec) => {
                if let Route::NostrKeypairs(p) = self {
                    if let Subroute::Add(a) = &mut p.subroute {
                        a.set_nsec(new_nsec);
                    }
                }
                Command::Nothing
            },
            KeystacheMessage::IncomingNip46Request(req) => {
                if let Some(connected_state) = self.get_connected_state_mut() {
                    connected_state.in_flight_nip46_requests.push_back(req);
                }
                Command::Nothing
            },
            KeystacheMessage::ApproveFirstIncomingNip46Request => {
                self.resolve_first(Nip46RequestApproval::Approve)
            },
            KeystacheMessage::RejectFirstIncomingNip46Request => {
                self.resolve_first(Nip46RequestApproval::Reject)
            },
        }
    }

    pub open spec fn spec_to_name(&self) -> RouteName {
        match self {
            Route::Unlock(_) => RouteName::Unlock,
            Route::Home(_) => RouteName::Home,
            Route::NostrKeypairs(p) => RouteName::NostrKeypairs(p.subroute.spec_to_name()),
            Route::NostrRelays(_) => RouteName::NostrRelays,
            Route::BitcoinWallet(_) => RouteName::BitcoinWallet,
            Route::Settings(_) => RouteName::Settings,
        }
    }

    /// The session that the screen holds, if any.
    pub open spec fn session(self) -> Option<ConnectedState<S, R>> {
        match self {
            Route::Unlock(_) => None,
            Route::Home(h) => Some(h.connected_state),
            Route::NostrKeypairs(p) => Some(p.connected_state),
            Route::NostrRelays(s) => Some(s.connected_state),
            Route::BitcoinWallet(s) => Some(s.connected_state),
            Route::Settings(s) => Some(s.connected_state),
        }
    }

    /// The signing requests waiting, oldest first; none while locked.
    pub open spec fn queue(self) -> Seq<R> {
        match self.session() {
            Some(c) => c.in_flight_nip46_requests@,
            None => Seq::empty(),
        }
    }

    /// The store handle of the session, if any.
    pub open spec fn db(self) -> Option<S> {
        match self.session() {
            Some(c) => Some(c.db),
            None => None,
        }
    }

    /// The two routes show one screen with the same screen-local data; their
    /// sessions may differ.
    pub open spec fn same_screen(self, other: Self) -> bool {
        match (self, other) {
            (Route::Unlock(a), Route::Unlock(b)) => a == b,
            (Route::Home(_), Route::Home(_)) => true,
            (Route::NostrKeypairs(a), Route::NostrKeypairs(b)) => a.subroute == b.subroute,
            (Route::NostrRelays(_), Route::NostrRelays(_)) => true,
            (Route::BitcoinWallet(_), Route::BitcoinWallet(_)) => true,
            (Route::Settings(_), Route::Settings(_)) => true,
            _ => false,
        }
    }

    /// The route shows the keypair add form.
    pub open spec fn is_on_add_form(self) -> bool {
        self is NostrKeypairs && self->NostrKeypairs_0.subroute is Add
    }

    /// The screen-local data is as when the screen is first shown.
    pub open spec fn is_fresh(self) -> bool {
        match self {
            Route::Unlock(u) => u.password@ == Seq::<char>::empty() && u.is_secure,
            Route::NostrKeypairs(p) => p.subroute.is_fresh(),
            _ => true,
        }
    }

    /// The route shows the same screen with the same session store, and its
    /// queue is `q`.
    pub open spec fn same_but_queue(self, old: Self, q: Seq<R>) -> bool {
        &&& self.same_screen(old)
        &&& self.db() == old.db()
        &&& self.queue() == q
    }

    /// The effect of one event: `new` is the route after `msg` came to `old`,
    /// and `cmd` what the surrounding program is asked to do.
    pub open spec fn transition(old: Self, msg: KeystacheMessage<S, R>, new: Self, cmd: Command<R>) -> bool {
        match msg {
            KeystacheMessage::Navigate(target) => {
                if target == RouteName::Unlock {
                    &&& new is Unlock
                    &&& new.is_fresh()
                    &&& !new->Unlock_0.db_already_exists
                    &&& cmd is CheckDbExists
                } else if old.session() is Some {
                    &&& new.spec_to_name() == target
                    &&& new.session() == old.session()
                    &&& new.is_fresh()
                    &&& cmd is Nothing
                } else {
                    new == old && cmd == Command::<R>::NavigationRefused(target)
                }
            },
            KeystacheMessage::UnlockPasswordInputChanged(p) => {
                &&& cmd is Nothing
                &&& match old {
                    Route::Unlock(u) => new == Route::<S, R>::Unlock(
                        Unlock { password: p, is_secure: u.is_secure, db_already_exists: u.db_already_exists },
                    ),
                    _ => new == old,
                }
            },
            KeystacheMessage::UnlockToggleSecureInput => {
                &&& cmd is Nothing
                &&& match old {
                    Route::Unlock(u) => new == Route::<S, R>::Unlock(
                        Unlock { password: u.password, is_secure: !u.is_secure, db_already_exists: u.db_already_exists },
                    ),
                    _ => new == old,
                }
            },
            KeystacheMessage::UnlockPasswordSubmitted => {
                &&& new == old
                &&& match old {
                    Route::Unlock(u) => cmd is OpenOrCreateDb && cmd->OpenOrCreateDb_0@ == u.password@,
                    _ => cmd is Nothing,
                }
            },
            KeystacheMessage::DbOpened(db) => {
                &&& cmd is Nothing
                &&& if old is Unlock {
                    &&& new is Home
                    &&& new.db() == Some(db)
                    &&& new.queue() == Seq::<R>::empty()
                } else {
                    new == old
                }
            },
            KeystacheMessage::DbExistenceChecked(exists) => {
                &&& cmd is Nothing
                &&& match old {
                    Route::Unlock(u) => new == Route::<S, R>::Unlock(
                        Unlock { password: u.password, is_secure: u.is_secure, db_already_exists: exists },
                    ),
                    _ => new == old,
                }
            },
            KeystacheMessage::DbDeleteAllData => {
                match old {
                    Route::Unlock(u) => {
                        &&& new == Route::<S, R>::Unlock(
                            Unlock { password: u.password, is_secure: u.is_secure, db_already_exists: false },
                        )
                        &&& cmd is DeleteDb
                    },
                    _ => new == old && cmd is Nothing,
                }
            },
            KeystacheMessage::SaveKeypair => {
                &&& new == old
                &&& match old {
                    Route::NostrKeypairs(p) => match p.subroute {
                        Subroute::Add(a) => match a.keypair_or {
                            Some(k) => cmd == Command::<R>::SaveKeypair(k),
                            None => cmd is Nothing,
                        },
                        _ => cmd is Nothing,
                    },
                    _ => cmd is Nothing,
                }
            },
            KeystacheMessage::SaveGeneratedKeypair(keys) => {
                &&& new == old
                &&& if old.is_on_add_form() {
                    cmd == Command::<R>::SaveKeypair(keys)
                } else {
                    cmd is Nothing
                }
            },
            KeystacheMessage::SaveKeypairNsecInputChanged(text) => {
                &&& cmd is Nothing
                &&& match old {
                    Route::NostrKeypairs(p) => match p.subroute {
                        Subroute::Add(_) => new == Route::NostrKeypairs(
                            Page {
                                connected_state: p.connected_state,
                                subroute: Subroute::Add(
                                    crate::nostr_keypairs::Add { nsec: text, keypair_or: keys_of(text@) },
                                ),
                            },
                        ),
                        _ => new == old,
                    },
                    _ => new == old,
                }
            },
            KeystacheMessage::IncomingNip46Request(req) => {
                &&& cmd is Nothing
                &&& if old.session() is Some {
                    new.same_but_queue(old, old.queue().push(req))
                } else {
                    new == old
                }
            },
            KeystacheMessage::ApproveFirstIncomingNip46Request => {
                Self::resolution(old, new, cmd, Nip46RequestApproval::Approve)
            },
            KeystacheMessage::RejectFirstIncomingNip46Request => {
                Self::resolution(old, new, cmd, Nip46RequestApproval::Reject)
            },
        }
    }

    /// The oldest waiting request, if any, leaves the queue and is answered
    /// with `decision`; with none waiting nothing changes.
    pub open spec fn resolution(old: Self, new: Self, cmd: Command<R>, decision: Nip46RequestApproval) -> bool {
        if old.queue().len() > 0 {
            &&& new.same_but_queue(old, old.queue().drop_first())
            &&& cmd == Command::Respond(old.queue()[0], decision)
        } else {
            new == old && cmd is Nothing
        }
    }
}

} // verus!
