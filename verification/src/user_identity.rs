//! The identity registry: each account may register a user name and a
//! social handle, update them, and later have them marked as verified.
use crate::dispatch::{ensure_signed, signer, AccountId, DispatchError, Origin};
use crate::limited_vec::LimitedVec;
use std::collections::HashMap;
use vstd::prelude::*;

verus! {

broadcast use vstd::std_specs::hash::group_hash_axioms;

/// What an account has registered about itself.
#[derive(Debug, PartialEq, Eq)]
pub struct UserInfo {
    pub username: LimitedVec,
    pub twitter: LimitedVec,
    pub verified: bool,
}

/// The mathematical value of a `UserInfo`.
pub struct UserInfoView {
    pub username: Seq<u8>,
    pub twitter: Seq<u8>,
    pub verified: bool,
}

impl View for UserInfo {
    type V = UserInfoView;

    open spec fn view(&self) -> UserInfoView {
        UserInfoView { username: self.username@, twitter: self.twitter@, verified: self.verified }
    }
}

impl Clone for UserInfo {
    fn clone(&self) -> (c: Self)
        ensures
            c@ == self@,
    {
        UserInfo {
            username: self.username.clone(),
            twitter: self.twitter.clone(),
            verified: self.verified,
        }
    }
}

/// The errors this module raises.
#[derive(Debug, Clone, Copy, PartialEq, Eq)]
pub enum Error {
    /// The account already has an identity.
    AlreadyRegistered,
    /// The account has no identity.
    NotRegistered,
}

/// What this module reports after a successful call.
#[derive(Debug, PartialEq, Eq)]
pub enum Event {
    /// `who` registered or updated its identity, which is now `user`.
    UserAdded { user: UserInfo, who: AccountId },
}

/// The mathematical value of an `Event`.
pub enum EventView {
    UserAdded { user: UserInfoView, who: AccountId },
}

impl View for Event {
    type V = EventView;

    open spec fn view(&self) -> EventView {
        match self {
            Event::UserAdded { user, who } => EventView::UserAdded { user: user@, who: *who },
        }
    }
}

/// The stored identities and the events reported so far.
pub struct IdentityState {
    pub identities: Map<AccountId, UserInfoView>,
    pub events: Seq<EventView>,
}

/// The result of a dispatchable call of this module.
pub type DispatchResult = Result<(), DispatchError<Error>>;

/// A freshly submitted, not yet verified identity.
pub open spec fn fresh_info(username: Seq<u8>, twitter: Seq<u8>) -> UserInfoView {
    UserInfoView { username, twitter, verified: false }
}

/// Effect of `register_user`: the signer's identity is stored when it has
/// none yet, and `UserAdded` is reported.
pub open spec fn register_user_spec(
    s: IdentityState,
    origin: Origin,
    username: Seq<u8>,
    twitter: Seq<u8>,
) -> (IdentityState, DispatchResult) {
    match signer(origin) {
        None => (s, Err(DispatchError::BadOrigin)),
        Some(who) => if s.identities.contains_key(who) {
            (s, Err(DispatchError::Module(Error::AlreadyRegistered)))
        } else {
            let info = fresh_info(username, twitter);
            (
                IdentityState {
                    identities: s.identities.insert(who, info),
                    events: s.events.push(EventView::UserAdded { user: info, who }),
                },
                Ok(()),
            )
        },
    }
}

/// Effect of `update_info`: a registered signer's identity is replaced by
/// the new, unverified one, and `UserAdded` is reported.
pub open spec fn update_info_spec(
    s: IdentityState,
    origin: Origin,
    username: Seq<u8>,
    twitter: Seq<u8>,
) -> (IdentityState, DispatchResult) {
    match signer(origin) {
        None => (s, Err(DispatchError::BadOrigin)),
        Some(who) => if !s.identities.contains_key(who) {
            (s, Err(DispatchError::Module(Error::NotRegistered)))
        } else {
            let info = fresh_info(username, twitter);
            (
                IdentityState {
                    identities: s.identities.insert(who, info),
                    events: s.events.push(EventView::UserAdded { user: info, who }),
                },
                Ok(()),
            )
        },
    }
}

/// A registration by an account without an identity succeeds, and the
/// identity read back afterwards is the one submitted, not yet verified.
pub proof fn lemma_register_then_read(
    s: IdentityState,
    who: AccountId,
    username: Seq<u8>,
    twitter: Seq<u8>,
)
    requires
        !s.identities.contains_key(who),
    ensures
        ({
            let (t, r) = register_user_spec(s, Origin::Signed(who), username, twitter);
            &&& r is Ok
            &&& t.identities.contains_key(who)
            &&& t.identities[who].username == username
            &&& t.identities[who].twitter == twitter
            &&& !t.identities[who].verified
            &&& t.events == s.events.push(EventView::UserAdded { user: t.identities[who], who })
            &&& forall|a: AccountId| a != who ==> #[trigger] t.identities.contains_key(a)
                == s.identities.contains_key(a) && (s.identities.contains_key(a)
                ==> t.identities[a] == s.identities[a])
        }),
{
}

/// Whatever the stored identity holds, verified or not, an account that
/// has one cannot register again: the call is refused with
/// `AlreadyRegistered` and changes nothing.
pub proof fn lemma_registered_account_refused(
    s: IdentityState,
    who: AccountId,
    username: Seq<u8>,
    twitter: Seq<u8>,
)
    requires
        s.identities.contains_key(who),
    ensures
        register_user_spec(s, Origin::Signed(who), username, twitter) == (
            s,
            Err::<(), DispatchError<Error>>(DispatchError::Module(Error::AlreadyRegistered)),
        ),
{
}

/// Once an account has registered, registering it again is refused with
/// `AlreadyRegistered` and changes nothing.
pub proof fn lemma_register_twice_refused(
    s: IdentityState,
    who: AccountId,
    username: Seq<u8>,
    twitter: Seq<u8>,
    username2: Seq<u8>,
    twitter2: Seq<u8>,
)
    ensures
        ({
            let t = register_user_spec(s, Origin::Signed(who), username, twitter).0;
            register_user_spec(t, Origin::Signed(who), username2, twitter2) == (
                t,
                Err::<(), DispatchError<Error>>(DispatchError::Module(Error::AlreadyRegistered)),
            )
        }),
{
}

/// Updating is refused with `NotRegistered` for an account without an
/// identity; after a registration it succeeds and the identity read back
/// is the new one, not verified, whatever the old one was.
pub proof fn lemma_update_requires_registration(
    s: IdentityState,
    who: AccountId,
    username: Seq<u8>,
    twitter: Seq<u8>,
)
    ensures
        !s.identities.contains_key(who) ==> update_info_spec(s, Origin::Signed(who), username, twitter)
            == (s, Err::<(), DispatchError<Error>>(DispatchError::Module(Error::NotRegistered))),
        s.identities.contains_key(who) ==> ({
            let (t, r) = update_info_spec(s, Origin::Signed(who), username, twitter);
            &&& r is Ok
            &&& t.identities[who].username == username
            &&& t.identities[who].twitter == twitter
            &&& !t.identities[who].verified
            &&& t.events == s.events.push(EventView::UserAdded { user: t.identities[who], who })
            &&& forall|a: AccountId| a != who ==> #[trigger] t.identities.contains_key(a)
                == s.identities.contains_key(a) && (s.identities.contains_key(a)
                ==> t.identities[a] == s.identities[a])
        }),
{
}

/// A refused call changes neither the stored identities nor the events.
pub proof fn lemma_refused_call_changes_nothing(
    s: IdentityState,
    origin: Origin,
    username: Seq<u8>,
    twitter: Seq<u8>,
)
    ensures
        register_user_spec(s, origin, username, twitter).1 is Err ==> register_user_spec(
            s,
            origin,
            username,
            twitter,
        ).0 == s,
        update_info_spec(s, origin, username, twitter).1 is Err ==> update_info_spec(
            s,
            origin,
            username,
            twitter,
        ).0 == s,
{
}

/// Only signed calls are accepted; any other origin is refused with
/// `BadOrigin`.
pub proof fn lemma_unsigned_refused(
    s: IdentityState,
    origin: Origin,
    username: Seq<u8>,
    twitter: Seq<u8>,
)
    requires
        signer(origin) is None,
    ensures
        register_user_spec(s, origin, username, twitter) == (
            s,
            Err::<(), DispatchError<Error>>(DispatchError::BadOrigin),
        ),
        update_info_spec(s, origin, username, twitter) == (
            s,
            Err::<(), DispatchError<Error>>(DispatchError::BadOrigin),
        ),
{
}

/// No call removes an identity: every account registered before a call is
/// registered after it.
pub proof fn lemma_identities_kept(
    s: IdentityState,
    origin: Origin,
    username: Seq<u8>,
    twitter: Seq<u8>,
)
    ensures
        s.identities.dom().subset_of(register_user_spec(s, origin, username, twitter).0.identities.dom()),
        s.identities.dom().subset_of(update_info_spec(s, origin, username, twitter).0.identities.dom()),
{
}

/// Decides a registration: refused when the account already has an
/// identity, else the fresh identity to store.
pub fn decide_register_user(registered: bool, username: LimitedVec, twitter: LimitedVec) -> (r:
    Result<UserInfo, Error>)
    ensures
        registered ==> r == Err::<UserInfo, Error>(Error::AlreadyRegistered),
        !registered ==> (r matches Ok(info) && info.username@ == username@ && info.twitter@
            == twitter@ && !info.verified),
{
    let user_info = UserInfo { username, twitter, verified: false };
    if registered {
        Err(Error::AlreadyRegistered)
    } else {
        Ok(user_info)
    }
}

/// Decides an update: refused when the account has no identity, else the
/// fresh identity that replaces it.
pub fn decide_update_info(registered: bool, username: LimitedVec, twitter: LimitedVec) -> (r:
    Result<UserInfo, Error>)
    ensures
        !registered ==> r == Err::<UserInfo, Error>(Error::NotRegistered),
        registered ==> (r matches Ok(info) && info.username@ == username@ && info.twitter@
            == twitter@ && !info.verified),
{
    let user_info = UserInfo { username, twitter, verified: false };
    if !registered {
        Err(Error::NotRegistered)
    } else {
        Ok(user_info)
    }
}

/// The identity registry's storage.
#[derive(Debug)]
pub struct Pallet {
    identities: HashMap<AccountId, UserInfo>,
    events: Vec<Event>,
}

impl View for Pallet {
    type V = IdentityState;

    closed spec fn view(&self) -> IdentityState {
        IdentityState {
            identities: self.identities@.map_values(|u: UserInfo| u@),
            events: self.events@.map_values(|e: Event| e@),
        }
    }
}

impl Pallet {
    /// The registry with no identities and no events.
    pub fn new() -> (p: Pallet)
        ensures
            p@.identities == Map::<AccountId, UserInfoView>::empty(),
            p@.events == Seq::<EventView>::empty(),
    {
        let p = Pallet { identities: HashMap::new(), events: Vec::new() };
        assert(p@.identities =~= Map::<AccountId, UserInfoView>::empty());
        assert(p@.events =~= Seq::<EventView>::empty());
        p
    }

    /// Stores `info` for `who` and reports it.
    fn store_and_report(&mut self, who: AccountId, info: UserInfo)
        ensures
            final(self)@.identities == old(self)@.identities.insert(who, info@),
            final(self)@.events == old(self)@.events.push(
                EventView::UserAdded { user: info@, who },
            ),
    {
        let stored = info.clone();
        self.identities.insert(who, stored);
        self.events.push(Event::UserAdded { user: info, who });
        assert(self@.identities =~= old(self)@.identities.insert(who, info@));
        assert(self@.events =~= old(self)@.events.push(EventView::UserAdded { user: info@, who }));
    }

    /// Registers the signer's identity, refusing an account that already
    /// has one.
    pub fn register_user(&mut self, origin: Origin, username: LimitedVec, twitter: LimitedVec) -> (r:
        DispatchResult)
        ensures
            (final(self)@, r) == register_user_spec(old(self)@, origin, username@, twitter@),
    {
        let who = match ensure_signed(origin) {
            Ok(who) => who,
            Err(e) => return Err(e),
        };
        let registered = self.identities.contains_key(&who);
        let user_info = match decide_register_user(registered, username, twitter) {
            Ok(info) => info,
            Err(e) => return Err(DispatchError::Module(e)),
        };
        self.store_and_report(who, user_info);
        Ok(())
    }

    /// Replaces the signer's identity with a new, unverified one, refusing
    /// an account that has none.
    pub fn update_info(&mut self, origin: Origin, username: LimitedVec, twitter: LimitedVec) -> (r:
        DispatchResult)
        ensures
            (final(self)@, r) == update_info_spec(old(self)@, origin, username@, twitter@),
    {
        let who = match ensure_signed(origin) {
            Ok(who) => who,
            Err(e) => return Err(e),
        };
        let registered = self.identities.contains_key(&who);
        let user_info = match decide_update_info(registered, username, twitter) {
            Ok(info) => info,
            Err(e) => return Err(DispatchError::Module(e)),
        };
        self.store_and_report(who, user_info);
        Ok(())
    }

    /// The identity stored for `who`, if any.
    pub fn get_identity(&self, who: AccountId) -> (r: Option<UserInfo>)
        ensures
            match r {
                Some(u) => self@.identities.contains_key(who) && u@ == self@.identities[who],
                None => !self@.identities.contains_key(who),
            },
    {
        match self.identities.get(&who) {
            Some(u) => Some(u.clone()),
            None => None,
        }
    }

    /// Marks the stored identity of `who` as verified, keeping its name and
    /// handle; no event is reported.
    pub fn mark_verified(&mut self, who: AccountId)
        requires
            old(self)@.identities.contains_key(who),
        ensures
            final(self)@.identities == old(self)@.identities.insert(
                who,
                UserInfoView { verified: true, ..old(self)@.identities[who] },
            ),
            final(self)@.events == old(self)@.events,
    {
        let mut info = self.identities.get(&who).unwrap().clone();
        info.verified = true;
        self.identities.insert(who, info);
        assert(self@.identities =~= old(self)@.identities.insert(
            who,
            UserInfoView { verified: true, ..old(self)@.identities[who] },
        ));
        assert(self@.events =~= old(self)@.events);
    }

    /// The events reported so far, oldest first.
    pub fn events(&self) -> (e: &Vec<Event>)
        ensures
            e@.map_values(|x: Event| x@) == self@.events,
    {
        &self.events
    }

    /// The most recent event, if any.
    pub fn last_event(&self) -> (e: Option<&Event>)
        ensures
            match e {
                Some(x) => self@.events.len() > 0 && x@ == self@.events.last(),
                None => self@.events.len() == 0,
            },
    {
        let n = self.events.len();
        if n == 0 {
            None
        } else {
            Some(&self.events[n - 1])
        }
    }
}

} // verus!
