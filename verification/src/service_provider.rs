//! Service providers: accounts register as providers, other accounts vote
//! for them (once each), a provider with two votes becomes verified, and
//! any signed account may mark a registered identity as verified.
use crate::dispatch::{ensure_signed, signer, AccountId, DispatchError, Origin};
use crate::limited_vec::LimitedVec;
use crate::user_identity::{self, IdentityState, UserInfo, UserInfoView};
use std::collections::HashMap;
use vstd::prelude::*;

verus! {

broadcast use vstd::std_specs::hash::group_hash_axioms;

/// The number of votes at which a provider becomes verified.
pub const VOTES_TO_VERIFY: u128 = 2;

/// What is stored about a registered provider.
#[derive(Debug, PartialEq, Eq)]
pub struct ProviderInfo {
    pub name: LimitedVec,
    pub votes: u128,
    pub verified: bool,
}

/// The mathematical value of a `ProviderInfo`.
pub struct ProviderInfoView {
    pub name: Seq<u8>,
    pub votes: nat,
    pub verified: bool,
}

impl View for ProviderInfo {
    type V = ProviderInfoView;

    open spec fn view(&self) -> ProviderInfoView {
        ProviderInfoView { name: self.name@, votes: self.votes as nat, verified: self.verified }
    }
}

impl Clone for ProviderInfo {
    fn clone(&self) -> (c: Self)
        ensures
            c@ == self@,
    {
        ProviderInfo { name: self.name.clone(), votes: self.votes, verified: self.verified }
    }
}

/// The providers an account has voted for, in the order of its votes.
#[derive(Debug, PartialEq, Eq)]
pub struct VotingInfo {
    pub votes: Vec<AccountId>,
}

impl View for VotingInfo {
    type V = Seq<AccountId>;

    open spec fn view(&self) -> Seq<AccountId> {
        self.votes@
    }
}

impl Clone for VotingInfo {
    fn clone(&self) -> (c: Self)
        ensures
            c@ == self@,
    {
        let votes = self.votes.clone();
        assert(votes@ =~= self.votes@);
        VotingInfo { votes }
    }
}

/// The errors this module raises.
#[derive(Debug, Clone, Copy, PartialEq, Eq)]
pub enum Error {
    /// The account is already a provider.
    AlreadyRegistered,
    /// The provider, or the identity, is not registered.
    NotRegistered,
    /// The identity is already verified.
    AlreadyVerified,
    /// The account has already voted for this provider.
    AlreadyVoted,
}

/// What this module reports after a successful call.
#[derive(Debug, PartialEq, Eq)]
pub enum Event {
    /// `who` registered as a provider called `name`.
    ProviderRegistered { name: LimitedVec, who: AccountId },
    /// `who` voted for the provider called `provider`.
    Vote { provider: LimitedVec, who: AccountId },
    /// The provider called `provider` reached the votes it needs.
    ProviderVerified { provider: LimitedVec },
    /// `provider` marked the identity `user` as verified.
    UserVerified { provider: AccountId, user: UserInfo },
}

/// The mathematical value of an `Event`.
pub enum EventView {
    ProviderRegistered { name: Seq<u8>, who: AccountId },
    Vote { provider: Seq<u8>, who: AccountId },
    ProviderVerified { provider: Seq<u8> },
    UserVerified { provider: AccountId, user: UserInfoView },
}

impl View for Event {
    type V = EventView;

    open spec fn view(&self) -> EventView {
        match self {
            Event::ProviderRegistered { name, who } => EventView::ProviderRegistered {
                name: name@,
                who: *who,
            },
            Event::Vote { provider, who } => EventView::Vote { provider: provider@, who: *who },
            Event::ProviderVerified { provider } => EventView::ProviderVerified {
                provider: provider@,
            },
            Event::UserVerified { provider, user } => EventView::UserVerified {
                provider: *provider,
                user: user@,
            },
        }
    }
}

/// The stored providers, the votes cast, and the events reported so far.
pub struct ProviderState {
    pub providers: Map<AccountId, ProviderInfoView>,
    pub voting: Map<AccountId, Seq<AccountId>>,
    pub events: Seq<EventView>,
}

/// The result of a dispatchable call of this module.
pub type DispatchResult = Result<(), DispatchError<Error>>;

/// The accounts that have voted for `provider`.
pub open spec fn voters_of(voting: Map<AccountId, Seq<AccountId>>, provider: AccountId) -> Set<
    AccountId,
> {
    voting.dom().filter(|v: AccountId| voting[v].contains(provider))
}

/// What holds of every state the calls of this module lead to: no account
/// votes twice for one provider, only registered providers receive votes,
/// each provider's count is the number of distinct accounts that voted for
/// it, and a provider is verified exactly when it has at least two votes.
pub open spec fn well_formed(s: ProviderState) -> bool {
    &&& s.voting.dom().finite()
    &&& forall|v: AccountId| #[trigger] s.voting.contains_key(v) ==> s.voting[v].no_duplicates()
    &&& forall|v: AccountId, p: AccountId|
        s.voting.contains_key(v) && #[trigger] s.voting[v].contains(p) ==> s.providers.contains_key(
            p,
        )
    &&& forall|p: AccountId| #[trigger]
        s.providers.contains_key(p) ==> s.providers[p].votes == voters_of(s.voting, p).len()
    &&& forall|p: AccountId| #[trigger]
        s.providers.contains_key(p) ==> (s.providers[p].verified <==> s.providers[p].votes
            >= VOTES_TO_VERIFY)
}

/// Effect of `register_provider`: the signer becomes a provider with no
/// votes when it is not one yet, and `ProviderRegistered` is reported.
pub open spec fn register_provider_spec(s: ProviderState, origin: Origin, name: Seq<u8>) -> (
    ProviderState,
    DispatchResult,
) {
    match signer(origin) {
        None => (s, Err(DispatchError::BadOrigin)),
        Some(who) => if s.providers.contains_key(who) {
            (s, Err(DispatchError::Module(Error::AlreadyRegistered)))
        } else {
            (
                ProviderState {
                    providers: s.providers.insert(
                        who,
                        ProviderInfoView { name, votes: 0, verified: false },
                    ),
                    events: s.events.push(EventView::ProviderRegistered { name, who }),
                    ..s
                },
                Ok(()),
            )
        },
    }
}

/// Whether one more vote brings `info` to the count that verifies it.
pub open spec fn reaches_threshold(info: ProviderInfoView) -> bool {
    info.votes + 1 == VOTES_TO_VERIFY
}

/// `info` with one more vote, verified once the count reaches two.
pub open spec fn counted(info: ProviderInfoView) -> ProviderInfoView {
    ProviderInfoView {
        votes: info.votes + 1,
        verified: if reaches_threshold(info) {
            true
        } else {
            info.verified
        },
        ..info
    }
}

/// The ballots of an account after it votes for `provider`, given the
/// ballots it had cast before, if any.
pub open spec fn ballots_after(previous: Option<Seq<AccountId>>, provider: AccountId) -> Seq<
    AccountId,
> {
    match previous {
        Some(b) => b.push(provider),
        None => seq![provider],
    }
}

/// Effect of `vote`: the signer's vote for a registered provider it has not
/// voted for yet is recorded, the provider's count grows by one, the
/// provider becomes verified when the count reaches two, and
/// `ProviderVerified` (on reaching two) and `Vote` are reported.
pub open spec fn vote_spec(s: ProviderState, origin: Origin, provider: AccountId) -> (
    ProviderState,
    DispatchResult,
) {
    match signer(origin) {
        None => (s, Err(DispatchError::BadOrigin)),
        Some(who) => if !s.providers.contains_key(provider) {
            (s, Err(DispatchError::Module(Error::NotRegistered)))
        } else if s.voting.contains_key(who) && s.voting[who].contains(provider) {
            (s, Err(DispatchError::Module(Error::AlreadyVoted)))
        } else {
            let info = s.providers[provider];
            let previous = if s.voting.contains_key(who) {
                Some(s.voting[who])
            } else {
                None
            };
            let reported = if reaches_threshold(info) {
                s.events.push(EventView::ProviderVerified { provider: info.name })
            } else {
                s.events
            };
            (
                ProviderState {
                    providers: s.providers.insert(provider, counted(info)),
                    voting: s.voting.insert(who, ballots_after(previous, provider)),
                    events: reported.push(EventView::Vote { provider: info.name, who }),
                },
                Ok(()),
            )
        },
    }
}

/// Effect of `verify`: a signed call marks a registered, not yet verified
/// identity as verified, and `UserVerified` is reported with the identity
/// as it was before.
pub open spec fn verify_spec(
    s: ProviderState,
    ids: IdentityState,
    origin: Origin,
    user: AccountId,
) -> (ProviderState, IdentityState, DispatchResult) {
    match signer(origin) {
        None => (s, ids, Err(DispatchError::BadOrigin)),
        Some(who) => if !ids.identities.contains_key(user) {
            (s, ids, Err(DispatchError::Module(Error::NotRegistered)))
        } else if ids.identities[user].verified {
            (s, ids, Err(DispatchError::Module(Error::AlreadyVerified)))
        } else {
            let info = ids.identities[user];
            (
                ProviderState {
                    events: s.events.push(EventView::UserVerified { provider: who, user: info }),
                    ..s
                },
                IdentityState {
                    identities: ids.identities.insert(user, UserInfoView { verified: true, ..info }),
                    ..ids
                },
                Ok(()),
            )
        },
    }
}

/// The state with no providers and no votes is well formed.
pub proof fn lemma_empty_well_formed(events: Seq<EventView>)
    ensures
        well_formed(
            ProviderState {
                providers: Map::empty(),
                voting: Map::empty(),
                events,
            },
        ),
{
    assert(Map::<AccountId, Seq<AccountId>>::empty().dom() =~= Set::empty());
}

/// Registering a provider keeps the state well formed.
pub proof fn lemma_register_provider_well_formed(s: ProviderState, origin: Origin, name: Seq<u8>)
    requires
        well_formed(s),
    ensures
        well_formed(register_provider_spec(s, origin, name).0),
{
    let t = register_provider_spec(s, origin, name).0;
    if let Some(who) = signer(origin) {
        if !s.providers.contains_key(who) {
            assert forall|p: AccountId| #[trigger] t.providers.contains_key(p) implies t.providers[p].votes
                == voters_of(t.voting, p).len() by {
                if p == who {
                    assert(voters_of(t.voting, p) =~= Set::empty());
                }
            }
        }
    }
}

/// Marking an identity as verified keeps the provider state well formed.
pub proof fn lemma_verify_well_formed(
    s: ProviderState,
    ids: IdentityState,
    origin: Origin,
    user: AccountId,
)
    requires
        well_formed(s),
    ensures
        well_formed(verify_spec(s, ids, origin, user).0),
{
}

/// Voting keeps the state well formed.
pub proof fn lemma_vote_well_formed(s: ProviderState, origin: Origin, provider: AccountId)
    requires
        well_formed(s),
    ensures
        well_formed(vote_spec(s, origin, provider).0),
{
    let t = vote_spec(s, origin, provider).0;
    if let Some(who) = signer(origin) {
        if s.providers.contains_key(provider) && !(s.voting.contains_key(who)
            && s.voting[who].contains(provider)) {
            let ballots = t.voting[who];
            assert(ballots.no_duplicates()) by {
                if s.voting.contains_key(who) {
                    assert(s.voting[who].no_duplicates());
                }
            }
            assert forall|q: AccountId| ballots.contains(q) implies q == provider || (
            s.voting.contains_key(who) && s.voting[who].contains(q)) by {
                if s.voting.contains_key(who) {
                    let k = choose|k: int| 0 <= k < ballots.len() && ballots[k] == q;
                    if k < s.voting[who].len() {
                        assert(s.voting[who][k] == q);
                    }
                }
            }
            assert(t.voting.dom() =~= s.voting.dom().insert(who));
            assert forall|p: AccountId| #[trigger] t.providers.contains_key(p) implies t.providers[p].votes
                == voters_of(t.voting, p).len() by {
                if p == provider {
                    assert(voters_of(t.voting, p) =~= voters_of(s.voting, p).insert(who)) by {
                        assert(ballots[ballots.len() - 1] == provider);
                    }
                    assert(!voters_of(s.voting, p).contains(who));
                    vstd::set_lib::lemma_len_subset(voters_of(s.voting, p), s.voting.dom());
                } else {
                    assert(voters_of(t.voting, p) =~= voters_of(s.voting, p)) by {
                        if s.voting.contains_key(who) {
                            assert forall|q: AccountId| s.voting[who].contains(q) implies ballots.contains(q) by {
                                let k = choose|k: int| 0 <= k < s.voting[who].len() && s.voting[who][k] == q;
                                assert(ballots[k] == q);
                            }
                        }
                    }
                }
            }
            assert forall|v: AccountId, p: AccountId|
                t.voting.contains_key(v) && #[trigger] t.voting[v].contains(p) implies t.providers.contains_key(p) by {
                if v != who {
                    assert(s.voting[v].contains(p));
                }
            }
        }
    }
}

/// A registration by an account that is not a provider succeeds and stores
/// the provider with no votes, not verified.
pub proof fn lemma_register_provider_then_read(s: ProviderState, who: AccountId, name: Seq<u8>)
    requires
        !s.providers.contains_key(who),
    ensures
        ({
            let (t, r) = register_provider_spec(s, Origin::Signed(who), name);
            &&& r is Ok
            &&& t.providers.contains_key(who)
            &&& t.providers[who] == (ProviderInfoView { name, votes: 0, verified: false })
            &&& t.events == s.events.push(EventView::ProviderRegistered { name, who })
            &&& t.voting == s.voting
            &&& forall|q: AccountId| q != who ==> #[trigger] t.providers.contains_key(q)
                == s.providers.contains_key(q) && (s.providers.contains_key(q) ==> t.providers[q]
                == s.providers[q])
        }),
{
}

/// An account that already is a provider cannot register again, whatever
/// its record holds: refused with `AlreadyRegistered`, nothing changes.
pub proof fn lemma_registered_provider_refused(s: ProviderState, who: AccountId, name: Seq<u8>)
    requires
        s.providers.contains_key(who),
    ensures
        register_provider_spec(s, Origin::Signed(who), name) == (
            s,
            Err::<(), DispatchError<Error>>(DispatchError::Module(Error::AlreadyRegistered)),
        ),
{
}

/// A vote is refused, changing nothing, exactly in two cases: with
/// `NotRegistered` when the provider is not registered, and otherwise with
/// `AlreadyVoted` when the voter's ballots already hold the provider.
pub proof fn lemma_vote_refused(s: ProviderState, who: AccountId, provider: AccountId)
    ensures
        !s.providers.contains_key(provider) ==> vote_spec(s, Origin::Signed(who), provider) == (
            s,
            Err::<(), DispatchError<Error>>(DispatchError::Module(Error::NotRegistered)),
        ),
        s.providers.contains_key(provider) && s.voting.contains_key(who) && s.voting[who].contains(
            provider,
        ) ==> vote_spec(s, Origin::Signed(who), provider) == (
            s,
            Err::<(), DispatchError<Error>>(DispatchError::Module(Error::AlreadyVoted)),
        ),
{
}

/// Verifying is refused, changing nothing, with `NotRegistered` for an
/// account without an identity and with `AlreadyVerified` for a verified
/// identity, whoever signs.
pub proof fn lemma_verify_refused(
    s: ProviderState,
    ids: IdentityState,
    who: AccountId,
    user: AccountId,
)
    ensures
        !ids.identities.contains_key(user) ==> verify_spec(s, ids, Origin::Signed(who), user) == (
            s,
            ids,
            Err::<(), DispatchError<Error>>(DispatchError::Module(Error::NotRegistered)),
        ),
        ids.identities.contains_key(user) && ids.identities[user].verified ==> verify_spec(
            s,
            ids,
            Origin::Signed(who),
            user,
        ) == (
            s,
            ids,
            Err::<(), DispatchError<Error>>(DispatchError::Module(Error::AlreadyVerified)),
        ),
{
}

/// Only signed calls are accepted; any other origin is refused with
/// `BadOrigin` and changes nothing.
pub proof fn lemma_unsigned_refused(
    s: ProviderState,
    ids: IdentityState,
    origin: Origin,
    name: Seq<u8>,
    account: AccountId,
)
    requires
        signer(origin) is None,
    ensures
        register_provider_spec(s, origin, name) == (
            s,
            Err::<(), DispatchError<Error>>(DispatchError::BadOrigin),
        ),
        vote_spec(s, origin, account) == (
            s,
            Err::<(), DispatchError<Error>>(DispatchError::BadOrigin),
        ),
        verify_spec(s, ids, origin, account) == (
            s,
            ids,
            Err::<(), DispatchError<Error>>(DispatchError::BadOrigin),
        ),
{
}

/// Once an account is a provider, registering it again is refused with
/// `AlreadyRegistered` and changes nothing.
pub proof fn lemma_register_provider_twice_refused(
    s: ProviderState,
    who: AccountId,
    name: Seq<u8>,
    name2: Seq<u8>,
)
    ensures
        ({
            let t = register_provider_spec(s, Origin::Signed(who), name).0;
            register_provider_spec(t, Origin::Signed(who), name2) == (
                t,
                Err::<(), DispatchError<Error>>(DispatchError::Module(Error::AlreadyRegistered)),
            )
        }),
{
}

/// An accepted vote adds exactly its voter to the provider's voters and
/// one to its count; a second vote of that account for that provider is
/// then refused with `AlreadyVoted` and changes nothing.
pub proof fn lemma_vote_counts_once(s: ProviderState, who: AccountId, provider: AccountId)
    requires
        well_formed(s),
    ensures
        ({
            let (t, r) = vote_spec(s, Origin::Signed(who), provider);
            r is Ok ==> {
                &&& voters_of(t.voting, provider) == voters_of(s.voting, provider).insert(who)
                &&& !voters_of(s.voting, provider).contains(who)
                &&& t.providers[provider].votes == s.providers[provider].votes + 1
                &&& vote_spec(t, Origin::Signed(who), provider) == (
                    t,
                    Err::<(), DispatchError<Error>>(DispatchError::Module(Error::AlreadyVoted)),
                )
            }
        }),
{
    let (t, r) = vote_spec(s, Origin::Signed(who), provider);
    if r is Ok {
        lemma_vote_well_formed(s, Origin::Signed(who), provider);
        let ballots = t.voting[who];
        assert(ballots[ballots.len() - 1] == provider);
        assert(voters_of(t.voting, provider) =~= voters_of(s.voting, provider).insert(who));
    }
}

/// A signed vote for a registered provider by an account whose ballots do
/// not hold it is always accepted: the provider keeps its name, gains one
/// vote, is verified exactly when it was or now has two votes, the vote is
/// appended to the voter's ballots, no other provider or voter changes,
/// and `Vote` (preceded by `ProviderVerified` on reaching two) is reported.
pub proof fn lemma_vote_accepted(s: ProviderState, who: AccountId, provider: AccountId)
    requires
        s.providers.contains_key(provider),
        !(s.voting.contains_key(who) && s.voting[who].contains(provider)),
    ensures
        ({
            let (t, r) = vote_spec(s, Origin::Signed(who), provider);
            let before = s.providers[provider];
            let name = before.name;
            &&& r is Ok
            &&& t.providers.contains_key(provider)
            &&& t.providers[provider].name == name
            &&& t.providers[provider].votes == before.votes + 1
            &&& t.providers[provider].verified == (before.verified || before.votes + 1 == 2)
            &&& t.voting.contains_key(who)
            &&& t.voting[who] == (if s.voting.contains_key(who) {
                s.voting[who].push(provider)
            } else {
                seq![provider]
            })
            &&& forall|q: AccountId| q != provider ==> #[trigger] t.providers.contains_key(q)
                == s.providers.contains_key(q) && (s.providers.contains_key(q) ==> t.providers[q]
                == s.providers[q])
            &&& forall|v: AccountId| v != who ==> #[trigger] t.voting.contains_key(v)
                == s.voting.contains_key(v) && (s.voting.contains_key(v) ==> t.voting[v]
                == s.voting[v])
            &&& t.events == if before.votes + 1 == 2 {
                s.events.push(EventView::ProviderVerified { provider: name }).push(
                    EventView::Vote { provider: name, who },
                )
            } else {
                s.events.push(EventView::Vote { provider: name, who })
            }
        }),
{
}

/// Any signed account may verify a registered identity that is not yet
/// verified: the call is accepted, the identity becomes verified with its
/// name and handle unchanged, no other identity and no provider or ballot
/// changes, and `UserVerified` is reported with the signer and the
/// identity as it was.
pub proof fn lemma_verify_accepted(
    s: ProviderState,
    ids: IdentityState,
    origin: Origin,
    user: AccountId,
)
    requires
        signer(origin) is Some,
        ids.identities.contains_key(user),
        !ids.identities[user].verified,
    ensures
        ({
            let (t, tids, r) = verify_spec(s, ids, origin, user);
            let before = ids.identities[user];
            &&& r is Ok
            &&& tids.identities.contains_key(user)
            &&& tids.identities[user].verified
            &&& tids.identities[user].username == before.username
            &&& tids.identities[user].twitter == before.twitter
            &&& forall|a: AccountId| a != user ==> #[trigger] tids.identities.contains_key(a)
                == ids.identities.contains_key(a) && (ids.identities.contains_key(a)
                ==> tids.identities[a] == ids.identities[a])
            &&& tids.events == ids.events
            &&& t.providers == s.providers
            &&& t.voting == s.voting
            &&& t.events == s.events.push(
                EventView::UserVerified { provider: signer(origin)->0, user: before },
            )
        }),
{
}

/// In a well-formed state a provider is verified exactly when at least two
/// distinct accounts have voted for it.
pub proof fn lemma_verified_iff_two_voters(s: ProviderState, provider: AccountId)
    requires
        well_formed(s),
        s.providers.contains_key(provider),
    ensures
        s.providers[provider].verified <==> voters_of(s.voting, provider).len() >= 2,
        s.providers[provider].votes == voters_of(s.voting, provider).len(),
{
}

/// Once an identity has been verified, verifying it again is refused with
/// `AlreadyVerified` and changes nothing; the verified identity keeps its
/// name and handle.
pub proof fn lemma_verify_twice_refused(
    s: ProviderState,
    ids: IdentityState,
    origin: Origin,
    origin2: Origin,
    user: AccountId,
)
    requires
        signer(origin2) is Some,
    ensures
        ({
            let (t, tids, r) = verify_spec(s, ids, origin, user);
            r is Ok ==> {
                &&& tids.identities[user].username == ids.identities[user].username
                &&& tids.identities[user].twitter == ids.identities[user].twitter
                &&& tids.identities[user].verified
                &&& verify_spec(t, tids, origin2, user) == (
                    t,
                    tids,
                    Err::<(), DispatchError<Error>>(DispatchError::Module(Error::AlreadyVerified)),
                )
            }
        }),
{
}

/// A refused call changes neither the providers, the votes, the identities
/// nor the events.
pub proof fn lemma_refused_call_changes_nothing(
    s: ProviderState,
    ids: IdentityState,
    origin: Origin,
    name: Seq<u8>,
    account: AccountId,
)
    ensures
        register_provider_spec(s, origin, name).1 is Err ==> register_provider_spec(
            s,
            origin,
            name,
        ).0 == s,
        vote_spec(s, origin, account).1 is Err ==> vote_spec(s, origin, account).0 == s,
        verify_spec(s, ids, origin, account).2 is Err ==> verify_spec(s, ids, origin, account).0
            == s && verify_spec(s, ids, origin, account).1 == ids,
{
}

/// No call removes a provider, a cast vote or an identity.
pub proof fn lemma_nothing_removed(
    s: ProviderState,
    ids: IdentityState,
    origin: Origin,
    name: Seq<u8>,
    account: AccountId,
)
    ensures
        s.providers.dom().subset_of(register_provider_spec(s, origin, name).0.providers.dom()),
        s.providers.dom().subset_of(vote_spec(s, origin, account).0.providers.dom()),
        forall|v: AccountId, p: AccountId|
            s.voting.contains_key(v) && #[trigger] s.voting[v].contains(p) ==> {
                let t = vote_spec(s, origin, account).0;
                t.voting.contains_key(v) && t.voting[v].contains(p)
            },
        ids.identities.dom().subset_of(verify_spec(s, ids, origin, account).1.identities.dom()),
{
    let t = vote_spec(s, origin, account).0;
    assert forall|v: AccountId, p: AccountId|
        s.voting.contains_key(v) && #[trigger] s.voting[v].contains(p) implies t.voting.contains_key(v)
        && t.voting[v].contains(p) by {
        if t.voting[v] != s.voting[v] {
            let k = choose|k: int| 0 <= k < s.voting[v].len() && s.voting[v][k] == p;
            assert(t.voting[v][k] == p);
        }
    }
}

/// Whether `ballots` holds `provider`.
fn has_voted_for(ballots: &Vec<AccountId>, provider: AccountId) -> (b: bool)
    ensures
        b == ballots@.contains(provider),
{
    let mut i: usize = 0;
    while i < ballots.len()
        invariant
            i <= ballots.len(),
            forall|j: int| 0 <= j < i ==> ballots@[j] != provider,
        decreases ballots.len() - i,
    {
        if ballots[i] == provider {
            return true;
        }
        i = i + 1;
    }
    false
}

/// The state that stored providers, ballots and events stand for.
spec fn state_of(
    providers: Map<AccountId, ProviderInfo>,
    voting: Map<AccountId, VotingInfo>,
    events: Seq<Event>,
) -> ProviderState {
    ProviderState {
        providers: providers.map_values(|p: ProviderInfo| p@),
        voting: voting.map_values(|v: VotingInfo| v@),
        events: events.map_values(|e: Event| e@),
    }
}

/// What an accepted vote writes back: the provider's new record, the
/// voter's new ballots, and whether the provider has just reached the
/// count that verifies it.
pub struct VoteOutcome {
    pub provider_info: ProviderInfo,
    pub voting_info: VotingInfo,
    pub reached: bool,
}

/// The ballots held in an optional `VotingInfo`.
pub open spec fn ballots_of(voting_info: Option<VotingInfo>) -> Option<Seq<AccountId>> {
    match voting_info {
        Some(v) => Some(v@),
        None => None,
    }
}

/// Decides a provider registration: refused when the account already is
/// a provider, else the record to store, with no votes and not verified.
pub fn decide_register_provider(registered: bool, name: LimitedVec) -> (r: Result<ProviderInfo, Error>)
    ensures
        registered ==> r == Err::<ProviderInfo, Error>(Error::AlreadyRegistered),
        !registered ==> (r matches Ok(info) && info@ == (ProviderInfoView {
            name: name@,
            votes: 0,
            verified: false,
        })),
{
    if registered {
        Err(Error::AlreadyRegistered)
    } else {
        Ok(ProviderInfo { name, votes: 0, verified: false })
    }
}

/// Decides a vote for `provider`, given the provider's record and the
/// voter's ballots as stored: refused when the provider is not registered
/// or already holds the voter's vote, else the records to store.
pub fn decide_vote(
    provider: AccountId,
    provider_info: Option<ProviderInfo>,
    voting_info: Option<VotingInfo>,
) -> (r: Result<VoteOutcome, Error>)
    requires
        provider_info matches Some(info) ==> info.votes < u128::MAX,
    ensures
        match provider_info {
            None => r == Err::<VoteOutcome, Error>(Error::NotRegistered),
            Some(info) => if voting_info matches Some(v) && v@.contains(provider) {
                r == Err::<VoteOutcome, Error>(Error::AlreadyVoted)
            } else {
                r matches Ok(o) && o.provider_info.name@ == info.name@ && o.provider_info.votes
                    == info.votes + 1 && o.provider_info.verified == (info.verified
                    || info.votes + 1 == VOTES_TO_VERIFY) && o.voting_info@ == (match voting_info {
                    Some(v) => v@.push(provider),
                    None => seq![provider],
                }) && o.reached == (info.votes + 1 == VOTES_TO_VERIFY)
            },
        },
{
    let info = match provider_info {
        Some(info) => info,
        None => return Err(Error::NotRegistered),
    };
    let ballots = match voting_info {
        Some(v) => {
            if has_voted_for(&v.votes, provider) {
                return Err(Error::AlreadyVoted);
            }
            let mut cast = v.votes;
            cast.push(provider);
            cast
        },
        None => {
            let mut cast = Vec::new();
            cast.push(provider);
            cast
        },
    };
    assert(ballots@ =~= ballots_after(ballots_of(voting_info), provider));
    let votes = info.votes + 1;
    let reached = votes == VOTES_TO_VERIFY;
    let verified = if reached {
        true
    } else {
        info.verified
    };
    Ok(VoteOutcome {
        provider_info: ProviderInfo { name: info.name, votes, verified },
        voting_info: VotingInfo { votes: ballots },
        reached,
    })
}

/// Decides whether an identity, as stored, may be marked verified:
/// refused when there is none or it is verified already.
pub fn decide_verify(user_info: &Option<UserInfo>) -> (r: Result<(), Error>)
    ensures
        match user_info {
            None => r == Err::<(), Error>(Error::NotRegistered),
            Some(u) => if u.verified {
                r == Err::<(), Error>(Error::AlreadyVerified)
            } else {
                r == Ok::<(), Error>(())
            },
        },
{
    match user_info {
        None => Err(Error::NotRegistered),
        Some(u) => if u.verified {
            Err(Error::AlreadyVerified)
        } else {
            Ok(())
        },
    }
}

/// The providers' storage: registered providers, the votes each account
/// has cast, and the events reported so far.
#[derive(Debug)]
pub struct Pallet {
    providers: HashMap<AccountId, ProviderInfo>,
    voting: HashMap<AccountId, VotingInfo>,
    events: Vec<Event>,
}

impl View for Pallet {
    type V = ProviderState;

    closed spec fn view(&self) -> ProviderState {
        state_of(self.providers@, self.voting@, self.events@)
    }
}

impl Pallet {
    #[verifier::type_invariant]
    spec fn inv(self) -> bool {
        well_formed(self@)
    }

    /// The module with no providers, no votes and no events.
    pub fn new() -> (p: Pallet)
        ensures
            p@.providers == Map::<AccountId, ProviderInfoView>::empty(),
            p@.voting == Map::<AccountId, Seq<AccountId>>::empty(),
            p@.events == Seq::<EventView>::empty(),
            well_formed(p@),
    {
        let providers: HashMap<AccountId, ProviderInfo> = HashMap::new();
        let voting: HashMap<AccountId, VotingInfo> = HashMap::new();
        let events: Vec<Event> = Vec::new();
        let ghost s = state_of(providers@, voting@, events@);
        proof {
            assert(s.providers =~= Map::<AccountId, ProviderInfoView>::empty());
            assert(s.voting =~= Map::<AccountId, Seq<AccountId>>::empty());
            assert(s.events =~= Seq::<EventView>::empty());
            lemma_empty_well_formed(s.events);
        }
        Pallet { providers, voting, events }
    }

    /// Registers the signer as a provider called `name`, refusing an
    /// account that already is one.
    pub fn register_provider(&mut self, origin: Origin, name: LimitedVec) -> (r: DispatchResult)
        ensures
            (final(self)@, r) == register_provider_spec(old(self)@, origin, name@),
            well_formed(final(self)@),
    {
        proof {
            use_type_invariant(&*self);
        }
        let who = match ensure_signed(origin) {
            Ok(who) => who,
            Err(e) => return Err(e),
        };
        let registered = self.providers.contains_key(&who);
        let provider_info = match decide_register_provider(registered, name.clone()) {
            Ok(info) => info,
            Err(e) => return Err(DispatchError::Module(e)),
        };
        let ghost target = register_provider_spec(self@, origin, name@).0;
        proof {
            lemma_register_provider_well_formed(self@, origin, name@);
        }
        let mut taken = Pallet::new();
        std::mem::swap(self, &mut taken);
        let Pallet { mut providers, voting, mut events } = taken;
        providers.insert(who, provider_info);
        events.push(Event::ProviderRegistered { name, who });
        proof {
            let n = state_of(providers@, voting@, events@);
            assert(n.providers =~= target.providers);
            assert(n.voting =~= target.voting);
            assert(n.events =~= target.events);
        }
        *self = Pallet { providers, voting, events };
        Ok(())
    }

    /// Records the signer's vote for `provider`, refusing a provider that
    /// is not registered and a second vote of one account for one provider.
    pub fn vote(&mut self, origin: Origin, provider: AccountId) -> (r: DispatchResult)
        ensures
            (final(self)@, r) == vote_spec(old(self)@, origin, provider),
            well_formed(final(self)@),
    {
        proof {
            use_type_invariant(&*self);
        }
        let who = match ensure_signed(origin) {
            Ok(who) => who,
            Err(e) => return Err(e),
        };
        let provider_info = match self.providers.get(&provider) {
            Some(info) => Some(info.clone()),
            None => None,
        };
        let voting_info = match self.voting.get(&who) {
            Some(v) => Some(v.clone()),
            None => None,
        };
        if provider_info.is_some() {
            let voters = self.voting.len();
            proof {
                assert(self@.voting.dom() =~= self.voting@.dom());
                vstd::set_lib::lemma_len_subset(
                    voters_of(self@.voting, provider),
                    self@.voting.dom(),
                );
                assert(self@.providers.contains_key(provider));
                assert(self@.voting.dom().len() == voters);
            }
        }
        let outcome = match decide_vote(provider, provider_info, voting_info) {
            Ok(o) => o,
            Err(e) => return Err(DispatchError::Module(e)),
        };
        let ghost target = vote_spec(self@, origin, provider).0;
        proof {
            lemma_vote_well_formed(self@, origin, provider);
        }
        let mut taken = Pallet::new();
        std::mem::swap(self, &mut taken);
        let Pallet { mut providers, mut voting, mut events } = taken;
        let name = outcome.provider_info.name.clone();
        voting.insert(who, outcome.voting_info);
        providers.insert(provider, outcome.provider_info);
        if outcome.reached {
            events.push(Event::ProviderVerified { provider: name.clone() });
        }
        events.push(Event::Vote { provider: name, who });
        proof {
            let n = state_of(providers@, voting@, events@);
            assert(n.providers =~= target.providers);
            assert(n.voting =~= target.voting);
            assert(n.events =~= target.events);
        }
        *self = Pallet { providers, voting, events };
        Ok(())
    }

    /// Marks the registered, not yet verified identity of `user` as
    /// verified on behalf of the signer.
    pub fn verify(
        &mut self,
        identities: &mut user_identity::Pallet,
        origin: Origin,
        user: AccountId,
    ) -> (r: DispatchResult)
        ensures
            (final(self)@, final(identities)@, r) == verify_spec(
                old(self)@,
                old(identities)@,
                origin,
                user,
            ),
            well_formed(final(self)@),
    {
        proof {
            use_type_invariant(&*self);
        }
        let who = match ensure_signed(origin) {
            Ok(who) => who,
            Err(e) => return Err(e),
        };
        let user_info = identities.get_identity(user);
        if let Err(e) = decide_verify(&user_info) {
            return Err(DispatchError::Module(e));
        }
        let user_info = user_info.unwrap();
        identities.mark_verified(user);
        let ghost target = verify_spec(self@, old(identities)@, origin, user).0;
        proof {
            lemma_verify_well_formed(self@, old(identities)@, origin, user);
        }
        let mut taken = Pallet::new();
        std::mem::swap(self, &mut taken);
        let Pallet { providers, voting, mut events } = taken;
        events.push(Event::UserVerified { provider: who, user: user_info });
        proof {
            let n = state_of(providers@, voting@, events@);
            assert(n.providers =~= target.providers);
            assert(n.voting =~= target.voting);
            assert(n.events =~= target.events);
        }
        *self = Pallet { providers, voting, events };
        Ok(())
    }

    /// The provider registered by `who`, if any.
    pub fn get_provider(&self, who: AccountId) -> (r: Option<ProviderInfo>)
        ensures
            match r {
                Some(p) => self@.providers.contains_key(who) && p@ == self@.providers[who],
                None => !self@.providers.contains_key(who),
            },
    {
        match self.providers.get(&who) {
            Some(p) => Some(p.clone()),
            None => None,
        }
    }

    /// The votes cast by `who`, if it has voted.
    pub fn get_votes(&self, who: AccountId) -> (r: Option<VotingInfo>)
        ensures
            match r {
                Some(v) => self@.voting.contains_key(who) && v@ == self@.voting[who],
                None => !self@.voting.contains_key(who),
            },
    {
        match self.voting.get(&who) {
            Some(v) => Some(v.clone()),
            None => None,
        }
    }

    /// The events reported so far, oldest first.
    pub fn events(&self) -> (e: &Vec<Event>)
        ensures
            e@.map_values(|x: Event| x@) == self@.events,
    {
        &self.events
    }

    /// The most recent event, if any.
    pub fn last_event(&self) -> (e: Option<&Event>)
        ensures
            match e {
                Some(x) => self@.events.len() > 0 && x@ == self@.events.last(),
                None => self@.events.len() == 0,
            },
    {
        let n = self.events.len();
        if n == 0 {
            None
        } else {
            Some(&self.events[n - 1])
        }
    }
}

} // verus!
