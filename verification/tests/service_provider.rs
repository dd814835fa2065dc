use pallet_service_provider::dispatch::{DispatchError, Origin};
use pallet_service_provider::limited_vec::LimitedVec;
use pallet_service_provider::service_provider::{
    decide_register_provider, decide_verify, decide_vote, Error, Event, Pallet, ProviderInfo,
    VotingInfo,
};
use pallet_service_provider::user_identity::{self, UserInfo};

fn bytes(s: &str) -> LimitedVec {
    LimitedVec::try_from(s.as_bytes().to_vec()).unwrap()
}

#[test]
pub fn it_can_register_provider() {
    let mut service_provider = Pallet::new();
    let name = bytes("iamyxsh");
    assert_eq!(service_provider.register_provider(Origin::signed(1), name.clone()), Ok(()));

    let provider_info = ProviderInfo { name: name.clone(), verified: false, votes: 0 };

    match service_provider.get_provider(1) {
        Some(info) => assert_eq!(info, provider_info),
        None => assert!(false, "get_identity does not return any value"),
    }

    assert_eq!(
        service_provider.last_event(),
        Some(&Event::ProviderRegistered { name, who: 1 })
    );
}

#[test]
pub fn it_can_deny_double_registration() {
    let mut service_provider = Pallet::new();
    let name = bytes("iamyxsh");
    let _ = service_provider.register_provider(Origin::signed(1), name.clone());
    let stored = service_provider.get_provider(1);
    let events = service_provider.events().len();

    assert_eq!(
        service_provider.register_provider(Origin::signed(1), name.clone()),
        Err(DispatchError::Module(Error::AlreadyRegistered))
    );
    assert_eq!(service_provider.get_provider(1), stored);
    assert_eq!(service_provider.events().len(), events);
}

#[test]
pub fn it_can_allow_voting() {
    let mut service_provider = Pallet::new();
    let name = bytes("iamyxsh");
    let provider = 1;
    let voter = 2;
    let _ = service_provider.register_provider(Origin::signed(provider), name.clone());

    assert_eq!(service_provider.vote(Origin::signed(voter), 1), Ok(()));

    match service_provider.get_provider(provider) {
        Some(info) => assert_eq!(info.votes, 1),
        None => assert!(false, "get_provider does not return any value"),
    }

    match service_provider.get_votes(voter) {
        Some(info) => assert!(info.votes.contains(&provider)),
        None => assert!(false, "get_votes does not return any value"),
    }

    assert_eq!(service_provider.last_event(), Some(&Event::Vote { provider: name, who: 2 }));
}

#[test]
pub fn it_can_deny_double_voting() {
    let mut service_provider = Pallet::new();
    let name = bytes("iamyxsh");
    let provider = 1;
    let voter = 2;

    let _ = service_provider.register_provider(Origin::signed(provider), name.clone());

    let _ = service_provider.vote(Origin::signed(voter), provider);
    let stored = service_provider.get_provider(provider);
    let ballots = service_provider.get_votes(voter);
    let events = service_provider.events().len();
    assert_eq!(
        service_provider.vote(Origin::signed(voter), provider),
        Err(DispatchError::Module(Error::AlreadyVoted))
    );
    assert_eq!(service_provider.get_provider(provider), stored);
    assert_eq!(service_provider.get_votes(voter), ballots);
    assert_eq!(service_provider.events().len(), events);
}

#[test]
pub fn it_can_verify_after_2_votes() {
    let mut service_provider = Pallet::new();
    let name = bytes("iamyxsh");
    let provider = 1;
    let voter1 = 2;
    let voter2 = 3;

    let _ = service_provider.register_provider(Origin::signed(provider), name.clone());

    let _ = service_provider.vote(Origin::signed(voter1), provider);
    let _ = service_provider.vote(Origin::signed(voter2), provider);
    match service_provider.get_provider(provider) {
        Some(info) => assert!(info.verified),
        None => assert!(false, "get_provider does not return any value"),
    }
    assert!(service_provider
        .events()
        .contains(&Event::ProviderVerified { provider: name }));
}

#[test]
pub fn it_can_verify_user() {
    let mut identity = user_identity::Pallet::new();
    let mut service_provider = Pallet::new();
    let name = bytes("iamyxsh");
    let twitter = bytes("iamyxsh");
    let provider = 1;
    let voter1 = 2;
    let voter2 = 3;

    let user_info = UserInfo { twitter: twitter.clone(), username: name.clone(), verified: false };

    let _ = identity.register_user(Origin::signed(voter1), name.clone(), twitter.clone());

    let _ = service_provider.register_provider(Origin::signed(provider), name.clone());

    let _ = service_provider.vote(Origin::signed(voter1), provider);
    let _ = service_provider.vote(Origin::signed(voter2), provider);

    assert_eq!(
        service_provider.verify(&mut identity, Origin::signed(provider), voter1),
        Ok(())
    );

    match identity.get_identity(voter1) {
        Some(info) => assert!(info.verified),
        None => assert!(false, "get_identity does not return any value"),
    }

    assert!(service_provider
        .events()
        .contains(&Event::UserVerified { provider, user: user_info.clone() }));
}

#[test]
fn vote_for_unregistered_provider_is_refused() {
    let mut service_provider = Pallet::new();
    assert_eq!(
        service_provider.vote(Origin::signed(2), 1),
        Err(DispatchError::Module(Error::NotRegistered))
    );
    assert_eq!(service_provider.get_votes(2), None);
    assert!(service_provider.events().is_empty());
}

#[test]
fn provider_calls_need_a_signed_origin() {
    let mut identity = user_identity::Pallet::new();
    let mut service_provider = Pallet::new();
    identity.register_user(Origin::signed(5), bytes("u"), bytes("t")).unwrap();
    service_provider.register_provider(Origin::signed(1), bytes("p")).unwrap();
    for origin in [Origin::Root, Origin::Unsigned] {
        assert_eq!(
            service_provider.register_provider(origin, bytes("x")),
            Err(DispatchError::BadOrigin)
        );
        assert_eq!(service_provider.vote(origin, 1), Err(DispatchError::BadOrigin));
        assert_eq!(
            service_provider.verify(&mut identity, origin, 5),
            Err(DispatchError::BadOrigin)
        );
    }
    assert!(!identity.get_identity(5).unwrap().verified);
    assert_eq!(service_provider.events().len(), 1);
}

#[test]
fn third_vote_counts_and_reports_verification_once() {
    let mut service_provider = Pallet::new();
    let name = bytes("prov");
    service_provider.register_provider(Origin::signed(1), name.clone()).unwrap();
    service_provider.vote(Origin::signed(2), 1).unwrap();
    assert!(!service_provider.get_provider(1).unwrap().verified);
    service_provider.vote(Origin::signed(3), 1).unwrap();
    service_provider.vote(Origin::signed(4), 1).unwrap();
    let info = service_provider.get_provider(1).unwrap();
    assert_eq!(info.votes, 3);
    assert!(info.verified);
    assert_eq!(
        service_provider.events(),
        &vec![
            Event::ProviderRegistered { name: name.clone(), who: 1 },
            Event::Vote { provider: name.clone(), who: 2 },
            Event::ProviderVerified { provider: name.clone() },
            Event::Vote { provider: name.clone(), who: 3 },
            Event::Vote { provider: name.clone(), who: 4 },
        ]
    );
}

#[test]
fn ballots_keep_the_order_of_votes() {
    let mut service_provider = Pallet::new();
    service_provider.register_provider(Origin::signed(10), bytes("a")).unwrap();
    service_provider.register_provider(Origin::signed(11), bytes("b")).unwrap();
    service_provider.vote(Origin::signed(2), 11).unwrap();
    service_provider.vote(Origin::signed(2), 10).unwrap();
    assert_eq!(service_provider.get_votes(2), Some(VotingInfo { votes: vec![11, 10] }));
    assert_eq!(service_provider.get_provider(10).unwrap().votes, 1);
    assert_eq!(service_provider.get_provider(11).unwrap().votes, 1);
}

#[test]
fn a_provider_may_vote_for_itself() {
    let mut service_provider = Pallet::new();
    service_provider.register_provider(Origin::signed(1), bytes("a")).unwrap();
    service_provider.vote(Origin::signed(1), 1).unwrap();
    assert_eq!(service_provider.get_provider(1).unwrap().votes, 1);
    assert_eq!(service_provider.get_votes(1), Some(VotingInfo { votes: vec![1] }));
}

#[test]
fn verify_refuses_missing_and_verified_identities() {
    let mut identity = user_identity::Pallet::new();
    let mut service_provider = Pallet::new();
    assert_eq!(
        service_provider.verify(&mut identity, Origin::signed(1), 2),
        Err(DispatchError::Module(Error::NotRegistered))
    );
    identity.register_user(Origin::signed(2), bytes("u"), bytes("t")).unwrap();
    assert_eq!(service_provider.verify(&mut identity, Origin::signed(1), 2), Ok(()));
    let after_first = identity.get_identity(2);
    assert_eq!(
        service_provider.verify(&mut identity, Origin::signed(8), 2),
        Err(DispatchError::Module(Error::AlreadyVerified))
    );
    assert_eq!(identity.get_identity(2), after_first);
    assert_eq!(
        service_provider.last_event(),
        Some(&Event::UserVerified {
            provider: 1,
            user: UserInfo { username: bytes("u"), twitter: bytes("t"), verified: false },
        })
    );
    assert_eq!(service_provider.events().len(), 1);
    assert_eq!(identity.events().len(), 1);
}

#[test]
fn updating_a_verified_identity_allows_verifying_again() {
    let mut identity = user_identity::Pallet::new();
    let mut service_provider = Pallet::new();
    identity.register_user(Origin::signed(2), bytes("u"), bytes("t")).unwrap();
    service_provider.verify(&mut identity, Origin::signed(1), 2).unwrap();
    identity.update_info(Origin::signed(2), bytes("u2"), bytes("t2")).unwrap();
    assert!(!identity.get_identity(2).unwrap().verified);
    assert_eq!(service_provider.verify(&mut identity, Origin::signed(1), 2), Ok(()));
    assert!(identity.get_identity(2).unwrap().verified);
}

#[test]
fn decisions_of_each_call() {
    assert_eq!(decide_register_provider(true, bytes("a")), Err(Error::AlreadyRegistered));
    assert_eq!(
        decide_register_provider(false, bytes("a")),
        Ok(ProviderInfo { name: bytes("a"), votes: 0, verified: false })
    );

    assert!(matches!(decide_vote(1, None, None), Err(Error::NotRegistered)));
    let info = ProviderInfo { name: bytes("a"), votes: 1, verified: false };
    assert!(matches!(
        decide_vote(1, Some(info.clone()), Some(VotingInfo { votes: vec![3, 1] })),
        Err(Error::AlreadyVoted)
    ));
    match decide_vote(1, Some(info.clone()), Some(VotingInfo { votes: vec![3] })) {
        Ok(o) => {
            assert_eq!(o.provider_info, ProviderInfo { name: bytes("a"), votes: 2, verified: true });
            assert_eq!(o.voting_info, VotingInfo { votes: vec![3, 1] });
            assert!(o.reached);
        }
        Err(_) => panic!("the vote should be accepted"),
    }
    match decide_vote(1, Some(ProviderInfo { votes: 0, ..info.clone() }), None) {
        Ok(o) => {
            assert_eq!(o.provider_info.votes, 1);
            assert!(!o.provider_info.verified);
            assert_eq!(o.voting_info, VotingInfo { votes: vec![1] });
            assert!(!o.reached);
        }
        Err(_) => panic!("the vote should be accepted"),
    }

    assert_eq!(decide_verify(&None), Err(Error::NotRegistered));
    let user = UserInfo { username: bytes("u"), twitter: bytes("t"), verified: false };
    assert_eq!(decide_verify(&Some(user.clone())), Ok(()));
    assert_eq!(
        decide_verify(&Some(UserInfo { verified: true, ..user })),
        Err(Error::AlreadyVerified)
    );
}
