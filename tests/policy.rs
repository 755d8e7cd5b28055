use xcm_mock_runtime::asset::{
    Asset, AssetFilter, AssetId, AssetInstance, Fungibility, WildAsset, WildFungibility,
};
use xcm_mock_runtime::location::{BodyId, BodyPart, Junction, Location, NetworkId};
use xcm_mock_runtime::policy::{AccountId, RuntimeOrigin};
use xcm_mock_runtime::{ForeignCreators, TrustedLockerCase};

fn para(id: u32) -> Location {
    Location::new(1, vec![Junction::Parachain(id)])
}

fn relay_token(amount: u128) -> Asset {
    Asset { id: AssetId(Location::parent()), fun: Fungibility::Fungible(amount) }
}

fn account(b: u8) -> AccountId {
    AccountId { bytes: [b; 32] }
}

#[test]
fn relay_is_trusted_locker_of_relay_token() {
    let lockers = TrustedLockerCase::relay_token_for_relay();
    assert!(lockers.contains(&Location::parent(), &relay_token(1)));
    assert!(lockers.contains(&Location::parent(), &relay_token(u128::MAX)));
}

#[test]
fn other_origin_is_not_trusted_locker() {
    let lockers = TrustedLockerCase::relay_token_for_relay();
    assert!(!lockers.contains(&para(2000), &relay_token(1)));
    assert!(!lockers.contains(&Location::new(0, vec![]), &relay_token(1)));
}

#[test]
fn other_asset_is_not_trusted_to_relay() {
    let lockers = TrustedLockerCase::relay_token_for_relay();
    let foreign = Asset { id: AssetId(para(1000)), fun: Fungibility::Fungible(10) };
    let nft = Asset {
        id: AssetId(Location::parent()),
        fun: Fungibility::NonFungible(AssetInstance::Index(1)),
    };
    assert!(!lockers.contains(&Location::parent(), &foreign));
    assert!(!lockers.contains(&Location::parent(), &nft));
}

#[test]
fn definite_filter_covers_smaller_amounts_and_same_items() {
    let filter = AssetFilter::Definite(vec![relay_token(5), relay_token(7)]);
    assert!(filter.matches(&relay_token(7)));
    assert!(filter.matches(&relay_token(6)));
    assert!(!filter.matches(&relay_token(8)));
    assert!(!AssetFilter::Definite(vec![]).matches(&relay_token(5)));
    let foreign = Asset { id: AssetId(para(1000)), fun: Fungibility::Fungible(1) };
    assert!(!filter.matches(&foreign));
    let item = |n: u128| Asset {
        id: AssetId(para(1000)),
        fun: Fungibility::NonFungible(AssetInstance::Index(n)),
    };
    let items = AssetFilter::Definite(vec![item(3)]);
    assert!(items.matches(&item(3)));
    assert!(!items.matches(&item(4)));
    assert!(!items.matches(&Asset { id: AssetId(para(1000)), fun: Fungibility::Fungible(0) }));
}

#[test]
fn counted_wildcards_with_zero_count_match_nothing() {
    assert!(!AssetFilter::Wild(WildAsset::AllCounted(0)).matches(&relay_token(1)));
    assert!(AssetFilter::Wild(WildAsset::AllCounted(1)).matches(&relay_token(1)));
    assert!(AssetFilter::Wild(WildAsset::All).matches(&relay_token(1)));
    let counted = WildAsset::AllOfCounted {
        id: AssetId(Location::parent()),
        fun: WildFungibility::Fungible,
        count: 0,
    };
    assert!(!AssetFilter::Wild(counted).matches(&relay_token(1)));
}

#[test]
fn location_prefixes() {
    let collection = Location::new(1, vec![Junction::Parachain(2000), Junction::GeneralIndex(3)]);
    assert!(collection.starts_with(&para(2000)));
    assert!(collection.starts_with(&collection));
    assert!(collection.starts_with(&Location::parent()));
    assert!(!collection.starts_with(&para(2001)));
    assert!(!collection.starts_with(&Location::new(0, vec![Junction::Parachain(2000)])));
    assert!(!para(2000).starts_with(&collection));
}

#[test]
fn creation_by_containing_location_resolves_account() {
    let collection = Location::new(1, vec![Junction::Parachain(2000), Junction::GeneralIndex(3)]);
    let origin = RuntimeOrigin::Xcm(para(2000));
    let got = ForeignCreators::creator_location(&origin, &collection).unwrap();
    assert!(got.same_as(&para(2000)));
    match ForeignCreators::try_origin(origin, &collection, Some(account(9))) {
        Ok(acc) => assert_eq!(acc.bytes, [9u8; 32]),
        Err(_) => panic!("creation should be permitted"),
    }
}

#[test]
fn creation_by_the_collection_location_itself_is_permitted() {
    let collection = Location::new(1, vec![Junction::Parachain(2000), Junction::GeneralIndex(3)]);
    let origin = RuntimeOrigin::Xcm(collection.clone());
    assert!(ForeignCreators::try_origin(origin, &collection, Some(account(4))).is_ok());
}

#[test]
fn creation_by_other_origins_is_rejected() {
    let collection = Location::new(1, vec![Junction::Parachain(2000), Junction::GeneralIndex(3)]);
    let sibling = RuntimeOrigin::Xcm(para(2001));
    assert!(ForeignCreators::creator_location(&sibling, &collection).is_none());
    assert!(matches!(
        ForeignCreators::try_origin(sibling, &collection, Some(account(1))),
        Err(RuntimeOrigin::Xcm(_))
    ));
    assert!(matches!(
        ForeignCreators::try_origin(RuntimeOrigin::Root, &collection, Some(account(1))),
        Err(RuntimeOrigin::Root)
    ));
    assert!(matches!(
        ForeignCreators::try_origin(RuntimeOrigin::Signed(account(2)), &collection, Some(account(1))),
        Err(RuntimeOrigin::Signed(_))
    ));
    assert!(ForeignCreators::try_origin(RuntimeOrigin::Response(para(2000)), &collection, Some(account(1)))
        .is_err());
}

#[test]
fn creation_without_an_account_is_rejected() {
    let collection = Location::new(1, vec![Junction::Parachain(2000)]);
    let origin = RuntimeOrigin::Xcm(para(2000));
    assert!(ForeignCreators::try_origin(origin, &collection, None).is_err());
}

#[test]
fn prefixes_over_keys_bodies_and_networks() {
    let key = Junction::GeneralKey { length: 2, data: [1u8; 32] };
    let body = Junction::Plurality { id: BodyId::Index(3), part: BodyPart::Voice };
    let root = Location::new(2, vec![Junction::GlobalConsensus(NetworkId::Kusama)]);
    let deep = Location::new(2, vec![Junction::GlobalConsensus(NetworkId::Kusama), key, body]);
    assert!(deep.starts_with(&root));
    assert!(!deep.starts_with(&Location::new(2, vec![Junction::GlobalConsensus(NetworkId::Polkadot)])));
    let other_key = Junction::GeneralKey { length: 3, data: [1u8; 32] };
    assert!(!deep.starts_with(&Location::new(2, vec![Junction::GlobalConsensus(NetworkId::Kusama), other_key])));
    let other_body = Junction::Plurality { id: BodyId::Index(3), part: BodyPart::Members { count: 1 } };
    assert!(!deep.same_as(&Location::new(2, vec![Junction::GlobalConsensus(NetworkId::Kusama), key, other_body])));
}
