use vstd::prelude::*;
use crate::asset::{
    is_kind_spec, matches_spec, Asset, AssetFilter, AssetFilterModel, AssetId, AssetModel,
    WildAsset, WildAssetModel, WildFungibility,
};
use crate::location::{parent_model, starts_with_spec, Location, LocationModel};

verus! {

/// A 32-byte account identifier.
#[derive(Clone, Copy, Debug)]
pub struct AccountId {
    pub bytes: [u8; 32],
}

/// The origin of a call into the runtime.
#[derive(Clone, Debug)]
pub enum RuntimeOrigin {
    Root,
    Signed(AccountId),
    Unsigned,
    /// A cross-chain message whose sender is the given location.
    Xcm(Location),
    /// A response to a query, sent from the given location.
    Response(Location),
}

pub enum OriginModel {
    Root,
    Signed(AccountId),
    Unsigned,
    Xcm(LocationModel),
    Response(LocationModel),
}

impl View for RuntimeOrigin {
    type V = OriginModel;

    open spec fn view(&self) -> OriginModel {
        match self {
            RuntimeOrigin::Root => OriginModel::Root,
            RuntimeOrigin::Signed(a) => OriginModel::Signed(*a),
            RuntimeOrigin::Unsigned => OriginModel::Unsigned,
            RuntimeOrigin::Xcm(l) => OriginModel::Xcm(l@),
            RuntimeOrigin::Response(l) => OriginModel::Response(l@),
        }
    }
}

/// A predicate over (origin, asset) pairs that trusts one location to lock the assets that
/// one filter covers.
#[derive(Clone, Debug)]
pub struct TrustedLockerCase {
    pub location: Location,
    pub filter: AssetFilter,
}

/// The filter of the relay chain's own token, of any amount.
pub open spec fn relay_token_filter() -> AssetFilterModel {
    AssetFilterModel::Wild(WildAssetModel::AllOf { id: parent_model(), fun: WildFungibility::Fungible })
}

/// Whether a locker predicate holds of (`origin`, `asset`).
pub open spec fn trusted_locker_spec(
    location: LocationModel,
    filter: AssetFilterModel,
    origin: LocationModel,
    asset: AssetModel,
) -> bool {
    matches_spec(filter, asset) && location == origin
}

impl TrustedLockerCase {
    /// The trusted locker of this parachain: the relay chain, for the relay chain's token.
    pub fn relay_token_for_relay() -> (r: TrustedLockerCase)
        ensures
            r.location@ == parent_model(),
            r.location.wf(),
            r.filter@ == relay_token_filter(),
    {
        TrustedLockerCase {
            location: Location::parent(),
            filter: AssetFilter::Wild(
                WildAsset::AllOf { id: AssetId(Location::parent()), fun: WildFungibility::Fungible },
            ),
        }
    }

    /// Whether `origin` is the trusted location and `asset` is covered by the trusted filter.
    pub fn contains(&self, origin: &Location, asset: &Asset) -> (r: bool)
        ensures
            r == trusted_locker_spec(self.location@, self.filter@, origin@, asset@),
    {
        self.filter.matches(asset) && self.location.same_as(origin)
    }
}

/// The relay chain is trusted to lock exactly the relay token, of any amount, and nothing
/// else is trusted: the predicate holds of (`origin`, `asset`) if and only if both `origin`
/// and the asset's class are the parent location and the asset is fungible.
pub proof fn lemma_relay_token_locker(origin: LocationModel, asset: AssetModel)
    ensures
        trusted_locker_spec(parent_model(), relay_token_filter(), origin, asset) <==> (origin
            == parent_model() && asset.id == parent_model() && is_kind_spec(
            asset.fun,
            WildFungibility::Fungible,
        )),
{
}

/// Checks that a foreign asset collection is created only by its own location.
pub struct ForeignCreators;

/// The location on whose behalf `o` may create the collection at `a`: the sender of a
/// cross-chain message at or above `a`. Any other origin may not.
pub open spec fn creator_spec(o: OriginModel, a: LocationModel) -> Option<LocationModel> {
    match o {
        OriginModel::Xcm(l) => if starts_with_spec(a, l) {
            Some(l)
        } else {
            None
        },
        _ => None,
    }
}

/// The account that creates the collection at `a` for `o`, where `account` is what the
/// location converter gives for the origin's location: none when `o` may not create it or
/// the location has no account.
pub open spec fn try_origin_spec(o: OriginModel, a: LocationModel, account: Option<AccountId>) -> Option<
    AccountId,
> {
    match creator_spec(o, a) {
        Some(_) => account,
        None => None,
    }
}

/// Creation of a collection is permitted to a cross-chain origin whose location is a prefix
/// (strict or not) of the collection's location, and resolves to that location's account;
/// every other origin is rejected.
pub proof fn lemma_foreign_creation(o: OriginModel, a: LocationModel, account: Option<AccountId>)
    ensures
        o matches OriginModel::Xcm(l) && starts_with_spec(a, l) ==> try_origin_spec(o, a, account)
            == account,
        !(o matches OriginModel::Xcm(l) && starts_with_spec(a, l)) ==> try_origin_spec(
            o,
            a,
            account,
        ) is None,
        try_origin_spec(OriginModel::Xcm(a), a, account) == account,
{
    assert(a.interior.subrange(0, a.interior.len() as int) =~= a.interior);
}

impl ForeignCreators {
    /// The location that would own a collection created at `a` by `o`, if `o` may create it.
    pub fn creator_location(o: &RuntimeOrigin, a: &Location) -> (r: Option<Location>)
        ensures
            r matches Some(l) ==> creator_spec(o@, a@) == Some(l@),
            r is None ==> creator_spec(o@, a@) is None,
    {
        match o {
            RuntimeOrigin::Xcm(l) => {
                if a.starts_with(l) {
                    Some(l.copy_of())
                } else {
                    None
                }
            },
            _ => None,
        }
    }

    /// Admits `o` to create the collection at `a` and gives the creating account, or hands
    /// `o` back. `account` is what the location converter gives for the location of `o`.
    pub fn try_origin(o: RuntimeOrigin, a: &Location, account: Option<AccountId>) -> (r: Result<
        AccountId,
        RuntimeOrigin,
    >)
        ensures
            r matches Ok(acc) ==> try_origin_spec(o@, a@, account) == Some(acc),
            r is Err ==> try_origin_spec(o@, a@, account) is None && r == Err::<AccountId, RuntimeOrigin>(o),
    {
        match Self::creator_location(&o, a) {
            None => Err(o),
            Some(_) => match account {
                Some(acc) => Ok(acc),
                None => Err(o),
            },
        }
    }
}

} // verus!
