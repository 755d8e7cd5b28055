use vstd::prelude::*;
use crate::location::{bytes_eq, Location, LocationModel};

verus! {

/// Which unique item of a non-fungible class is meant.
#[derive(Clone, Copy, Debug)]
pub enum AssetInstance {
    Undefined,
    Index(u128),
    Array4([u8; 4]),
    Array8([u8; 8]),
    Array16([u8; 16]),
    Array32([u8; 32]),
}

/// An amount of a fungible asset, or one item of a non-fungible one.
#[derive(Clone, Copy, Debug)]
pub enum Fungibility {
    Fungible(u128),
    NonFungible(AssetInstance),
}

/// The class of an asset, named by the location that issues it.
#[derive(Clone, Debug)]
pub struct AssetId(pub Location);

/// A concrete asset: its class and how much of it (or which item).
#[derive(Clone, Debug)]
pub struct Asset {
    pub id: AssetId,
    pub fun: Fungibility,
}

/// The kind of a class: fungible or not.
#[derive(Clone, Copy, Debug, PartialEq, Eq, Structural)]
pub enum WildFungibility {
    Fungible,
    NonFungible,
}

/// A filter over assets that names no amounts.
#[derive(Clone, Debug)]
pub enum WildAsset {
    All,
    AllOf { id: AssetId, fun: WildFungibility },
    AllCounted(u32),
    AllOfCounted { id: AssetId, fun: WildFungibility, count: u32 },
}

/// A filter over assets: a definite list, or a wildcard.
#[derive(Clone, Debug)]
pub enum AssetFilter {
    Definite(Vec<Asset>),
    Wild(WildAsset),
}

pub struct AssetModel {
    pub id: LocationModel,
    pub fun: Fungibility,
}

pub enum WildAssetModel {
    All,
    AllOf { id: LocationModel, fun: WildFungibility },
    AllCounted(u32),
    AllOfCounted { id: LocationModel, fun: WildFungibility, count: u32 },
}

pub enum AssetFilterModel {
    Definite(Seq<AssetModel>),
    Wild(WildAssetModel),
}

impl View for Asset {
    type V = AssetModel;

    open spec fn view(&self) -> AssetModel {
        AssetModel { id: self.id.0@, fun: self.fun }
    }
}

impl View for WildAsset {
    type V = WildAssetModel;

    open spec fn view(&self) -> WildAssetModel {
        match self {
            WildAsset::All => WildAssetModel::All,
            WildAsset::AllOf { id, fun } => WildAssetModel::AllOf { id: id.0@, fun: *fun },
            WildAsset::AllCounted(n) => WildAssetModel::AllCounted(*n),
            WildAsset::AllOfCounted { id, fun, count } => WildAssetModel::AllOfCounted {
                id: id.0@,
                fun: *fun,
                count: *count,
            },
        }
    }
}

impl View for AssetFilter {
    type V = AssetFilterModel;

    open spec fn view(&self) -> AssetFilterModel {
        match self {
            AssetFilter::Definite(v) => AssetFilterModel::Definite(asset_views(v@)),
            AssetFilter::Wild(w) => AssetFilterModel::Wild(w@),
        }
    }
}

/// The views of a list of assets.
pub open spec fn asset_views(v: Seq<Asset>) -> Seq<AssetModel> {
    v.map_values(|a: Asset| a@)
}

/// Whether an amount or item is of the given kind.
pub open spec fn is_kind_spec(fun: Fungibility, kind: WildFungibility) -> bool {
    match fun {
        Fungibility::Fungible(_) => kind == WildFungibility::Fungible,
        Fungibility::NonFungible(_) => kind == WildFungibility::NonFungible,
    }
}

/// Whether a wildcard covers an asset. A count of zero covers nothing.
pub open spec fn wild_contains_spec(w: WildAssetModel, a: AssetModel) -> bool {
    match w {
        WildAssetModel::All => true,
        WildAssetModel::AllCounted(n) => n != 0,
        WildAssetModel::AllOf { id, fun } => is_kind_spec(a.fun, fun) && a.id == id,
        WildAssetModel::AllOfCounted { id, fun, count } => count != 0 && is_kind_spec(a.fun, fun)
            && a.id == id,
    }
}

/// Whether `held` covers `inner`: the same class, and at least the amount asked for, or the
/// same item.
pub open spec fn asset_contains_spec(held: AssetModel, inner: AssetModel) -> bool {
    &&& held.id == inner.id
    &&& match (held.fun, inner.fun) {
        (Fungibility::Fungible(a), Fungibility::Fungible(i)) => a >= i,
        (Fungibility::NonFungible(a), Fungibility::NonFungible(i)) => a == i,
        _ => false,
    }
}

/// Whether some asset of `list` covers `inner`.
pub open spec fn list_contains_spec(list: Seq<AssetModel>, inner: AssetModel) -> bool {
    exists|i: int| 0 <= i < list.len() && #[trigger] asset_contains_spec(list[i], inner)
}

/// Whether a filter covers an asset: an asset of a definite list covers it, or the wildcard
/// covers it.
pub open spec fn matches_spec(f: AssetFilterModel, a: AssetModel) -> bool {
    match f {
        AssetFilterModel::Definite(list) => list_contains_spec(list, a),
        AssetFilterModel::Wild(w) => wild_contains_spec(w, a),
    }
}

pub fn instance_eq(a: &AssetInstance, b: &AssetInstance) -> (r: bool)
    ensures
        r == (*a == *b),
{
    match (a, b) {
        (AssetInstance::Undefined, AssetInstance::Undefined) => true,
        (AssetInstance::Index(x), AssetInstance::Index(y)) => *x == *y,
        (AssetInstance::Array4(x), AssetInstance::Array4(y)) => bytes_eq(x, y),
        (AssetInstance::Array8(x), AssetInstance::Array8(y)) => bytes_eq(x, y),
        (AssetInstance::Array16(x), AssetInstance::Array16(y)) => bytes_eq(x, y),
        (AssetInstance::Array32(x), AssetInstance::Array32(y)) => bytes_eq(x, y),
        _ => false,
    }
}

impl Fungibility {
    /// Whether this amount or item is of the given kind.
    pub fn is_kind(&self, kind: WildFungibility) -> (r: bool)
        ensures
            r == is_kind_spec(*self, kind),
    {
        match self {
            Fungibility::Fungible(_) => kind == WildFungibility::Fungible,
            Fungibility::NonFungible(_) => kind == WildFungibility::NonFungible,
        }
    }
}

impl Asset {
    /// Whether this asset covers `inner`: the same class, and at least the amount asked for,
    /// or the same item.
    pub fn contains(&self, inner: &Asset) -> (r: bool)
        ensures
            r == asset_contains_spec(self@, inner@),
    {
        if !self.id.0.same_as(&inner.id.0) {
            return false;
        }
        match (&self.fun, &inner.fun) {
            (Fungibility::Fungible(a), Fungibility::Fungible(i)) => *a >= *i,
            (Fungibility::NonFungible(a), Fungibility::NonFungible(i)) => instance_eq(a, i),
            _ => false,
        }
    }
}

impl WildAsset {
    /// Whether this wildcard covers `inner`.
    pub fn contains(&self, inner: &Asset) -> (r: bool)
        ensures
            r == wild_contains_spec(self@, inner@),
    {
        match self {
            WildAsset::All => true,
            WildAsset::AllCounted(n) => *n != 0,
            WildAsset::AllOf { id, fun } => inner.fun.is_kind(*fun) && inner.id.0.same_as(&id.0),
            WildAsset::AllOfCounted { id, fun, count } => *count != 0 && inner.fun.is_kind(*fun)
                && inner.id.0.same_as(&id.0),
        }
    }
}

impl AssetFilter {
    /// Whether this filter covers `inner`.
    pub fn matches(&self, inner: &Asset) -> (r: bool)
        ensures
            r == matches_spec(self@, inner@),
    {
        match self {
            AssetFilter::Definite(list) => {
                let mut i: usize = 0;
                while i < list.len()
                    invariant
                        i <= list.len(),
                        self@ == AssetFilterModel::Definite(asset_views(list@)),
                        forall|k: int| 0 <= k < i ==> !asset_contains_spec(list@[k]@, inner@),
                    decreases list.len() - i,
                {
                    if list[i].contains(inner) {
                        proof {
                            let m = asset_views(list@);
                            assert(m.len() == list@.len());
                            assert(asset_contains_spec(m[i as int], inner@));
                        }
                        return true;
                    }
                    i = i + 1;
                }
                proof {
                    let m = asset_views(list@);
                    assert forall|k: int| 0 <= k < m.len() implies !asset_contains_spec(m[k], inner@) by {
                        assert(!asset_contains_spec(list@[k]@, inner@));
                    }
                }
                false
            },
            AssetFilter::Wild(w) => w.contains(inner),
        }
    }
}

} // verus!
