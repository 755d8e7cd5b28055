use vstd::prelude::*;

verus! {

/// A consensus system: a chain or a family of chains.
#[derive(Clone, Copy, Debug)]
pub enum NetworkId {
    ByGenesis([u8; 32]),
    ByFork { block_number: u64, block_hash: [u8; 32] },
    Polkadot,
    Kusama,
    Westend,
    Rococo,
    Wococo,
    Ethereum { chain_id: u64 },
    BitcoinCore,
    BitcoinCash,
    PolkadotBulletin,
}

/// A pluralistic body.
#[derive(Clone, Copy, Debug)]
pub enum BodyId {
    Unit,
    Moniker([u8; 4]),
    Index(u32),
    Executive,
    Technical,
    Legislative,
    Judicial,
    Defense,
    Administration,
    Treasury,
}

/// A part of a pluralistic body.
#[derive(Clone, Copy, Debug, PartialEq, Eq, Structural)]
pub enum BodyPart {
    Voice,
    Members { count: u32 },
    Fraction { nom: u32, denom: u32 },
    AtLeastProportion { nom: u32, denom: u32 },
    MoreThanProportion { nom: u32, denom: u32 },
}

/// One step of an interior location path.
#[derive(Clone, Copy, Debug)]
pub enum Junction {
    Parachain(u32),
    AccountId32 { network: Option<NetworkId>, id: [u8; 32] },
    AccountIndex64 { network: Option<NetworkId>, index: u64 },
    AccountKey20 { network: Option<NetworkId>, key: [u8; 20] },
    PalletInstance(u8),
    GeneralIndex(u128),
    GeneralKey { length: u8, data: [u8; 32] },
    OnlyChild,
    Plurality { id: BodyId, part: BodyPart },
    GlobalConsensus(NetworkId),
}

/// Whether two fixed-size byte strings are equal.
pub fn bytes_eq<const N: usize>(a: &[u8; N], b: &[u8; N]) -> (r: bool)
    ensures
        r == (*a == *b),
{
    let mut i: usize = 0;
    while i < N
        invariant
            i <= N,
            a@.len() == N,
            b@.len() == N,
            forall|k: int| 0 <= k < i ==> a@[k] == b@[k],
        decreases N - i,
    {
        if a[i] != b[i] {
            return false;
        }
        i = i + 1;
    }
    assert(*a =~= *b);
    true
}

/// Whether two networks are equal.
pub fn network_eq(a: &NetworkId, b: &NetworkId) -> (r: bool)
    ensures
        r == (*a == *b),
{
    match (a, b) {
        (NetworkId::ByGenesis(x), NetworkId::ByGenesis(y)) => bytes_eq(x, y),
        (
            NetworkId::ByFork { block_number: n1, block_hash: h1 },
            NetworkId::ByFork { block_number: n2, block_hash: h2 },
        ) => *n1 == *n2 && bytes_eq(h1, h2),
        (NetworkId::Polkadot, NetworkId::Polkadot) => true,
        (NetworkId::Kusama, NetworkId::Kusama) => true,
        (NetworkId::Westend, NetworkId::Westend) => true,
        (NetworkId::Rococo, NetworkId::Rococo) => true,
        (NetworkId::Wococo, NetworkId::Wococo) => true,
        (NetworkId::Ethereum { chain_id: c1 }, NetworkId::Ethereum { chain_id: c2 }) => *c1 == *c2,
        (NetworkId::BitcoinCore, NetworkId::BitcoinCore) => true,
        (NetworkId::BitcoinCash, NetworkId::BitcoinCash) => true,
        (NetworkId::PolkadotBulletin, NetworkId::PolkadotBulletin) => true,
        _ => false,
    }
}

/// Whether two optional networks are equal.
pub fn opt_network_eq(a: &Option<NetworkId>, b: &Option<NetworkId>) -> (r: bool)
    ensures
        r == (*a == *b),
{
    match (a, b) {
        (Some(x), Some(y)) => network_eq(x, y),
        (None, None) => true,
        _ => false,
    }
}

/// Whether two bodies are equal.
pub fn body_eq(a: &BodyId, b: &BodyId) -> (r: bool)
    ensures
        r == (*a == *b),
{
    match (a, b) {
        (BodyId::Unit, BodyId::Unit) => true,
        (BodyId::Moniker(x), BodyId::Moniker(y)) => bytes_eq(x, y),
        (BodyId::Index(x), BodyId::Index(y)) => *x == *y,
        (BodyId::Executive, BodyId::Executive) => true,
        (BodyId::Technical, BodyId::Technical) => true,
        (BodyId::Legislative, BodyId::Legislative) => true,
        (BodyId::Judicial, BodyId::Judicial) => true,
        (BodyId::Defense, BodyId::Defense) => true,
        (BodyId::Administration, BodyId::Administration) => true,
        (BodyId::Treasury, BodyId::Treasury) => true,
        _ => false,
    }
}

/// Whether two junctions are equal.
pub fn junction_eq(a: &Junction, b: &Junction) -> (r: bool)
    ensures
        r == (*a == *b),
{
    match (a, b) {
        (Junction::Parachain(x), Junction::Parachain(y)) => *x == *y,
        (
            Junction::AccountId32 { network: n1, id: i1 },
            Junction::AccountId32 { network: n2, id: i2 },
        ) => opt_network_eq(n1, n2) && bytes_eq(i1, i2),
        (
            Junction::AccountIndex64 { network: n1, index: i1 },
            Junction::AccountIndex64 { network: n2, index: i2 },
        ) => opt_network_eq(n1, n2) && *i1 == *i2,
        (
            Junction::AccountKey20 { network: n1, key: k1 },
            Junction::AccountKey20 { network: n2, key: k2 },
        ) => opt_network_eq(n1, n2) && bytes_eq(k1, k2),
        (Junction::PalletInstance(x), Junction::PalletInstance(y)) => *x == *y,
        (Junction::GeneralIndex(x), Junction::GeneralIndex(y)) => *x == *y,
        (
            Junction::GeneralKey { length: l1, data: d1 },
            Junction::GeneralKey { length: l2, data: d2 },
        ) => *l1 == *l2 && bytes_eq(d1, d2),
        (Junction::OnlyChild, Junction::OnlyChild) => true,
        (Junction::Plurality { id: i1, part: p1 }, Junction::Plurality { id: i2, part: p2 }) =>
            body_eq(i1, i2) && *p1 == *p2,
        (Junction::GlobalConsensus(x), Junction::GlobalConsensus(y)) => network_eq(x, y),
        _ => false,
    }
}

/// A relative location: a number of steps up, then a path down.
#[derive(Clone, Debug)]
pub struct Location {
    pub parents: u8,
    pub interior: Vec<Junction>,
}

/// What a location means: its parent count and its interior path.
pub struct LocationModel {
    pub parents: u8,
    pub interior: Seq<Junction>,
}

impl View for Location {
    type V = LocationModel;

    open spec fn view(&self) -> LocationModel {
        LocationModel { parents: self.parents, interior: self.interior@ }
    }
}

/// `loc` lies at or below `prefix`: same parents, and `prefix`'s path begins `loc`'s path.
pub open spec fn starts_with_spec(loc: LocationModel, prefix: LocationModel) -> bool {
    &&& loc.parents == prefix.parents
    &&& prefix.interior.len() <= loc.interior.len()
    &&& loc.interior.subrange(0, prefix.interior.len() as int) == prefix.interior
}

/// The most junctions that a location's path holds.
pub const MAX_JUNCTIONS: usize = 8;

/// A location is well formed when its path holds at most `MAX_JUNCTIONS` junctions.
pub open spec fn location_wf(l: LocationModel) -> bool {
    l.interior.len() <= MAX_JUNCTIONS
}

/// The relay chain seen from a parachain: one step up, nothing below.
pub open spec fn parent_model() -> LocationModel {
    LocationModel { parents: 1, interior: Seq::empty() }
}

impl Location {
    pub open spec fn wf(&self) -> bool {
        location_wf(self@)
    }

    pub fn new(parents: u8, interior: Vec<Junction>) -> (r: Location)
        requires
            interior@.len() <= MAX_JUNCTIONS,
        ensures
            r@ == (LocationModel { parents, interior: interior@ }),
            r.wf(),
    {
        Location { parents, interior }
    }

    /// The parent location (the relay chain, seen from a parachain).
    pub fn parent() -> (r: Location)
        ensures
            r@ == parent_model(),
            r.wf(),
    {
        let r = Location { parents: 1, interior: Vec::new() };
        assert(r@.interior =~= Seq::empty());
        r
    }

    /// A copy of this location.
    pub fn copy_of(&self) -> (r: Location)
        ensures
            r@ == self@,
    {
        let r = Location { parents: self.parents, interior: self.interior.clone() };
        assert(r.interior@ =~= self.interior@);
        r
    }

    /// Whether `self` lies at or below `prefix`.
    pub fn starts_with(&self, prefix: &Location) -> (r: bool)
        ensures
            r == starts_with_spec(self@, prefix@),
    {
        if self.parents != prefix.parents || prefix.interior.len() > self.interior.len() {
            return false;
        }
        let n = prefix.interior.len();
        let mut i: usize = 0;
        while i < n
            invariant
                n == prefix.interior.len(),
                n <= self.interior.len(),
                i <= n,
                forall|k: int| 0 <= k < i ==> self.interior@[k] == prefix.interior@[k],
            decreases n - i,
        {
            if !junction_eq(&self.interior[i], &prefix.interior[i]) {
                assert(self.interior@.subrange(0, n as int)[i as int] != prefix.interior@[i as int]);
                return false;
            }
            i = i + 1;
        }
        assert(self.interior@.subrange(0, n as int) =~= prefix.interior@);
        true
    }

    /// Whether two locations are the same.
    pub fn same_as(&self, other: &Location) -> (r: bool)
        ensures
            r == (self@ == other@),
    {
        if self.parents != other.parents || self.interior.len() != other.interior.len() {
            return false;
        }
        let r = self.starts_with(other);
        proof {
            if r {
                assert(self@.interior =~= other@.interior);
            } else if self@ == other@ {
                assert(self@.interior.subrange(0, other@.interior.len() as int) =~= other@.interior);
            }
        }
        r
    }
}

} // verus!
