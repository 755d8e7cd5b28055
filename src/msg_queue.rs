use vstd::prelude::*;
use staging_xcm::v3::Xcm;
use staging_xcm::VersionedXcm;
use vstd::slice::slice_subrange;
use crate::location::{parent_model, Junction, Location, LocationModel};
use crate::codec::{
    blake2_256, blake2_256_of, decode_prefix, decode_versioned, encode_versioned, encoding_of,
    into_latest, latest_of,
};

verus! {

/// The identifier of a downward message: the digest of its bytes.
pub type MessageId = [u8; 32];

/// The digest of an encoded horizontal message.
pub type Hash = [u8; 32];

/// A computational budget: time and proof size.
#[derive(Clone, Copy, Debug, PartialEq, Eq, Structural)]
pub struct Weight {
    pub ref_time: u64,
    pub proof_size: u64,
}

impl Weight {
    pub open spec fn zero_spec() -> Weight {
        Weight { ref_time: 0, proof_size: 0 }
    }

    pub fn zero() -> (r: Weight)
        ensures
            r == Weight::zero_spec(),
    {
        Weight { ref_time: 0, proof_size: 0 }
    }

    pub fn from_parts(ref_time: u64, proof_size: u64) -> (r: Weight)
        ensures
            r.ref_time == ref_time && r.proof_size == proof_size,
    {
        Weight { ref_time, proof_size }
    }
}

/// Weight units of reference time in one second.
pub const WEIGHT_REF_TIME_PER_SECOND: u64 = 1_000_000_000_000;

/// The weight that each block reserves for horizontal messages: a quarter second.
pub fn reserved_xcmp_weight() -> (r: Weight)
    ensures
        r.ref_time == WEIGHT_REF_TIME_PER_SECOND / 4 && r.proof_size == 0,
{
    Weight::from_parts(WEIGHT_REF_TIME_PER_SECOND / 4, 0)
}

/// The weight that each block reserves for downward messages: a quarter second.
pub fn reserved_dmp_weight() -> (r: Weight)
    ensures
        r.ref_time == WEIGHT_REF_TIME_PER_SECOND / 4 && r.proof_size == 0,
{
    Weight::from_parts(WEIGHT_REF_TIME_PER_SECOND / 4, 0)
}

/// Why executing a message failed.
#[derive(Clone, Copy, Debug, PartialEq, Eq, Structural)]
pub enum XcmError {
    Overflow,
    Unimplemented,
    UntrustedReserveLocation,
    UntrustedTeleportLocation,
    LocationFull,
    LocationNotInvertible,
    BadOrigin,
    InvalidLocation,
    AssetNotFound,
    FailedToTransactAsset,
    NotWithdrawable,
    LocationCannotHold,
    ExceedsMaxMessageSize,
    DestinationUnsupported,
    Transport,
    Unroutable,
    UnknownClaim,
    FailedToDecode,
    MaxWeightInvalid,
    NotHoldingFees,
    TooExpensive,
    Trap(u64),
    ExpectationFalse,
    PalletNotFound,
    NameMismatch,
    VersionIncompatible,
    HoldingWouldOverflow,
    ExportError,
    ReanchorFailed,
    NoDeal,
    FeesNotMet,
    LockError,
    NoPermission,
    Unanchored,
    NotDepositable,
    UnhandledXcmVersion,
    WeightLimitReached(Weight),
    Barrier,
    WeightNotComputable,
    ExceedsStackLimit,
}

/// What the executor reports of one message.
#[derive(Clone, Copy, Debug, PartialEq, Eq, Structural)]
pub enum Outcome {
    /// Completed, using the given weight.
    Complete { used: Weight },
    /// Started but stopped on an error, after using the given weight.
    Incomplete { used: Weight, error: XcmError },
    /// Did not start.
    Error { error: XcmError },
}

/// A notification of the message queue.
#[derive(Clone, Copy, Debug)]
pub enum Event {
    /// A horizontal message was executed in full.
    Success(Option<Hash>),
    /// A horizontal message failed.
    Fail(Option<Hash>, XcmError),
    /// A horizontal message is of a version that cannot be executed.
    BadVersion(Option<Hash>),
    /// A horizontal message is malformed.
    BadFormat(Option<Hash>),
    /// A downward message does not decode.
    InvalidFormat(MessageId),
    /// A downward message is of a version that cannot be executed.
    UnsupportedVersion(MessageId),
    /// A downward message was executed with the given outcome.
    ExecutedDownward(MessageId, Outcome),
}

/// The state of the mock message queue.
pub struct Pallet {
    /// The identifier of this parachain.
    pub parachain_id: u32,
    /// The downward messages received and executed, oldest first.
    pub received_dmp: Vec<Xcm<()>>,
    /// The notifications emitted, oldest first.
    pub events: Vec<Event>,
}

/// What becomes of a downward message, given its bytes.
pub enum DownwardFate {
    InvalidFormat,
    UnsupportedVersion,
    Ready(Xcm<()>),
}

pub open spec fn downward_fate(data: Seq<u8>) -> DownwardFate {
    match decode_prefix(data) {
        None => DownwardFate::InvalidFormat,
        Some((v, _)) => match latest_of(v) {
            None => DownwardFate::UnsupportedVersion,
            Some(x) => DownwardFate::Ready(x),
        },
    }
}

/// The notification of a downward message that is dropped, with identifier `id`.
pub open spec fn dropped_event(fate: DownwardFate, e: Event, id: Seq<u8>) -> bool {
    match fate {
        DownwardFate::InvalidFormat => e matches Event::InvalidFormat(i) && i@ == id,
        DownwardFate::UnsupportedVersion => e matches Event::UnsupportedVersion(i) && i@ == id,
        DownwardFate::Ready(_) => false,
    }
}

/// `s1` is `s0` after the first half of the handling of the downward message `data`, which
/// returned `r`: a message that decodes and converts is handed out for execution with its
/// identifier, and nothing changes; any other is dropped with one notification.
pub open spec fn dmp_prepared(s0: Pallet, data: Seq<u8>, r: Option<(MessageId, Xcm<()>)>, s1: Pallet) -> bool {
    &&& s1.parachain_id == s0.parachain_id
    &&& s1.received_dmp@ == s0.received_dmp@
    &&& match r {
        Some((id, x)) => {
            &&& downward_fate(data) == DownwardFate::Ready(x)
            &&& id@ == blake2_256_of(data)
            &&& s1.events@ == s0.events@
        },
        None => {
            &&& !(downward_fate(data) is Ready)
            &&& s1.events@.len() == s0.events@.len() + 1
            &&& s1.events@.subrange(0, s0.events@.len() as int) == s0.events@
            &&& dropped_event(downward_fate(data), s1.events@.last(), blake2_256_of(data))
        },
    }
}

/// `s1` is `s0` after a downward message `x` with identifier `id` was executed with
/// `outcome`: the message is recorded, and one notification carries the outcome.
pub open spec fn dmp_recorded(s0: Pallet, id: MessageId, x: Xcm<()>, outcome: Outcome, s1: Pallet) -> bool {
    &&& s1.parachain_id == s0.parachain_id
    &&& s1.received_dmp@ == s0.received_dmp@.push(x)
    &&& s1.events@ == s0.events@.push(Event::ExecutedDownward(id, outcome))
}

/// What the handling of a horizontal message returns, given the executor's outcome, or none
/// where the message could not be converted to the executor's version.
pub open spec fn xcmp_result(outcome: Option<Outcome>) -> Result<Weight, XcmError> {
    match outcome {
        None => Err(XcmError::UnhandledXcmVersion),
        Some(Outcome::Error { error }) => Err(error),
        Some(Outcome::Complete { used }) => Ok(used),
        Some(Outcome::Incomplete { used, .. }) => Ok(used),
    }
}

/// The notification of a horizontal message with digest `hash`.
pub open spec fn xcmp_event(hash: Hash, outcome: Option<Outcome>) -> Event {
    match outcome {
        None => Event::BadVersion(Some(hash)),
        Some(Outcome::Error { error }) => Event::Fail(Some(hash), error),
        Some(Outcome::Complete { .. }) => Event::Success(Some(hash)),
        Some(Outcome::Incomplete { error, .. }) => Event::Fail(Some(hash), error),
    }
}

/// Why the data of a horizontal message cannot be split into messages.
#[derive(Clone, Copy, Debug, PartialEq, Eq, Structural)]
pub enum XcmpDataError {
    /// The data does not start with a known format marker.
    BadFormatMarker,
    /// A fragment after the marker does not decode.
    BadFragment,
}

/// Whether `data` starts with a format marker: the tag of one of the three message formats.
pub open spec fn format_marker_ok(data: Seq<u8>) -> bool {
    data.len() > 0 && data[0] <= 2
}

/// The versioned messages that `s` is the concatenation of, each decoded from the front of
/// what the previous one left; none where one does not decode.
pub open spec fn fragments_of(s: Seq<u8>) -> Option<Seq<VersionedXcm<()>>>
    decreases s.len(),
{
    if s.len() == 0 {
        Some(Seq::empty())
    } else {
        match decode_prefix(s) {
            Some((x, n)) => if n < s.len() {
                match fragments_of(s.subrange(s.len() - n, s.len() as int)) {
                    Some(t) => Some(seq![x] + t),
                    None => None,
                }
            } else {
                None
            },
            None => None,
        }
    }
}

pub open spec fn prepend_all(a: Seq<VersionedXcm<()>>, o: Option<Seq<VersionedXcm<()>>>) -> Option<
    Seq<VersionedXcm<()>>,
> {
    match o {
        Some(t) => Some(a + t),
        None => None,
    }
}

/// Decodes the fragments after the first byte of `data`.
fn split_fragments(data: &[u8]) -> (r: Option<Vec<VersionedXcm<()>>>)
    requires
        format_marker_ok(data@),
    ensures
        match fragments_of(data@.subrange(1, data@.len() as int)) {
            Some(t) => r matches Some(v) && v@ == t,
            None => r is None,
        },
{
    let len = data.len();
    let mut acc: Vec<VersionedXcm<()>> = Vec::new();
    let mut pos: usize = 1;
    assert(prepend_all(acc@, fragments_of(data@.subrange(1, len as int))) =~~= fragments_of(
        data@.subrange(1, len as int),
    )) by {
        if let Some(t) = fragments_of(data@.subrange(1, len as int)) {
            assert(acc@ + t =~= t);
        }
    }
    while pos < len
        invariant
            len == data@.len(),
            format_marker_ok(data@),
            1 <= pos <= len,
            fragments_of(data@.subrange(1, len as int)) == prepend_all(
                acc@,
                fragments_of(data@.subrange(pos as int, len as int)),
            ),
        decreases len - pos,
    {
        let rest = slice_subrange(data, pos, len);
        let ghost rs = rest@;
        match decode_versioned(rest) {
            None => {
                return None;
            },
            Some((x, n)) => {
                proof {
                    let tail = rs.subrange(rs.len() - n, rs.len() as int);
                    assert(tail =~= data@.subrange(len - n, len as int));
                    if let Some(t) = fragments_of(tail) {
                        assert(acc@ + (seq![x] + t) =~= acc@.push(x) + t);
                    }
                }
                acc.push(x);
                pos = len - n;
            },
        }
    }
    proof {
        assert(data@.subrange(pos as int, len as int) =~= Seq::<u8>::empty());
        assert(acc@ + Seq::<VersionedXcm<()>>::empty() =~= acc@);
    }
    Some(acc)
}

/// Whether the data of a horizontal message is well formed: a format marker, then a
/// concatenation of versioned messages.
pub open spec fn xcmp_data_ok(data: Seq<u8>) -> bool {
    format_marker_ok(data) && fragments_of(data.subrange(1, data.len() as int)) is Some
}

/// Splits well-formed data of a horizontal message into the versioned messages it
/// concatenates, after its format marker. The test network sends only well-formed data.
pub fn xcmp_messages(data: &[u8]) -> (r: Vec<VersionedXcm<()>>)
    requires
        xcmp_data_ok(data@),
    ensures
        fragments_of(data@.subrange(1, data@.len() as int)) == Some(r@),
{
    match split_fragments(data) {
        Some(v) => v,
        None => {
            proof {
                assert(false);
            }
            Vec::new()
        },
    }
}

/// Splits the data of a horizontal message into the versioned messages it concatenates,
/// after its format marker, or tells why it is malformed.
pub fn xcmp_fragments(data: &[u8]) -> (r: Result<Vec<VersionedXcm<()>>, XcmpDataError>)
    ensures
        !format_marker_ok(data@) ==> r == Err::<Vec<VersionedXcm<()>>, XcmpDataError>(
            XcmpDataError::BadFormatMarker,
        ),
        format_marker_ok(data@) ==> match fragments_of(data@.subrange(1, data@.len() as int)) {
            Some(t) => r matches Ok(v) && v@ == t,
            None => r == Err::<Vec<VersionedXcm<()>>, XcmpDataError>(XcmpDataError::BadFragment),
        },
{
    if data.len() == 0 || data[0] > 2 {
        return Err(XcmpDataError::BadFormatMarker);
    }
    match split_fragments(data) {
        None => Err(XcmpDataError::BadFragment),
        Some(v) => Ok(v),
    }
}

/// The origin, weight limit and weight credit handed to the executor with a message.
pub struct ExecutionParams {
    pub origin: Location,
    pub weight_limit: Weight,
    pub weight_credit: Weight,
}

/// A sibling parachain seen from this one: one step up, then its parachain junction.
pub open spec fn sibling_model(sender: u32) -> LocationModel {
    LocationModel { parents: 1, interior: seq![Junction::Parachain(sender)] }
}

/// What the executor is handed with a downward message: the relay chain as origin, the
/// given limit, and no credit.
pub fn dmp_execution(limit: Weight) -> (r: ExecutionParams)
    ensures
        r.origin@ == parent_model(),
        r.origin.wf(),
        r.weight_limit == limit,
        r.weight_credit == Weight::zero_spec(),
{
    ExecutionParams { origin: Location::parent(), weight_limit: limit, weight_credit: Weight::zero() }
}

/// What the executor is handed with a horizontal message from parachain `sender`: that
/// sibling as origin, the given limit, and no credit.
pub fn xcmp_execution(sender: u32, max_weight: Weight) -> (r: ExecutionParams)
    ensures
        r.origin@ == sibling_model(sender),
        r.origin.wf(),
        r.weight_limit == max_weight,
        r.weight_credit == Weight::zero_spec(),
{
    let mut interior: Vec<Junction> = Vec::new();
    interior.push(Junction::Parachain(sender));
    let origin = Location::new(1, interior);
    assert(origin@.interior =~= seq![Junction::Parachain(sender)]);
    ExecutionParams { origin, weight_limit: max_weight, weight_credit: Weight::zero() }
}

/// The first half of the handling of a horizontal message: its digest, and the message in
/// the executor's version where it converts.
pub fn prepare_xcmp_message(xcm: VersionedXcm<()>) -> (r: (Hash, Option<Xcm<()>>))
    ensures
        r.0@ == blake2_256_of(encoding_of(xcm)),
        r.1 == latest_of(xcm),
{
    let encoded = encode_versioned(&xcm);
    let hash = blake2_256(encoded.as_slice());
    (hash, into_latest(xcm))
}

impl Pallet {
    pub fn new() -> (r: Pallet)
        ensures
            r.parachain_id == 0,
            r.received_dmp@.len() == 0,
            r.events@.len() == 0,
    {
        Pallet { parachain_id: 0, received_dmp: Vec::new(), events: Vec::new() }
    }

    pub fn set_para_id(&mut self, para_id: u32)
        ensures
            final(self).parachain_id == para_id,
            final(self).received_dmp@ == old(self).received_dmp@,
            final(self).events@ == old(self).events@,
    {
        self.parachain_id = para_id;
    }

    /// The identifier of this parachain.
    pub fn get(&self) -> (r: u32)
        ensures
            r == self.parachain_id,
    {
        self.parachain_id
    }

    /// The identifier of this parachain.
    pub fn parachain_id(&self) -> (r: u32)
        ensures
            r == self.parachain_id,
    {
        self.parachain_id
    }

    /// The downward messages received and executed, oldest first.
    pub fn received_dmp(&self) -> (r: &Vec<Xcm<()>>)
        ensures
            r@ == self.received_dmp@,
    {
        &self.received_dmp
    }

    /// Records the outcome of a horizontal message with digest `hash`: `outcome` is what the
    /// executor reported, or none where the message could not be converted to its version.
    pub fn handle_xcmp_message(&mut self, hash: Hash, outcome: Option<Outcome>) -> (r: Result<Weight, XcmError>)
        ensures
            r == xcmp_result(outcome),
            final(self).events@ == old(self).events@.push(xcmp_event(hash, outcome)),
            final(self).parachain_id == old(self).parachain_id,
            final(self).received_dmp@ == old(self).received_dmp@,
    {
        let (result, event) = match outcome {
            None => (Err(XcmError::UnhandledXcmVersion), Event::BadVersion(Some(hash))),
            Some(Outcome::Error { error }) => (Err(error), Event::Fail(Some(hash), error)),
            Some(Outcome::Complete { used }) => (Ok(used), Event::Success(Some(hash))),
            Some(Outcome::Incomplete { used, error }) => (Ok(used), Event::Fail(Some(hash), error)),
        };
        self.events.push(event);
        result
    }

    /// The first half of the handling of a downward message: hashes and decodes it, and
    /// either hands it out for execution or drops it with a notification.
    pub fn prepare_dmp_message(&mut self, data: &[u8]) -> (r: Option<(MessageId, Xcm<()>)>)
        ensures
            dmp_prepared(*old(self), data@, r, *final(self)),
    {
        let ghost e0 = self.events@;
        let id = blake2_256(data);
        match decode_versioned(data) {
            None => {
                self.events.push(Event::InvalidFormat(id));
                assert(self.events@.subrange(0, e0.len() as int) =~= e0);
                None
            },
            Some((versioned, _)) => match into_latest(versioned) {
                None => {
                    self.events.push(Event::UnsupportedVersion(id));
                    assert(self.events@.subrange(0, e0.len() as int) =~= e0);
                    None
                },
                Some(x) => Some((id, x)),
            },
        }
    }

    /// The second half of the handling of a downward message: records the executed message
    /// and notifies its outcome.
    pub fn record_dmp_outcome(&mut self, id: MessageId, x: Xcm<()>, outcome: Outcome)
        ensures
            dmp_recorded(*old(self), id, x, outcome, *final(self)),
    {
        self.received_dmp.push(x);
        self.events.push(Event::ExecutedDownward(id, outcome));
    }
}

/// Each downward message that decodes and converts yields exactly one notification and is
/// recorded once; any other yields exactly one notification and is not recorded. A message
/// that does not decode is never recorded.
pub proof fn lemma_downward_handling(
    s0: Pallet,
    data: Seq<u8>,
    r: Option<(MessageId, Xcm<()>)>,
    s1: Pallet,
    outcome: Outcome,
    s2: Pallet,
)
    requires
        dmp_prepared(s0, data, r, s1),
        r matches Some((id, x)) ==> dmp_recorded(s1, id, x, outcome, s2),
        r is None ==> s2 == s1,
    ensures
        s2.events@.len() == s0.events@.len() + 1,
        s2.events@.subrange(0, s0.events@.len() as int) == s0.events@,
        downward_fate(data) matches DownwardFate::Ready(x) ==> s2.received_dmp@
            == s0.received_dmp@.push(x),
        !(downward_fate(data) is Ready) ==> s2.received_dmp@ == s0.received_dmp@,
        downward_fate(data) is InvalidFormat ==> s2.received_dmp@ == s0.received_dmp@,
{
    if let Some((id, x)) = r {
        assert(s2.events@.subrange(0, s0.events@.len() as int) =~= s0.events@);
    }
}

} // verus!
