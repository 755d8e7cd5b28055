use parity_scale_codec::Encode;
use staging_xcm::v3::{Instruction, Xcm};
use staging_xcm::{v2, VersionedXcm};
use xcm_mock_runtime::location::{Junction, Location};
use xcm_mock_runtime::msg_queue::{
    dmp_execution, prepare_xcmp_message, xcmp_execution, xcmp_fragments, xcmp_messages, Outcome,
    Weight, XcmError, XcmpDataError,
};
use xcm_mock_runtime::{Event, Pallet};

fn good_message() -> VersionedXcm<()> {
    VersionedXcm::V3(Xcm(vec![Instruction::ClearOrigin, Instruction::ClearTopic]))
}

fn unconvertible_message() -> VersionedXcm<()> {
    let asset = v2::MultiAsset {
        id: v2::AssetId::Abstract(vec![7u8; 33]),
        fun: v2::Fungibility::Fungible(5),
    };
    VersionedXcm::V2(v2::Xcm(vec![v2::Instruction::WithdrawAsset(v2::MultiAssets::from(vec![asset]))]))
}

#[test]
fn para_id_is_stored() {
    let mut p = Pallet::new();
    assert_eq!(p.get(), 0);
    p.set_para_id(2000);
    assert_eq!(p.get(), 2000);
    assert_eq!(p.parachain_id(), 2000);
}

#[test]
fn malformed_downward_message_is_dropped() {
    let mut p = Pallet::new();
    let data = vec![0xffu8, 1, 2];
    assert!(p.prepare_dmp_message(&data).is_none());
    assert_eq!(p.events.len(), 1);
    assert!(p.received_dmp.is_empty());
    match p.events[0] {
        Event::InvalidFormat(id) => {
            assert_eq!(id, sp_crypto_hashing::blake2_256(&data));
            assert_ne!(id[..3], data[..]);
        },
        _ => panic!("expected an invalid-format notification"),
    }
}

#[test]
fn empty_downward_message_is_dropped() {
    let mut p = Pallet::new();
    assert!(p.prepare_dmp_message(&[]).is_none());
    assert!(matches!(p.events[0], Event::InvalidFormat(_)));
    assert!(p.received_dmp.is_empty());
}

#[test]
fn unsupported_downward_message_is_dropped() {
    let mut p = Pallet::new();
    let data = unconvertible_message().encode();
    assert!(p.prepare_dmp_message(&data).is_none());
    assert_eq!(p.events.len(), 1);
    assert!(p.received_dmp.is_empty());
    match p.events[0] {
        Event::UnsupportedVersion(id) => assert_eq!(id, sp_crypto_hashing::blake2_256(&data)),
        _ => panic!("expected an unsupported-version notification"),
    }
}

#[test]
fn well_formed_downward_message_is_executed_and_recorded() {
    let mut p = Pallet::new();
    let data = good_message().encode();
    let (id, x) = p.prepare_dmp_message(&data).expect("message decodes");
    assert!(p.events.is_empty());
    assert_eq!(id, sp_crypto_hashing::blake2_256(&data));
    assert_eq!(x, Xcm(vec![Instruction::ClearOrigin, Instruction::ClearTopic]));
    let used = Weight::from_parts(10, 0);
    p.record_dmp_outcome(id, x.clone(), Outcome::Complete { used });
    assert_eq!(p.received_dmp(), &vec![x]);
    assert_eq!(p.events.len(), 1);
    match p.events[0] {
        Event::ExecutedDownward(eid, Outcome::Complete { used: u }) => {
            assert_eq!(eid, id);
            assert!(u == used);
        },
        _ => panic!("expected an executed notification"),
    }
}

#[test]
fn horizontal_outcomes_are_reported() {
    let mut p = Pallet::new();
    let h = [3u8; 32];
    let w = Weight::from_parts(5, 1);
    assert!(matches!(p.handle_xcmp_message(h, Some(Outcome::Complete { used: w })), Ok(u) if u == w));
    assert!(matches!(p.events[0], Event::Success(Some(x)) if x == h));
    let r = p.handle_xcmp_message(h, Some(Outcome::Incomplete { used: w, error: XcmError::Barrier }));
    assert!(matches!(r, Ok(u) if u == w));
    assert!(matches!(p.events[1], Event::Fail(Some(_), XcmError::Barrier)));
    let r = p.handle_xcmp_message(h, Some(Outcome::Error { error: XcmError::TooExpensive }));
    assert!(matches!(r, Err(XcmError::TooExpensive)));
    assert!(matches!(p.events[2], Event::Fail(Some(_), XcmError::TooExpensive)));
    let r = p.handle_xcmp_message(h, None);
    assert!(matches!(r, Err(XcmError::UnhandledXcmVersion)));
    assert!(matches!(p.events[3], Event::BadVersion(Some(_))));
    assert_eq!(p.events.len(), 4);
}

#[test]
fn horizontal_data_splits_into_fragments() {
    let mut data = vec![0u8];
    data.extend(good_message().encode());
    data.extend(unconvertible_message().encode());
    let fragments = xcmp_fragments(&data).expect("data splits");
    assert_eq!(fragments.len(), 2);
    assert_eq!(fragments[0], good_message());
    assert_eq!(fragments[1], unconvertible_message());
}

#[test]
fn horizontal_data_with_only_a_marker_is_empty() {
    assert_eq!(xcmp_fragments(&[2u8]).unwrap().len(), 0);
}

#[test]
fn horizontal_data_errors() {
    assert!(matches!(xcmp_fragments(&[]), Err(XcmpDataError::BadFormatMarker)));
    assert!(matches!(xcmp_fragments(&[3u8, 3]), Err(XcmpDataError::BadFormatMarker)));
    assert!(matches!(xcmp_fragments(&[0u8, 0xff]), Err(XcmpDataError::BadFragment)));
}

#[test]
fn horizontal_message_is_hashed_and_converted() {
    let msg = good_message();
    let (hash, converted) = prepare_xcmp_message(msg.clone());
    assert_eq!(hash, sp_crypto_hashing::blake2_256(&msg.encode()));
    assert_eq!(converted, Some(Xcm(vec![Instruction::ClearOrigin, Instruction::ClearTopic])));
    let (_, unconverted) = prepare_xcmp_message(unconvertible_message());
    assert!(unconverted.is_none());
}

#[test]
fn reserved_weights_are_a_quarter_second() {
    let x = xcm_mock_runtime::msg_queue::reserved_xcmp_weight();
    let d = xcm_mock_runtime::msg_queue::reserved_dmp_weight();
    assert_eq!((x.ref_time, x.proof_size), (250_000_000_000, 0));
    assert_eq!((d.ref_time, d.proof_size), (250_000_000_000, 0));
}

#[test]
fn deeply_nested_downward_message_is_dropped() {
    let mut data = vec![2u8];
    for _ in 0..20_000 {
        data.extend([4u8, 22]);
    }
    data.push(0);
    let mut p = Pallet::new();
    assert!(p.prepare_dmp_message(&data).is_none());
    assert!(matches!(p.events[0], Event::InvalidFormat(_)));
    assert!(p.received_dmp().is_empty());
}

#[test]
fn well_formed_horizontal_data_splits() {
    let mut data = vec![1u8];
    data.extend(good_message().encode());
    let messages = xcmp_messages(&data);
    assert_eq!(messages, vec![good_message()]);
}

#[test]
fn downward_messages_execute_from_the_relay_chain() {
    let limit = Weight::from_parts(7, 3);
    let params = dmp_execution(limit);
    assert!(params.origin.same_as(&Location::parent()));
    assert!(params.weight_limit == limit);
    assert!(params.weight_credit == Weight::zero());
}

#[test]
fn horizontal_messages_execute_from_the_sibling() {
    let limit = Weight::from_parts(9, 1);
    let params = xcmp_execution(2001, limit);
    assert!(params.origin.same_as(&Location::new(1, vec![Junction::Parachain(2001)])));
    assert!(!params.origin.same_as(&Location::new(1, vec![Junction::Parachain(2002)])));
    assert!(params.weight_limit == limit);
    assert!(params.weight_credit == Weight::zero());
}
