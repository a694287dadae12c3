use kojacoord_protocol::negotiation::{Epoch, ProtocolVersion, VersionRegistry};

#[test]
fn known_versions_roundtrip() {
    for &id in VersionRegistry::SUPPORTED.iter() {
        let v = ProtocolVersion::from_id(id);
        assert!(v.is_supported(), "id {id} should be supported");
        assert_eq!(v.id(), id);
    }
}

#[test]
fn v1_7_10_recognized() {
    assert_eq!(ProtocolVersion::from_id(5), ProtocolVersion::V1_7_10);
}

#[test]
fn v1_6_4_recognized() {
    assert_eq!(ProtocolVersion::from_id(78), ProtocolVersion::V1_6_4);
}

#[test]
fn nearest_exact() {
    assert_eq!(VersionRegistry::nearest(47), ProtocolVersion::V1_8);
    assert_eq!(VersionRegistry::nearest(5), ProtocolVersion::V1_7_10);
    assert_eq!(VersionRegistry::nearest(340), ProtocolVersion::V1_12_2);
}

#[test]
fn nearest_between_versions() {
    let v = VersionRegistry::nearest(400);
    // 400 sits between 393 (1.13) and 401 (1.13.1); 401 wins by distance 1.
    assert_eq!(v, ProtocolVersion::V1_13_1);
}

#[test]
fn epoch_grouping_matches_dispatch_table() {
    assert_eq!(ProtocolVersion::V1_12_2.epoch(), Epoch::V1_9_To_1_12);
    assert_eq!(ProtocolVersion::V1_8.epoch(), Epoch::V1_8);
    assert_eq!(ProtocolVersion::V1_16_5.epoch(), Epoch::V1_16);
    assert_eq!(ProtocolVersion::V1_21.epoch(), Epoch::V1_21Plus);
}

#[test]
fn unknown_id_stays_unknown() {
    let v = ProtocolVersion::from_id(1);
    assert!(!v.is_supported());
    assert_eq!(v.id(), 1);
}

#[test]
fn nearest_below_and_above_the_table() {
    assert_eq!(VersionRegistry::nearest(0).id(), 4);
    assert_eq!(VersionRegistry::nearest(u32::MAX).id(), 770);
}

#[test]
fn nearest_tie_takes_the_lower_id() {
    // 76 is two away from both 74 and 78.
    assert_eq!(VersionRegistry::nearest(76).id(), 74);
}
