use kojacoord_protocol::registry::{build_default_registry, Direction, PacketRegistry, ProtocolState};

#[test]
fn keepalive_v1_12_2_is_0x1f() {
    let r = build_default_registry();
    // 1.12.2 (proto 340) inherits from 1.9 (107) via nearest-lookup —
    // 1.12 (335) didn't change KeepAlive id.
    assert_eq!(
        r.get_id_for_version(340, ProtocolState::Play, Direction::Clientbound, "ClientboundKeepAlive"),
        Some(0x1F)
    );
}

#[test]
fn play_disconnect_v1_12_2_is_0x1a() {
    let r = build_default_registry();
    assert_eq!(
        r.get_id_for_version(340, ProtocolState::Play, Direction::Clientbound, "ClientboundDisconnect"),
        Some(0x1A)
    );
}

#[test]
fn finish_configuration_v1_20_4_is_0x02() {
    let r = build_default_registry();
    assert_eq!(
        r.get_id_for_version(765, ProtocolState::Configuration, Direction::Clientbound, "FinishConfiguration"),
        Some(0x02)
    );
}

#[test]
fn subversion_fallback_works() {
    let r = build_default_registry();
    // 1.9.4 (110) inherits from 1.9 (107).
    assert_eq!(
        r.get_id_for_version(110, ProtocolState::Play, Direction::Clientbound, "ClientboundJoinGame"),
        Some(0x23)
    );
    // 1.16.5 (754) inherits from 1.16 (735).
    assert_eq!(
        r.get_id_for_version(754, ProtocolState::Play, Direction::Clientbound, "ClientboundJoinGame"),
        Some(0x24)
    );
    // 1.21.4 (769) inherits from 1.21 (767).
    assert_eq!(
        r.get_id_for_version(769, ProtocolState::Play, Direction::Clientbound, "ClientboundSystemChat"),
        Some(0x6C)
    );
}

#[test]
fn login_success_stable_across_eras() {
    let r = build_default_registry();
    for proto in [5, 47, 340, 393, 762, 765, 767] {
        assert_eq!(
            r.get_id_for_version(proto, ProtocolState::Login, Direction::Clientbound, "ClientboundLoginSuccess"),
            Some(0x02),
            "LoginSuccess should be 0x02 for proto {proto}"
        );
    }
}

#[test]
fn login_acknowledged_only_1_20_2_plus() {
    let r = build_default_registry();
    assert_eq!(
        r.get_id_for_version(762, ProtocolState::Login, Direction::Serverbound, "ServerboundLoginAcknowledged"),
        None,
        "1.19.4 has no LoginAcknowledged"
    );
    assert_eq!(
        r.get_id_for_version(765, ProtocolState::Login, Direction::Serverbound, "ServerboundLoginAcknowledged"),
        Some(0x03)
    );
}

#[test]
fn register_then_get_gives_the_id_back() {
    let mut r = PacketRegistry::new();
    r.register(100, ProtocolState::Play, Direction::Clientbound, "Foo", 0x10);
    assert_eq!(r.get_id(100, ProtocolState::Play, Direction::Clientbound, "Foo"), Some(0x10));
    // A second registration of the same key replaces the id.
    r.register(100, ProtocolState::Play, Direction::Clientbound, "Foo", 0x11);
    assert_eq!(r.get_id(100, ProtocolState::Play, Direction::Clientbound, "Foo"), Some(0x11));
    // Other keys are untouched.
    assert_eq!(r.get_id(101, ProtocolState::Play, Direction::Clientbound, "Foo"), None);
    assert_eq!(r.get_id(100, ProtocolState::Play, Direction::Serverbound, "Foo"), None);
}

#[test]
fn get_id_is_exact_only() {
    let r = build_default_registry();
    assert_eq!(r.get_id(340, ProtocolState::Play, Direction::Clientbound, "ClientboundKeepAlive"), None);
    assert_eq!(r.get_id(107, ProtocolState::Play, Direction::Clientbound, "ClientboundKeepAlive"), Some(0x1F));
}

#[test]
fn name_from_id_uses_the_same_fallback() {
    let r = build_default_registry();
    assert_eq!(
        r.get_name_from_id(340, ProtocolState::Play, Direction::Clientbound, 0x1A),
        Some("ClientboundDisconnect")
    );
    // Two names share 0x01 at protocol 47; the first registered wins.
    assert_eq!(
        r.get_name_from_id(47, ProtocolState::Play, Direction::Clientbound, 0x01),
        Some("ClientboundJoinGame")
    );
    assert_eq!(r.get_name_from_id(3, ProtocolState::Play, Direction::Clientbound, 0x00), None);
}

#[test]
fn empty_registry_finds_nothing() {
    let r = PacketRegistry::new();
    assert_eq!(r.get_id_for_version(767, ProtocolState::Play, Direction::Clientbound, "ClientboundKeepAlive"), None);
}

#[test]
fn default_matches_build_default_registry() {
    let r = PacketRegistry::default();
    assert_eq!(
        r.get_id_for_version(767, ProtocolState::Play, Direction::Clientbound, "ClientboundKeepAlive"),
        Some(0x26)
    );
}

#[test]
fn version_lookup_is_the_exact_lookup_at_the_highest_lower_protocol() {
    let mut r = PacketRegistry::new();
    r.register(10, ProtocolState::Play, Direction::Clientbound, "Foo", 0x01);
    r.register(20, ProtocolState::Play, Direction::Clientbound, "Foo", 0x02);
    r.register(30, ProtocolState::Play, Direction::Clientbound, "Foo", 0x03);
    assert_eq!(r.get_id_for_version(9, ProtocolState::Play, Direction::Clientbound, "Foo"), None);
    assert_eq!(r.get_id_for_version(25, ProtocolState::Play, Direction::Clientbound, "Foo"), r.get_id(20, ProtocolState::Play, Direction::Clientbound, "Foo"));
    assert_eq!(r.get_id_for_version(30, ProtocolState::Play, Direction::Clientbound, "Foo"), Some(0x03));
    assert_eq!(r.get_id_for_version(1000, ProtocolState::Play, Direction::Clientbound, "Foo"), Some(0x03));
}

#[test]
fn name_from_id_maps_back_under_get_id() {
    let r = build_default_registry();
    let name = r.get_name_from_id(5, ProtocolState::Play, Direction::Clientbound, 0x09).unwrap();
    assert_eq!(name, "ClientboundSetHeldItem");
    assert_eq!(r.get_id(5, ProtocolState::Play, Direction::Clientbound, name), Some(0x09));
}
