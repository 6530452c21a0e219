//! Bit-flag sets: unknown bits are truncated on decode, never an error,
//! and re-encoding yields only the bits that were kept.

use bungie_client::schema::{
    DestinyGameVersions, EquippingItemBlockAttributes, ItemState, SocketPlugSources,
};

#[test]
fn item_state_truncates_unknown_high_bits() {
    // Known bits cover 0x1f; the high bits must vanish without an error.
    let v = ItemState::from_bits_truncate(0xff);
    assert_eq!(v.bits(), 0x1f);
    let w = ItemState::from_bits_truncate(0b1010_0101);
    assert_eq!(w.bits(), 0b0000_0101);
}

#[test]
fn item_state_keeps_known_bits_exactly() {
    let v = ItemState::from_bits_truncate(ItemState::LOCKED | ItemState::CRAFTED);
    assert_eq!(v.bits(), ItemState::LOCKED | ItemState::CRAFTED);
}

#[test]
fn game_versions_truncate_in_sixteen_bits() {
    // Known bits cover 0x3ff.
    let v = DestinyGameVersions::from_bits_truncate(0xffff);
    assert_eq!(v.bits(), 0x3ff);
    let w = DestinyGameVersions::from_bits_truncate(DestinyGameVersions::LIGHTFALL);
    assert_eq!(w.bits(), 512);
}

#[test]
fn socket_plug_sources_round_trip_known_bits() {
    for bits in 0u8..=0x0f {
        let v = SocketPlugSources::from_bits_truncate(bits);
        assert_eq!(v.bits(), bits);
    }
    assert_eq!(SocketPlugSources::from_bits_truncate(0x10).bits(), 0);
}

#[test]
fn single_bit_set_truncates_everything_else() {
    assert_eq!(EquippingItemBlockAttributes::from_bits_truncate(0xfe).bits(), 0);
    assert_eq!(EquippingItemBlockAttributes::from_bits_truncate(0x03).bits(), 1);
}
