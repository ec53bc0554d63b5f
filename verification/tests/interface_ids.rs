use braw::iid::REFIID;

#[test]
fn new_lays_the_bytes_out_in_order() {
    let id = REFIID::new([0, 1, 2, 3, 4, 5, 6, 7, 8, 9, 10, 11, 12, 13, 14, 15]);
    assert_eq!(id.byte0, 0);
    assert_eq!(id.byte1, 1);
    assert_eq!(id.byte2, 2);
    assert_eq!(id.byte3, 3);
    assert_eq!(id.byte4, 4);
    assert_eq!(id.byte5, 5);
    assert_eq!(id.byte6, 6);
    assert_eq!(id.byte7, 7);
    assert_eq!(id.byte8, 8);
    assert_eq!(id.byte9, 9);
    assert_eq!(id.byte10, 10);
    assert_eq!(id.byte11, 11);
    assert_eq!(id.byte12, 12);
    assert_eq!(id.byte13, 13);
    assert_eq!(id.byte14, 14);
    assert_eq!(id.byte15, 15);
}

#[test]
fn the_audio_capability_identifier_has_its_documented_bytes() {
    let audio = REFIID::audio();
    let by_bytes = REFIID::new([
        0x76, 0xD4, 0xAC, 0xED, 0xE0, 0xD6, 0x45, 0xBB, 0xB5, 0x47, 0x56, 0xB7, 0x43, 0x5B, 0x2A,
        0x1D,
    ]);
    assert_eq!(audio, by_bytes);
}
