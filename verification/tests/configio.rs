use mpfs_aperture::config::{apply_seg_config, derive_seg_config, SegEntry};
use mpfs_aperture::soc::MPFS;

fn entry(reg_name: &str, seg_value: &str) -> SegEntry {
    SegEntry { reg_name: reg_name.to_string(), seg_value: seg_value.to_string() }
}

#[test]
fn apply_sets_named_aperture_and_leaves_rest() {
    let mut board = MPFS::default();
    let entries = vec![entry("seg1_3", "0x6c02")];
    let failed = apply_seg_config(&mut board, &entries);
    assert!(failed.is_empty());
    // 0x6c02 against bus 0x14_0000_0000: 0x13fe units of 2^24 below it.
    assert_eq!(board.memory_apertures[1].hardware_addr, 0x0200_0000);
    assert_eq!(board.memory_apertures[0].hardware_addr, 0x0200_0000);
    assert_eq!(board.memory_apertures[2].hardware_addr, 0x0);
}

#[test]
fn apply_accepts_bare_and_prefixed_hex() {
    let mut board = MPFS::default();
    let entries = vec![entry("seg0_0", "7f90"), entry("seg1_2", "0x7fb0")];
    let failed = apply_seg_config(&mut board, &entries);
    assert!(failed.is_empty());
    // 0x7f90: 0x70 units of 2^24 below bus 0x8000_0000.
    assert_eq!(board.memory_apertures[3].hardware_addr, 0x1000_0000);
    // 0x7fb0: 0x50 units of 2^24 below bus 0xc000_0000.
    assert_eq!(board.memory_apertures[4].hardware_addr, 0x7000_0000);
}

#[test]
fn apply_failure_on_one_does_not_block_others() {
    let mut board = MPFS::default();
    let entries = vec![
        entry("seg0_1", "junk"),
        entry("seg1_3", "0x6c02"),
        // Decodes to the bus address itself, far above the total.
        entry("seg1_5", "0x0"),
    ];
    let failed = apply_seg_config(&mut board, &entries);
    assert_eq!(failed, vec!["seg0_1".to_string(), "seg1_5".to_string()]);
    assert_eq!(board.memory_apertures[0].hardware_addr, 0x0200_0000);
    assert_eq!(board.memory_apertures[1].hardware_addr, 0x0200_0000);
    assert_eq!(board.memory_apertures[2].hardware_addr, 0x0);
}

#[test]
fn apply_ignores_unknown_names_and_missing_entries() {
    let mut board = MPFS::default();
    let entries = vec![entry("seg9_9", "0x7002")];
    let failed = apply_seg_config(&mut board, &entries);
    assert!(failed.is_empty());
    assert_eq!(board.memory_apertures[0].hardware_addr, 0x0200_0000);
}

#[test]
fn apply_rejects_underflowing_segment_value() {
    let mut board = MPFS::default();
    // Against bus 0xd000_0000, segment 0x4001 would subtract 0x3fff units of
    // 2^24 — below address zero.
    let entries = vec![entry("seg1_4", "0x4001")];
    let failed = apply_seg_config(&mut board, &entries);
    assert_eq!(failed, vec!["seg1_4".to_string()]);
    assert_eq!(board.memory_apertures[5].hardware_addr, 0x0);
}

#[test]
fn derive_emits_one_entry_per_aperture() {
    let board = MPFS::default();
    let entries = derive_seg_config(&board).unwrap();
    assert_eq!(entries.len(), 6);
    assert_eq!(entries[0].reg_name, "seg0_1");
    assert_eq!(entries[0].seg_value, "0x7002");
    assert_eq!(entries[1].reg_name, "seg1_3");
    assert_eq!(entries[1].seg_value, "0x6c00");
    assert_eq!(entries[3].reg_name, "seg0_0");
    assert_eq!(entries[3].seg_value, "0x7f80");
    assert_eq!(entries[5].reg_name, "seg1_4");
    assert_eq!(entries[5].seg_value, "0x7f30");
}

#[test]
fn derive_faults_on_invalid_board() {
    let mut board = MPFS::default();
    board.total_system_memory = 0x100_0000;
    assert!(derive_seg_config(&board).is_err());
}

#[test]
fn apply_then_derive_round_trips() {
    let mut board = MPFS::default();
    let entries = vec![entry("seg0_1", "0x7002"), entry("seg1_3", "0x6c02")];
    let failed = apply_seg_config(&mut board, &entries);
    assert!(failed.is_empty());
    let derived = derive_seg_config(&board).unwrap();
    assert_eq!(derived[0].seg_value, "0x7002");
    assert_eq!(derived[1].seg_value, "0x6c02");
}
