use mpfs_aperture::dt::{memory_node_from_reg, memory_nodes_from_dtb, memory_nodes_to_strings,
    MemoryNode};
use mpfs_aperture::soc::{MemoryAperture, MPFS};

fn one_aperture_board() -> MPFS {
    MPFS {
        total_system_memory: 0x8000_0000,
        current_aperture_id: None,
        memory_apertures: vec![MemoryAperture {
            description: "single window".to_string(),
            reg_name: "seg_x".to_string(),
            bus_addr: 0x1_0000_0000,
            hardware_addr: 0x0,
            aperture_size: 0x4000_0000,
        }],
    }
}

#[test]
fn resolver_finds_overlapping_aperture() {
    let mut board = one_aperture_board();
    let node = MemoryNode { address: 0x1000_0000, size: 0x1000_0000, label: "ddr".to_string() };
    let hw = node.get_hw_start_addr(&mut board.memory_apertures);
    assert_eq!(hw, Ok(0x1000_0000));
}

#[test]
fn resolver_faults_on_unmapped_node() {
    let mut board = one_aperture_board();
    let node = MemoryNode { address: 0x9000_0000, size: 0x1000_0000, label: "ddr".to_string() };
    assert!(node.get_hw_start_addr(&mut board.memory_apertures).is_err());
}

#[test]
fn resolver_takes_first_matching_aperture() {
    // Two deliberately overlapped apertures: the first in board order wins,
    // and either way the node's own address comes back.
    let mut board = one_aperture_board();
    let second = MemoryAperture {
        description: "shadow window".to_string(),
        reg_name: "seg_y".to_string(),
        bus_addr: 0x2_0000_0000,
        hardware_addr: 0x0,
        aperture_size: 0x4000_0000,
    };
    board.memory_apertures.push(second);
    let node = MemoryNode { address: 0x2000_0000, size: 0x100_0000, label: "ddr".to_string() };
    assert_eq!(node.get_hw_start_addr(&mut board.memory_apertures), Ok(0x2000_0000));
}

#[test]
fn node_rows_for_mapped_and_unmapped() {
    let mut board = one_aperture_board();
    let nodes = vec![
        MemoryNode { address: 0x1000_0000, size: 0x1000_0000, label: "ddr".to_string() },
        MemoryNode { address: 0x9000_0000, size: 0x1000_0000, label: "high".to_string() },
    ];
    let rows = memory_nodes_to_strings(&mut board, nodes);
    assert_eq!(rows.len(), 2);
    assert_eq!(rows[0][0], "ddr");
    assert_eq!(rows[0][1], "0x0010000000");
    assert_eq!(rows[0][2], "0x0010000000");
    assert_eq!(rows[0][3], "0x0010000000");
    assert_eq!(rows[0][4], "0x001fffffff");
    assert_eq!(rows[1][0], "high");
    assert_eq!(rows[1][3], "0x0000000000");
    assert_eq!(rows[1][4], "0x0000000000");
}

#[test]
fn reg_property_of_sixteen_bytes_becomes_node() {
    let mut reg: Vec<u8> = vec![0, 0, 0, 0x10, 0, 0, 0, 0];
    reg.extend_from_slice(&[0, 0, 0, 0x10, 0, 0, 0, 1]);
    let node = memory_node_from_reg("memory@1000000000".to_string(), &reg).unwrap();
    assert_eq!(node.label, "memory@1000000000");
    assert_eq!(node.address, 0x10_0000_0000);
    assert_eq!(node.size, 0x10_0000_0001);
}

#[test]
fn reg_property_of_other_length_is_rejected() {
    let reg: Vec<u8> = vec![0; 15];
    assert!(memory_node_from_reg("memory".to_string(), &reg).is_none());
    let reg: Vec<u8> = vec![0; 17];
    assert!(memory_node_from_reg("memory".to_string(), &reg).is_none());
}

fn push_be32(blob: &mut Vec<u8>, v: u32) {
    blob.extend_from_slice(&v.to_be_bytes());
}

/// A minimal flattened device tree, version 17: a root node with one child
/// `memory@80000000` of device type `memory` and a 16-byte `reg`.
fn sample_dtb() -> Vec<u8> {
    let mut strings: Vec<u8> = Vec::new();
    let device_type_off = strings.len() as u32;
    strings.extend_from_slice(b"device_type\0");
    let reg_off = strings.len() as u32;
    strings.extend_from_slice(b"reg\0");

    let mut structure: Vec<u8> = Vec::new();
    push_be32(&mut structure, 1); // begin root node
    structure.extend_from_slice(b"\0\0\0\0"); // empty name, padded
    push_be32(&mut structure, 1); // begin child node
    structure.extend_from_slice(b"memory@80000000\0"); // name, already aligned
    push_be32(&mut structure, 3); // property
    push_be32(&mut structure, 7); // value size of "memory\0"
    push_be32(&mut structure, device_type_off);
    structure.extend_from_slice(b"memory\0\0"); // value, padded
    push_be32(&mut structure, 3); // property
    push_be32(&mut structure, 16); // value size
    push_be32(&mut structure, reg_off);
    structure.extend_from_slice(&0x8000_0000u64.to_be_bytes());
    structure.extend_from_slice(&0x2000_0000u64.to_be_bytes());
    push_be32(&mut structure, 2); // end child node
    push_be32(&mut structure, 2); // end root node

    let header_size: u32 = 40;
    let rsvmap_size: u32 = 16;
    let off_mem_rsvmap = header_size;
    let off_dt_struct = off_mem_rsvmap + rsvmap_size;
    let off_dt_strings = off_dt_struct + structure.len() as u32;
    let totalsize = off_dt_strings + strings.len() as u32;

    let mut blob: Vec<u8> = Vec::new();
    push_be32(&mut blob, 0xd00d_feed); // magic
    push_be32(&mut blob, totalsize);
    push_be32(&mut blob, off_dt_struct);
    push_be32(&mut blob, off_dt_strings);
    push_be32(&mut blob, off_mem_rsvmap);
    push_be32(&mut blob, 17); // version
    push_be32(&mut blob, 16); // last compatible version
    push_be32(&mut blob, 0); // boot cpu
    push_be32(&mut blob, strings.len() as u32);
    push_be32(&mut blob, structure.len() as u32);
    blob.extend_from_slice(&[0u8; 16]); // one terminating reserved entry
    blob.extend_from_slice(&structure);
    blob.extend_from_slice(&strings);
    blob
}

#[test]
fn dtb_bytes_yield_declared_memory_nodes() {
    let dtb = sample_dtb();
    let nodes = memory_nodes_from_dtb(dtb.as_slice()).unwrap();
    assert_eq!(nodes.len(), 1);
    assert_eq!(nodes[0].label, "memory@80000000");
    assert_eq!(nodes[0].address, 0x8000_0000);
    assert_eq!(nodes[0].size, 0x2000_0000);
}

#[test]
fn garbage_bytes_yield_no_nodes() {
    assert!(memory_nodes_from_dtb(&[0u8; 64]).is_none());
}
