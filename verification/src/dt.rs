//! Device-tree memory nodes and their placement onto the board's apertures.
//!
//! The flattened-device-tree binary format is parsed by the `device_tree`
//! crate behind the trusted wrappers below; everything read out of a parsed
//! node is handed to verified code as plain values.

use vstd::prelude::*;

use crate::hexfmt::spec_hex_format;
use crate::hexfmt::format_hex;
use crate::soc::MemoryAperture;
use crate::soc::SegError;
use crate::soc::MPFS;

verus! {

/// A physical memory region the device tree declares: a read-only snapshot,
/// never mutated once parsed.
#[derive(Clone, Debug)]
pub struct MemoryNode {
    pub address: u64,
    pub size: u64,
    pub label: String,
}

/// Value of eight big-endian bytes.
pub open spec fn spec_be_u64(b: Seq<u8>) -> int
    recommends
        b.len() == 8,
{
    b[0] * 0x100_0000_0000_0000 + b[1] * 0x1_0000_0000_0000 + b[2] * 0x100_0000_0000 + b[3]
        * 0x1_0000_0000 + b[4] * 0x100_0000 + b[5] * 0x1_0000 + b[6] * 0x100 + b[7]
}

/// A memory node from a `reg` property value: eight big-endian bytes of
/// address, then eight of size. Any other length is rejected.
pub fn memory_node_from_reg(label: String, reg: &Vec<u8>) -> (r: Option<MemoryNode>)
    ensures
        r is Some <==> reg@.len() == 16,
        r is Some ==> r->0.label@ == label@ && r->0.address == spec_be_u64(reg@.subrange(0, 8))
            && r->0.size == spec_be_u64(reg@.subrange(8, 16)),
{
    if reg.len() != 16 {
        return None;
    }
    let address: u64 = (reg[0] as u64) * 0x100_0000_0000_0000 + (reg[1] as u64)
        * 0x1_0000_0000_0000 + (reg[2] as u64) * 0x100_0000_0000 + (reg[3] as u64) * 0x1_0000_0000
        + (reg[4] as u64) * 0x100_0000 + (reg[5] as u64) * 0x1_0000 + (reg[6] as u64) * 0x100 + (
    reg[7] as u64);
    let size: u64 = (reg[8] as u64) * 0x100_0000_0000_0000 + (reg[9] as u64) * 0x1_0000_0000_0000
        + (reg[10] as u64) * 0x100_0000_0000 + (reg[11] as u64) * 0x1_0000_0000 + (reg[12] as u64)
        * 0x100_0000 + (reg[13] as u64) * 0x1_0000 + (reg[14] as u64) * 0x100 + (reg[15] as u64);
    Some(MemoryNode { address, size, label })
}

/// Some aperture in `apertures` routes the region `[address, address + size)`:
/// its current hardware window overlaps the region.
pub open spec fn spec_region_routed(apertures: Seq<MemoryAperture>, address: u64, size: u64) -> bool {
    exists|i: int|
        0 <= i < apertures.len() && #[trigger] apertures[i].spec_region_overlaps(address, size)
}

/// The five display cells for one memory node: label, declared address and
/// size, then the resolved hardware start and end addresses, or zeros where
/// no aperture routes the region.
pub open spec fn spec_node_strings(node: MemoryNode, apertures: Seq<MemoryAperture>) -> Seq<
    Seq<char>,
> {
    let routed = spec_region_routed(apertures, node.address, node.size);
    seq![
        node.label@,
        spec_hex_format(node.address as int, 10),
        spec_hex_format(node.size as int, 10),
        if routed {
            spec_hex_format(node.address as int, 10)
        } else {
            spec_hex_format(0, 10)
        },
        if routed {
            spec_hex_format(node.address + node.size - 1, 10)
        } else {
            spec_hex_format(0, 10)
        },
    ]
}

impl MemoryNode {
    /// Walks the apertures in board order and returns the hardware start
    /// address of the first one whose current hardware window overlaps this
    /// node's declared region — which is the node's own declared address —
    /// or a fault when no aperture routes the region.
    pub fn get_hw_start_addr(&self, apertures: &mut Vec<MemoryAperture>) -> (r: Result<
        u64,
        SegError,
    >)
        ensures
            *final(apertures) == *old(apertures),
            r is Ok <==> spec_region_routed(old(apertures)@, self.address, self.size),
            r is Ok ==> r->Ok_0 == self.address,
    {
        let mut i: usize = 0;
        while i < apertures.len()
            invariant
                i <= apertures@.len(),
                forall|j: int|
                    0 <= j < i ==> !#[trigger] apertures@[j].spec_region_overlaps(
                        self.address,
                        self.size,
                    ),
            decreases apertures@.len() - i,
        {
            let hw_start_addr = apertures[i].get_region_hw_start_addr(self.address, self.size);
            match hw_start_addr {
                Some(addr) => {
                    return Ok(addr);
                },
                None => {
                    i += 1;
                },
            }
        }
        Err(SegError {})
    }

    /// The node's display cells (see [`spec_node_strings`]): declared values
    /// in `0x`-prefixed hexadecimal, and the resolved hardware range, zeros
    /// where the node is unmapped.
    pub fn to_strings(&self, board: &mut MPFS) -> (r: Vec<String>)
        requires
            self.address + self.size <= u64::MAX as int + 1,
        ensures
            *final(board) == *old(board),
            r.deep_view() == spec_node_strings(*self, old(board).memory_apertures@),
    {
        let mut strings: Vec<String> = Vec::new();
        let hw_address = self.get_hw_start_addr(&mut board.memory_apertures);

        strings.push(self.label.clone());
        strings.push(format_hex(self.address, 10));
        strings.push(format_hex(self.size, 10));

        match hw_address {
            Err(_) => {
                strings.push(format_hex(0, 10));
                strings.push(format_hex(0, 10));
            },
            Ok(hw_address) => {
                let hw_end = if self.size > 0 {
                    hw_address + (self.size - 1)
                } else {
                    hw_address - 1
                };
                strings.push(format_hex(hw_address, 10));
                strings.push(format_hex(hw_end, 10));
            },
        }

        proof {
            assert(strings.deep_view() =~= spec_node_strings(
                *self,
                old(board).memory_apertures@,
            ));
        }
        strings
    }
}

/// Display cells for a whole list of memory nodes, in order.
pub fn memory_nodes_to_strings(board: &mut MPFS, nodes: Vec<MemoryNode>) -> (r: Vec<Vec<String>>)
    requires
        forall|i: int|
            0 <= i < nodes@.len() ==> (#[trigger] nodes@[i].address) + nodes@[i].size
                <= u64::MAX as int + 1,
    ensures
        *final(board) == *old(board),
        r.deep_view() == Seq::new(
            nodes@.len(),
            |i: int| spec_node_strings(nodes@[i], old(board).memory_apertures@),
        ),
{
    let mut strings: Vec<Vec<String>> = Vec::new();
    let mut i: usize = 0;
    while i < nodes.len()
        invariant
            i <= nodes@.len(),
            *board == *old(board),
            forall|k: int|
                0 <= k < nodes@.len() ==> (#[trigger] nodes@[k].address) + nodes@[k].size
                    <= u64::MAX as int + 1,
            strings@.len() == i,
            forall|k: int|
                0 <= k < i ==> #[trigger] strings@[k].deep_view() == spec_node_strings(
                    nodes@[k],
                    old(board).memory_apertures@,
                ),
        decreases nodes@.len() - i,
    {
        let row = nodes[i].to_strings(board);
        strings.push(row);
        i += 1;
    }
    proof {
        assert(strings.deep_view() =~= Seq::new(
            nodes@.len(),
            |i: int| spec_node_strings(nodes@[i], old(board).memory_apertures@),
        ));
    }
    strings
}

#[verifier::external_type_specification]
#[verifier::external_body]
pub struct ExDeviceTree(device_tree::DeviceTree);

#[verifier::external_type_specification]
#[verifier::external_body]
pub struct ExNode(device_tree::Node);

/// Relies on device_tree::DeviceTree::load: parses a flattened device tree
/// out of the given bytes, `None` where they are not one.
#[verifier::external_body]
fn dt_load(dtb: &[u8]) -> (r: Option<device_tree::DeviceTree>) {
    device_tree::DeviceTree::load(dtb).ok()
}

/// Relies on the device_tree::DeviceTree struct: `root` is its root node.
#[verifier::external_body]
fn dt_root(dt: device_tree::DeviceTree) -> (r: device_tree::Node) {
    dt.root
}

/// Relies on the device_tree::Node struct: `children` are its child nodes.
#[verifier::external_body]
fn node_children(node: &device_tree::Node) -> (r: &Vec<device_tree::Node>) {
    &node.children
}

/// Relies on the device_tree::Node struct: `name` is the node's name as it
/// appears in the node path.
#[verifier::external_body]
fn node_name(node: &device_tree::Node) -> (r: String) {
    node.name.clone()
}

/// Relies on device_tree::Node::prop_str: the named property's value as a
/// string, `None` where the property is missing or not a string.
#[verifier::external_body]
fn node_prop_str<'a>(node: &'a device_tree::Node, name: &str) -> (r: Option<&'a str>) {
    node.prop_str(name).ok()
}

/// Relies on device_tree::Node::prop_raw: the named property's raw value,
/// `None` where the property is missing.
#[verifier::external_body]
fn node_prop_raw<'a>(node: &'a device_tree::Node, name: &str) -> (r: Option<&'a Vec<u8>>) {
    node.prop_raw(name)
}

/// The memory regions a parsed device tree's root node declares: every child
/// with device type `memory` and a 16-byte `reg` property, as
/// [`memory_node_from_reg`] reads it. What a parsed node holds is opaque
/// here, so nothing more is claimed; the arithmetic lives in
/// [`memory_node_from_reg`], which is exact.
pub fn get_memory_nodes(root_node: device_tree::Node) -> Vec<MemoryNode> {
    let mut memory_nodes: Vec<MemoryNode> = Vec::new();
    let children = node_children(&root_node);
    let mut i: usize = 0;
    while i < children.len()
        decreases children@.len() - i,
    {
        let child = &children[i];
        i += 1;
        let device_type = match node_prop_str(child, "device_type") {
            Option::None => {
                continue ;
            },
            Option::Some(device_type) => device_type,
        };
        if String::from_str(device_type) == String::from_str("memory") {
            match node_prop_raw(child, "reg") {
                Option::None => {},
                Option::Some(reg) => {
                    match memory_node_from_reg(node_name(child), reg) {
                        Option::None => {},
                        Option::Some(node) => {
                            memory_nodes.push(node);
                        },
                    }
                },
            }
        }
    }
    memory_nodes
}

/// Memory regions declared by a flattened device tree, `None` where the
/// bytes do not parse as one.
pub fn memory_nodes_from_dtb(dtb: &[u8]) -> Option<Vec<MemoryNode>> {
    match dt_load(dtb) {
        Option::None => None,
        Option::Some(dt) => Some(get_memory_nodes(dt_root(dt))),
    }
}

} // verus!
