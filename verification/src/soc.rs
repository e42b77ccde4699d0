//! The SoC model: segment-register codec, memory apertures and the board.
//!
//! A segment register compactly encodes how far below its fixed bus address an
//! aperture's hardware start address currently sits, in units of 2^24 bytes.

use vstd::prelude::*;

verus! {

/// Fault returned by the aperture and board operations; always recoverable,
/// never an abnormal exit.
#[derive(Debug, PartialEq, Eq, Structural)]
pub struct SegError {}

/// Reserved fault marker for aperture-specific conditions; the operations
/// below all report through [`SegError`].
#[derive(Debug)]
pub struct MemoryApertureError;

/// A single bus window: fixed bus address and size, mutable hardware start
/// address.
pub struct MemoryAperture {
    pub description: String,
    pub bus_addr: u64,
    pub hardware_addr: u64,
    pub aperture_size: u64,
    pub reg_name: String,
}

/// A segment value with bit 0x4000 clear denotes the identity mapping:
/// the hardware address equals the bus address.
pub open spec fn seg_is_identity(seg: u64) -> bool {
    seg & 0x4000 == 0
}

/// The byte offset a non-identity segment value subtracts from the bus
/// address: the low 14 bits count down from 0x4000 in units of 2^24.
pub open spec fn spec_seg_offset(seg: u64) -> int {
    (0x4000 - (seg & 0x3fff)) * 0x100_0000
}

/// Hardware start address denoted by segment value `seg` for an aperture at
/// `bus_addr`.
pub open spec fn spec_seg_to_hw_start_addr(seg: u64, bus_addr: u64) -> int {
    if seg_is_identity(seg) {
        bus_addr as int
    } else {
        bus_addr - spec_seg_offset(seg)
    }
}

/// Segment value denoting that an aperture at `bus_addr` starts at
/// `hw_start_addr`: 0 for the identity mapping, otherwise bit 0x4000 plus
/// the distance's complement against 0x4000.
pub open spec fn spec_hw_start_addr_to_seg(hw_start_addr: u64, bus_addr: u64) -> int {
    let delta = (bus_addr - hw_start_addr) / 0x100_0000;
    if hw_start_addr == bus_addr {
        0
    } else if delta == 0 {
        0x4000
    } else {
        0x8000 - delta
    }
}

/// Hardware start address from a segment-register value.
///
/// A clear 0x4000 bit denotes either an explicitly zeroed register or one the
/// bootloader treats as inert; both resolve to the bus address itself.
pub fn seg_to_hw_start_addr(seg: u64, bus_addr: u64) -> (r: u64)
    requires
        !seg_is_identity(seg) ==> spec_seg_offset(seg) <= bus_addr,
    ensures
        r == spec_seg_to_hw_start_addr(seg, bus_addr),
{
    let mut temp = seg;

    if (temp & 0x4000) == 0 {
        return bus_addr;
    }

    temp &= 0x3fff;
    assert(seg & 0x3fff <= 0x3fff) by (bit_vector);
    temp = 0x4000 - temp;
    assert(temp << 24u64 == temp * 0x100_0000) by (bit_vector)
        requires
            temp <= 0x4000,
    ;
    temp <<= 24u64;
    bus_addr - temp
}

/// Segment-register value from a hardware start address (inverse of
/// [`seg_to_hw_start_addr`]).
///
/// The physical mapping is always at or below the bus address, and at most
/// 0x4000 units of 2^24 below it; both bounds are preconditions here, and
/// [`try_hw_start_addr_to_seg`] is the fault-reporting path for values that
/// may break them.
pub fn hw_start_addr_to_seg(hw_start_addr: u64, bus_addr: u64) -> (r: u64)
    requires
        hw_start_addr <= bus_addr,
        (bus_addr - hw_start_addr) / 0x100_0000 <= 0x4000,
    ensures
        r == spec_hw_start_addr_to_seg(hw_start_addr, bus_addr),
{
    if bus_addr == hw_start_addr {
        return 0;
    }

    let mut temp = bus_addr;
    temp -= hw_start_addr;
    let ghost dist: u64 = temp;
    assert(dist >> 24u64 == dist / 0x100_0000) by (bit_vector);
    temp >>= 24u64;
    assert((((0x4000 - temp) as u64) | 0x4000u64) == (if temp == 0 {
        0x4000u64
    } else {
        (0x8000 - temp) as u64
    })) by (bit_vector)
        requires
            temp <= 0x4000,
    ;
    (0x4000 - temp) | 0x4000
}

/// Round trip of the codec: any hardware start address at or below the bus
/// address by a whole number of 2^24-byte units, with that number at most
/// 0x3fff, is recovered exactly by decoding its encoding.
pub proof fn lemma_seg_round_trip(hw_start_addr: u64, bus_addr: u64)
    requires
        hw_start_addr <= bus_addr,
        (bus_addr - hw_start_addr) % 0x100_0000 == 0,
        (bus_addr - hw_start_addr) / 0x100_0000 <= 0x3fff,
    ensures
        spec_seg_to_hw_start_addr(
            spec_hw_start_addr_to_seg(hw_start_addr, bus_addr) as u64,
            bus_addr,
        ) == hw_start_addr,
{
    let dist = bus_addr - hw_start_addr;
    let delta = dist / 0x100_0000;
    vstd::arithmetic::div_mod::lemma_fundamental_div_mod(dist, 0x100_0000);
    if hw_start_addr == bus_addr {
        assert(seg_is_identity(0)) by (bit_vector);
    } else {
        assert(delta >= 1);
        let seg = (0x8000 - delta) as u64;
        assert(0x4001 <= seg <= 0x7fff);
        assert(0x4001 <= seg <= 0x7fff ==> !seg_is_identity(seg) && (seg & 0x3fff)
            == (seg - 0x4000) as u64) by (bit_vector);
        assert(spec_seg_offset(seg) == (0x8000 - seg) * 0x100_0000);
        assert(spec_seg_offset(seg) == dist);
    }
}

/// Identity case of the codec: an aperture mapped at its own bus address
/// encodes to segment value 0, and segment value 0 decodes to the bus
/// address.
pub proof fn lemma_seg_identity(bus_addr: u64)
    ensures
        spec_hw_start_addr_to_seg(bus_addr, bus_addr) == 0,
        spec_seg_to_hw_start_addr(0, bus_addr) == bus_addr,
{
    assert(seg_is_identity(0)) by (bit_vector);
}

/// Fault-reporting decode: `None` when subtracting the segment's offset from
/// the bus address would underflow, which no legal encoding produces.
pub fn try_seg_to_hw_start_addr(seg: u64, bus_addr: u64) -> (r: Option<u64>)
    ensures
        r is Some <==> (seg_is_identity(seg) || spec_seg_offset(seg) <= bus_addr),
        r is Some ==> r->0 == spec_seg_to_hw_start_addr(seg, bus_addr),
{
    if (seg & 0x4000) == 0 {
        return Some(bus_addr);
    }
    assert(seg & 0x3fff <= 0x3fff) by (bit_vector);
    let masked = seg & 0x3fff;
    let shifted = 0x4000 - masked;
    assert(shifted << 24u64 == shifted * 0x100_0000) by (bit_vector)
        requires
            shifted <= 0x4000,
    ;
    let offset = shifted << 24u64;
    if offset <= bus_addr {
        Some(seg_to_hw_start_addr(seg, bus_addr))
    } else {
        None
    }
}

/// Fault-reporting encode: `None` when the hardware start address lies above
/// the bus address or more than 0x4000 units of 2^24 below it, where the
/// register scheme has no representation.
pub fn try_hw_start_addr_to_seg(hw_start_addr: u64, bus_addr: u64) -> (r: Option<u64>)
    ensures
        r is Some <==> (hw_start_addr <= bus_addr && (bus_addr - hw_start_addr) / 0x100_0000
            <= 0x4000),
        r is Some ==> r->0 == spec_hw_start_addr_to_seg(hw_start_addr, bus_addr),
{
    if hw_start_addr > bus_addr {
        return None;
    }
    let dist = bus_addr - hw_start_addr;
    assert(dist >> 24u64 == dist / 0x100_0000) by (bit_vector);
    if (dist >> 24u64) > 0x4000 {
        return None;
    }
    Some(hw_start_addr_to_seg(hw_start_addr, bus_addr))
}

impl MemoryAperture {
    /// The aperture maps memory that exists: its hardware start address does
    /// not exceed the total system memory.
    pub open spec fn hw_start_addr_ok(&self, total_system_memory: u64) -> bool {
        self.hardware_addr <= total_system_memory
    }

    /// One past the last hardware address the aperture reaches: the end of
    /// its window, clipped to the memory that exists.
    pub open spec fn spec_hw_end_addr(&self, total_system_memory: u64) -> int {
        if self.hardware_addr + self.aperture_size <= total_system_memory {
            self.hardware_addr + self.aperture_size
        } else {
            total_system_memory as int
        }
    }

    /// The aperture's current (unclipped) hardware window overlaps the region
    /// `[address, address + size)`.
    pub open spec fn spec_region_overlaps(&self, address: u64, size: u64) -> bool {
        address < self.hardware_addr + self.aperture_size && self.hardware_addr < address + size
    }

    /// The stored hardware start address, or a fault if it exceeds the total
    /// system memory (the aperture is currently unmapped).
    pub fn get_hw_start_addr(&self, total_system_memory: u64) -> (r: Result<u64, SegError>)
        ensures
            r is Ok <==> self.hw_start_addr_ok(total_system_memory),
            r is Ok ==> r->Ok_0 == self.hardware_addr,
    {
        if self.hardware_addr > total_system_memory {
            return Err(SegError {});
        }
        Ok(self.hardware_addr)
    }

    /// The end of the aperture's window, clipped to the total system memory;
    /// clipping, not faulting, is the policy for the end address, so this
    /// never fails.
    pub fn get_hw_end_addr(&self, total_system_memory: u64) -> (r: Result<u64, SegError>)
        ensures
            r is Ok,
            r->Ok_0 == self.spec_hw_end_addr(total_system_memory),
            r->Ok_0 <= total_system_memory,
    {
        // the last hardware addr decided by whichever is lower:
        // - the addr of the "highest" physical memory on the system
        // - the end of the aperture into memory on this part of the bus
        match self.hardware_addr.checked_add(self.aperture_size) {
            Some(aperture_max) => if aperture_max > total_system_memory {
                Ok(total_system_memory)
            } else {
                Ok(aperture_max)
            },
            None => Ok(total_system_memory),
        }
    }

    /// Accepts a new hardware start address only below the total system
    /// memory; otherwise faults and leaves the aperture unchanged.
    pub fn set_hw_start_addr(
        &mut self,
        total_system_memory: u64,
        new_start_addr: u64,
    ) -> (r: Result<(), SegError>)
        ensures
            r is Ok <==> new_start_addr < total_system_memory,
            r is Ok ==> *final(self) == (MemoryAperture {
                hardware_addr: new_start_addr,
                ..*old(self)
            }),
            r is Err ==> *final(self) == *old(self),
    {
        if new_start_addr < total_system_memory {
            self.hardware_addr = new_start_addr;
            Ok(())
        } else {
            Err(SegError {})
        }
    }

    /// Where the region `[address, address + size)` overlaps this aperture's
    /// current hardware window, the region's own start address is the
    /// hardware address it is routed through; `None` where they are
    /// disjoint.
    pub fn get_region_hw_start_addr(&self, address: u64, size: u64) -> (r: Option<u64>)
        ensures
            r is Some <==> self.spec_region_overlaps(address, size),
            r is Some ==> r->0 == address,
    {
        let below_end = match self.hardware_addr.checked_add(self.aperture_size) {
            Some(end) => address < end,
            None => true,
        };
        let above_start = match address.checked_add(size) {
            Some(region_end) => self.hardware_addr < region_end,
            None => true,
        };
        if below_end && above_start {
            Some(address)
        } else {
            None
        }
    }

    /// Applies a persisted segment-register value: decodes it against this
    /// aperture's bus address and stores the result through the validated
    /// setter. Faults, leaving the aperture unchanged, when the value's
    /// offset underflows the bus address or the decoded address is not below
    /// the total system memory.
    pub fn set_hw_start_addr_from_seg(
        &mut self,
        total_system_memory: u64,
        seg: u64,
    ) -> (r: Result<(), SegError>)
        ensures
            r is Ok <==> ((seg_is_identity(seg) || spec_seg_offset(seg) <= old(self).bus_addr)
                && spec_seg_to_hw_start_addr(seg, old(self).bus_addr) < total_system_memory),
            r is Ok ==> *final(self) == (MemoryAperture {
                hardware_addr: spec_seg_to_hw_start_addr(seg, old(self).bus_addr) as u64,
                ..*old(self)
            }),
            r is Err ==> *final(self) == *old(self),
    {
        match try_seg_to_hw_start_addr(seg, self.bus_addr) {
            Some(hw_start_addr) => self.set_hw_start_addr(total_system_memory, hw_start_addr),
            None => Err(SegError {}),
        }
    }
}

/// The modeled chip: an ordered, fixed set of apertures plus the single
/// mutable total-system-memory scalar. `current_aperture_id` is transient
/// wizard state, not part of the translation engine's contract.
pub struct MPFS {
    pub total_system_memory: u64,
    pub memory_apertures: Vec<MemoryAperture>,
    pub current_aperture_id: Option<usize>,
}

impl MPFS {
    /// Every aperture maps memory that exists; exactly then can segment
    /// values be derived for the whole board.
    pub open spec fn spec_config_valid(&self) -> bool {
        forall|i: int|
            0 <= i < self.memory_apertures@.len()
                ==> #[trigger] self.memory_apertures@[i].hw_start_addr_ok(self.total_system_memory)
    }

    /// Forwards to the identified aperture, against the board's own
    /// total-system-memory value. The caller must bound-check `id` against
    /// the fixed aperture count.
    pub fn get_hw_start_addr_by_id(
        &self,
        total_system_memory: u64,
        id: usize,
    ) -> (r: Result<u64, SegError>)
        requires
            id < self.memory_apertures@.len(),
        ensures
            r is Ok <==> self.memory_apertures@[id as int].hw_start_addr_ok(
                self.total_system_memory,
            ),
            r is Ok ==> r->Ok_0 == self.memory_apertures@[id as int].hardware_addr,
    {
        self.memory_apertures[id].get_hw_start_addr(self.total_system_memory)
    }

    /// Forwards to the identified aperture, against the board's own
    /// total-system-memory value. The caller must bound-check `id` against
    /// the fixed aperture count.
    pub fn get_hw_end_addr_by_id(
        &self,
        total_system_memory: u64,
        id: usize,
    ) -> (r: Result<u64, SegError>)
        requires
            id < self.memory_apertures@.len(),
        ensures
            r is Ok,
            r->Ok_0 == self.memory_apertures@[id as int].spec_hw_end_addr(
                self.total_system_memory,
            ),
    {
        self.memory_apertures[id].get_hw_end_addr(self.total_system_memory)
    }

    /// Forwards to the identified aperture's validated setter. The caller
    /// must bound-check `id` against the fixed aperture count.
    pub fn set_hw_start_addr_by_id(
        &mut self,
        new_start_addr: u64,
        id: usize,
    ) -> (r: Result<(), SegError>)
        requires
            id < old(self).memory_apertures@.len(),
        ensures
            r is Ok <==> new_start_addr < old(self).total_system_memory,
            r is Ok ==> final(self).memory_apertures@ == old(self).memory_apertures@.update(
                id as int,
                (MemoryAperture {
                    hardware_addr: new_start_addr,
                    ..old(self).memory_apertures@[id as int]
                }),
            ),
            r is Err ==> final(self).memory_apertures@ == old(self).memory_apertures@,
            final(self).total_system_memory == old(self).total_system_memory,
            final(self).current_aperture_id == old(self).current_aperture_id,
    {
        let total_system_memory = self.total_system_memory;
        let r = self.memory_apertures[id].set_hw_start_addr(total_system_memory, new_start_addr);
        proof {
            if r is Err {
                assert(final(self).memory_apertures@ =~= old(self).memory_apertures@);
            }
        }
        r
    }
}

impl Default for MPFS {
    /// The modeled chip's fixed aperture layout: six windows with their
    /// hardware default mappings, and 2 GiB of system memory until the user
    /// says otherwise.
    fn default() -> (board: MPFS)
        ensures
            board.total_system_memory == 0x8000_0000,
            board.current_aperture_id is None,
            board.memory_apertures@.len() == 6,
            board.memory_apertures@[0].reg_name@ == "seg0_1"@,
            board.memory_apertures@[0].bus_addr == 0x10_0000_0000u64,
            board.memory_apertures@[0].hardware_addr == 0x00_0200_0000u64,
            board.memory_apertures@[0].aperture_size == 0x40_000_0000u64,
            board.memory_apertures@[1].reg_name@ == "seg1_3"@,
            board.memory_apertures@[1].bus_addr == 0x14_0000_0000u64,
            board.memory_apertures@[1].hardware_addr == 0x0,
            board.memory_apertures@[1].aperture_size == 0x4000_0000u64,
            board.memory_apertures@[2].reg_name@ == "seg1_5"@,
            board.memory_apertures@[2].bus_addr == 0x18_0000_0000u64,
            board.memory_apertures@[2].hardware_addr == 0x0,
            board.memory_apertures@[2].aperture_size == 0x4000_0000u64,
            board.memory_apertures@[3].reg_name@ == "seg0_0"@,
            board.memory_apertures@[3].bus_addr == 0x8000_0000u64,
            board.memory_apertures@[3].hardware_addr == 0x0,
            board.memory_apertures@[3].aperture_size == 0x4000_0000u64,
            board.memory_apertures@[4].reg_name@ == "seg1_2"@,
            board.memory_apertures@[4].bus_addr == 0xC000_0000u64,
            board.memory_apertures@[4].hardware_addr == 0x0,
            board.memory_apertures@[4].aperture_size == 0x1000_0000u64,
            board.memory_apertures@[5].reg_name@ == "seg1_4"@,
            board.memory_apertures@[5].bus_addr == 0xD000_0000u64,
            board.memory_apertures@[5].hardware_addr == 0x0,
            board.memory_apertures@[5].aperture_size == 0x1000_0000u64,
    {
        let mut memory_apertures: Vec<MemoryAperture> = Vec::new();
        memory_apertures.push(
            MemoryAperture {
                description: String::from_str("64-bit cached\t"),
                reg_name: String::from_str("seg0_1"),
                bus_addr: 0x10_0000_0000,
                hardware_addr: 0x00_0200_0000,
                aperture_size: 0x40_000_0000,
            },
        );
        memory_apertures.push(
            MemoryAperture {
                description: String::from_str("64-bit non-cached"),
                reg_name: String::from_str("seg1_3"),
                bus_addr: 0x14_0000_0000,
                hardware_addr: 0x0,
                aperture_size: 0x4000_0000,
            },
        );
        memory_apertures.push(
            MemoryAperture {
                description: String::from_str("64-bit WCB\t"),
                reg_name: String::from_str("seg1_5"),
                bus_addr: 0x18_0000_0000,
                hardware_addr: 0x0,
                aperture_size: 0x4000_0000,
            },
        );
        memory_apertures.push(
            MemoryAperture {
                description: String::from_str("32-bit cached\t"),
                reg_name: String::from_str("seg0_0"),
                bus_addr: 0x8000_0000,
                hardware_addr: 0x0,
                aperture_size: 0x4000_0000,
            },
        );
        memory_apertures.push(
            MemoryAperture {
                description: String::from_str("32-bit non-cached"),
                reg_name: String::from_str("seg1_2"),
                bus_addr: 0xC000_0000,
                hardware_addr: 0x0,
                aperture_size: 0x1000_0000,
            },
        );
        memory_apertures.push(
            MemoryAperture {
                description: String::from_str("32-bit WCB\t"),
                reg_name: String::from_str("seg1_4"),
                bus_addr: 0xD000_0000,
                hardware_addr: 0x0,
                aperture_size: 0x1000_0000,
            },
        );
        MPFS { total_system_memory: 0x8000_0000, current_aperture_id: None, memory_apertures }
    }
}

} // verus!
