//! Read-only display snapshots of the board: the per-aperture table rows and
//! the whole-board validity summary.

use vstd::prelude::*;

use crate::hexfmt::{spec_dec_digits, spec_hex_format, u64_to_dec_digits, format_hex};
use crate::soc;
use crate::soc::MemoryAperture;

verus! {

/// Bytes to whole mebibytes.
pub fn hex_to_mib(hex: u64) -> (r: u64)
    ensures
        r == hex / 0x10_0000,
{
    hex / 0x10_0000
}

/// The register-value cell: the aperture's current segment encoding, or
/// `invalid` where the hardware start address lies above the bus address or
/// further below it than the register scheme can express.
pub open spec fn spec_seg_cell(ap: MemoryAperture) -> Seq<char> {
    if ap.hardware_addr <= ap.bus_addr && (ap.bus_addr - ap.hardware_addr) / 0x100_0000 <= 0x4000 {
        spec_hex_format(crate::soc::spec_hw_start_addr_to_seg(ap.hardware_addr, ap.bus_addr), 6)
    } else {
        "invalid"@
    }
}

/// The eight display cells for aperture `i` of `board`: index, register
/// name, description, bus address, register value, then hardware start, end
/// and size — the last three as `invalid`/`n/a MiB` where the aperture's
/// start address exceeds the total system memory.
pub open spec fn spec_table_row(board: soc::MPFS, i: int) -> Seq<Seq<char>> {
    let ap = board.memory_apertures@[i];
    let total = board.total_system_memory;
    seq![
        spec_dec_digits(i),
        ap.reg_name@,
        ap.description@,
        spec_hex_format(ap.bus_addr as int, 10),
        spec_seg_cell(ap),
        if ap.hw_start_addr_ok(total) {
            spec_hex_format(ap.hardware_addr as int, 10)
        } else {
            "invalid"@
        },
        if ap.hw_start_addr_ok(total) {
            spec_hex_format(ap.spec_hw_end_addr(total), 10)
        } else {
            "invalid"@
        },
        if ap.hw_start_addr_ok(total) {
            spec_dec_digits((ap.spec_hw_end_addr(total) - ap.hardware_addr) / 0x10_0000)
                + " MiB"@
        } else {
            "n/a MiB"@
        },
    ]
}

/// One display row per aperture (see [`spec_table_row`]), and the aggregate
/// validity summary: `Ok` exactly when every aperture's hardware start
/// address is within the total system memory, for only then can segment
/// values be derived for persistence.
pub fn format_table_data(board: &mut soc::MPFS) -> (r: (Vec<Vec<String>>, Result<(), ()>))
    ensures
        *final(board) == *old(board),
        r.1 is Ok <==> old(board).spec_config_valid(),
        r.0.deep_view() == Seq::new(
            old(board).memory_apertures@.len(),
            |i: int| spec_table_row(*old(board), i),
        ),
{
    let mut all_valid: bool = true;
    let mut data: Vec<Vec<String>> = Vec::new();
    let total = board.total_system_memory;

    let mut i: usize = 0;
    while i < board.memory_apertures.len()
        invariant
            *board == *old(board),
            total == board.total_system_memory,
            i <= board.memory_apertures@.len(),
            data@.len() == i,
            forall|k: int|
                0 <= k < i ==> #[trigger] data@[k].deep_view() == spec_table_row(*old(board), k),
            all_valid <==> (forall|k: int|
                0 <= k < i ==> #[trigger] board.memory_apertures@[k].hw_start_addr_ok(total)),
        decreases board.memory_apertures@.len() - i,
    {
        let memory_aperture = &board.memory_apertures[i];
        let aperature_start = memory_aperture.get_hw_start_addr(total);
        let aperature_end = memory_aperture.get_hw_end_addr(total);

        let mut row_cells: Vec<String> = Vec::new();
        row_cells.push(u64_to_dec_digits(i as u64));
        row_cells.push(memory_aperture.reg_name.clone());
        row_cells.push(memory_aperture.description.clone());
        row_cells.push(format_hex(memory_aperture.bus_addr, 10));
        match crate::soc::try_hw_start_addr_to_seg(
            memory_aperture.hardware_addr,
            memory_aperture.bus_addr,
        ) {
            Some(seg) => {
                row_cells.push(format_hex(seg, 6));
            },
            None => {
                row_cells.push(String::from_str("invalid"));
            },
        }

        match (aperature_start, aperature_end) {
            (Ok(start), Ok(end)) => {
                let size = end - start;
                row_cells.push(format_hex(start, 10));
                row_cells.push(format_hex(end, 10));
                let mut size_text = u64_to_dec_digits(hex_to_mib(size));
                size_text.append(" MiB");
                row_cells.push(size_text);
            },
            _ => {
                row_cells.push(String::from_str("invalid"));
                row_cells.push(String::from_str("invalid"));
                row_cells.push(String::from_str("n/a MiB"));
                all_valid = false;
            },
        }

        proof {
            assert(row_cells.deep_view() =~= spec_table_row(*old(board), i as int));
        }
        data.push(row_cells);
        i += 1;
    }

    if all_valid {
        (data, Ok(()))
    } else {
        (data, Err(()))
    }
}

} // verus!
