//! Reconciliation between the board and its persisted configuration: a
//! mapping from register name to a hexadecimal segment-value string, applied
//! onto the board at load time and derived from it at save time. The file
//! format itself is owned by the surrounding program; only the mapping's
//! entries pass this boundary.

use vstd::prelude::*;

use crate::hexfmt::{
    parse_hex_u64,
    spec_hex_format,
    spec_parse_hex,
    spec_strip_hex_prefixes,
    strip_hex_prefixes,
    format_hex,
};
use crate::soc;
use crate::soc::{
    seg_is_identity,
    spec_seg_offset,
    spec_seg_to_hw_start_addr,
    spec_hw_start_addr_to_seg,
    MemoryAperture,
    SegError,
};

verus! {

/// One persisted entry: an aperture's register name and its segment value as
/// a hexadecimal string.
#[derive(Clone, Debug)]
pub struct SegEntry {
    pub reg_name: String,
    pub seg_value: String,
}

/// The segment-value text of the first entry named `name`, if any.
pub open spec fn spec_entry_for(entries: Seq<SegEntry>, name: Seq<char>) -> Option<Seq<char>>
    decreases entries.len(),
{
    if entries.len() == 0 {
        Option::None
    } else if entries[0].reg_name@ == name {
        Option::Some(entries[0].seg_value@)
    } else {
        spec_entry_for(entries.drop_first(), name)
    }
}

/// Applying `entries` to `ap` fails: the entry named for it does not parse
/// as a hexadecimal number, its offset underflows the bus address, or the
/// decoded start address is not below the total system memory. An aperture
/// with no entry is simply left alone, which is no failure.
pub open spec fn spec_seg_apply_fails(
    ap: MemoryAperture,
    entries: Seq<SegEntry>,
    total_system_memory: u64,
) -> bool {
    match spec_entry_for(entries, ap.reg_name@) {
        Option::None => false,
        Option::Some(text) => match spec_parse_hex(spec_strip_hex_prefixes(text)) {
            Option::None => true,
            Option::Some(seg) => !((seg_is_identity(seg) || spec_seg_offset(seg) <= ap.bus_addr)
                && spec_seg_to_hw_start_addr(seg, ap.bus_addr) < total_system_memory),
        },
    }
}

/// What `ap` becomes under `entries`: its decoded hardware start address
/// where its entry parses, decodes and validates, itself otherwise.
pub open spec fn spec_seg_applied(
    ap: MemoryAperture,
    entries: Seq<SegEntry>,
    total_system_memory: u64,
) -> MemoryAperture {
    match spec_entry_for(entries, ap.reg_name@) {
        Option::None => ap,
        Option::Some(text) => match spec_parse_hex(spec_strip_hex_prefixes(text)) {
            Option::None => ap,
            Option::Some(seg) => if (seg_is_identity(seg) || spec_seg_offset(seg) <= ap.bus_addr)
                && spec_seg_to_hw_start_addr(seg, ap.bus_addr) < total_system_memory {
                MemoryAperture {
                    hardware_addr: spec_seg_to_hw_start_addr(seg, ap.bus_addr) as u64,
                    ..ap
                }
            } else {
                ap
            },
        },
    }
}

/// Register names of the apertures whose entries fail to apply, in board
/// order.
pub open spec fn spec_failed_names(
    apertures: Seq<MemoryAperture>,
    entries: Seq<SegEntry>,
    total_system_memory: u64,
) -> Seq<Seq<char>>
    decreases apertures.len(),
{
    if apertures.len() == 0 {
        Seq::empty()
    } else {
        spec_failed_names(apertures.drop_last(), entries, total_system_memory) + (if spec_seg_apply_fails(
            apertures.last(),
            entries,
            total_system_memory,
        ) {
            seq![apertures.last().reg_name@]
        } else {
            Seq::empty()
        })
    }
}

fn find_entry<'a>(entries: &'a Vec<SegEntry>, name: &String) -> (r: Option<&'a String>)
    ensures
        r is Some <==> spec_entry_for(entries@, name@) is Some,
        r is Some ==> r->0@ == spec_entry_for(entries@, name@)->0,
{
    let mut j: usize = 0;
    proof {
        assert(entries@.skip(0) =~= entries@);
    }
    while j < entries.len()
        invariant
            j <= entries@.len(),
            spec_entry_for(entries@, name@) == spec_entry_for(entries@.skip(j as int), name@),
        decreases entries@.len() - j,
    {
        if entries[j].reg_name == *name {
            return Some(&entries[j].seg_value);
        }
        proof {
            assert(entries@.skip(j as int).drop_first() =~= entries@.skip(j + 1));
        }
        j += 1;
    }
    None
}

/// Applies a persisted configuration onto the board, one aperture at a time:
/// each aperture whose entry parses, decodes and validates gets its new
/// hardware start address; every other aperture is left exactly as it was.
/// A failure on one aperture never blocks the others; the failing apertures'
/// register names come back together, in board order.
pub fn apply_seg_config(board: &mut soc::MPFS, entries: &Vec<SegEntry>) -> (failed: Vec<String>)
    ensures
        final(board).total_system_memory == old(board).total_system_memory,
        final(board).current_aperture_id == old(board).current_aperture_id,
        final(board).memory_apertures@.len() == old(board).memory_apertures@.len(),
        forall|i: int|
            0 <= i < old(board).memory_apertures@.len()
                ==> final(board).memory_apertures@[i] == spec_seg_applied(
                #[trigger] old(board).memory_apertures@[i],
                entries@,
                old(board).total_system_memory,
            ),
        failed.deep_view() == spec_failed_names(
            old(board).memory_apertures@,
            entries@,
            old(board).total_system_memory,
        ),
{
    let mut failed: Vec<String> = Vec::new();
    let total = board.total_system_memory;

    let mut i: usize = 0;
    while i < board.memory_apertures.len()
        invariant
            i <= board.memory_apertures@.len(),
            total == old(board).total_system_memory,
            board.total_system_memory == old(board).total_system_memory,
            board.current_aperture_id == old(board).current_aperture_id,
            board.memory_apertures@.len() == old(board).memory_apertures@.len(),
            forall|k: int|
                0 <= k < i ==> board.memory_apertures@[k] == spec_seg_applied(
                    #[trigger] old(board).memory_apertures@[k],
                    entries@,
                    total,
                ),
            forall|k: int|
                i <= k < board.memory_apertures@.len() ==> board.memory_apertures@[k] == old(
                    board,
                ).memory_apertures@[k],
            failed.deep_view() == spec_failed_names(
                old(board).memory_apertures@.take(i as int),
                entries@,
                total,
            ),
        decreases board.memory_apertures@.len() - i,
    {
        let reg_name = board.memory_apertures[i].reg_name.clone();
        let mut this_failed: bool = false;
        match find_entry(entries, &reg_name) {
            None => {},
            Some(seg_text) => {
                match parse_hex_u64(strip_hex_prefixes(seg_text.as_str())) {
                    None => {
                        this_failed = true;
                    },
                    Some(seg) => {
                        let r = board.memory_apertures[i].set_hw_start_addr_from_seg(total, seg);
                        if r.is_err() {
                            this_failed = true;
                        }
                    },
                }
            },
        }
        if this_failed {
            failed.push(reg_name);
        }
        proof {
            let aps = old(board).memory_apertures@;
            assert(aps.take(i + 1).drop_last() =~= aps.take(i as int));
            assert(aps.take(i + 1).last() == aps[i as int]);
            assert(failed.deep_view() =~= spec_failed_names(aps.take(i + 1), entries@, total));
        }
        i += 1;
    }
    proof {
        assert(old(board).memory_apertures@.take(old(board).memory_apertures@.len() as int)
            =~= old(board).memory_apertures@);
    }
    failed
}

/// The segment-value text an aperture persists as: its current encoding, or
/// `invalid` where the hardware start address lies above the bus address or
/// further below it than the register scheme can express.
pub open spec fn spec_seg_value_text(ap: MemoryAperture) -> Seq<char> {
    if ap.hardware_addr <= ap.bus_addr && (ap.bus_addr - ap.hardware_addr) / 0x100_0000 <= 0x4000 {
        spec_hex_format(spec_hw_start_addr_to_seg(ap.hardware_addr, ap.bus_addr), 0)
    } else {
        "invalid"@
    }
}

/// Derives one persisted entry per aperture, in board order — or the
/// aggregate fault when any aperture's hardware start address exceeds the
/// total system memory, for then the board's segment values are not
/// meaningful as a whole and nothing partial is emitted.
pub fn derive_seg_config(board: &soc::MPFS) -> (r: Result<Vec<SegEntry>, SegError>)
    ensures
        r is Ok <==> board.spec_config_valid(),
        r is Ok ==> r->Ok_0@.len() == board.memory_apertures@.len(),
        r is Ok ==> forall|i: int|
            0 <= i < board.memory_apertures@.len() ==> (#[trigger] r->Ok_0@[i].reg_name@)
                == board.memory_apertures@[i].reg_name@ && r->Ok_0@[i].seg_value@
                == spec_seg_value_text(board.memory_apertures@[i]),
{
    let total = board.total_system_memory;
    let mut i: usize = 0;
    while i < board.memory_apertures.len()
        invariant
            i <= board.memory_apertures@.len(),
            total == board.total_system_memory,
            forall|k: int|
                0 <= k < i ==> #[trigger] board.memory_apertures@[k].hw_start_addr_ok(total),
        decreases board.memory_apertures@.len() - i,
    {
        if board.memory_apertures[i].get_hw_start_addr(total).is_err() {
            return Err(SegError {});
        }
        i += 1;
    }

    let mut entries: Vec<SegEntry> = Vec::new();
    let mut k: usize = 0;
    while k < board.memory_apertures.len()
        invariant
            k <= board.memory_apertures@.len(),
            entries@.len() == k,
            forall|j: int|
                0 <= j < k ==> (#[trigger] entries@[j].reg_name@)
                    == board.memory_apertures@[j].reg_name@ && entries@[j].seg_value@
                    == spec_seg_value_text(board.memory_apertures@[j]),
        decreases board.memory_apertures@.len() - k,
    {
        let ap = &board.memory_apertures[k];
        let seg_value = match soc::try_hw_start_addr_to_seg(ap.hardware_addr, ap.bus_addr) {
            Some(seg) => format_hex(seg, 0),
            None => String::from_str("invalid"),
        };
        entries.push(SegEntry { reg_name: ap.reg_name.clone(), seg_value });
        proof {
            assert(entries@[k as int].reg_name@ == board.memory_apertures@[k as int].reg_name@);
            assert(entries@[k as int].seg_value@ == spec_seg_value_text(
                board.memory_apertures@[k as int],
            ));
        }
        k += 1;
    }
    Ok(entries)
}

} // verus!
