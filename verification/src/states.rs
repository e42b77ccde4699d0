//! The wizard's finite state machine: a linear flow that asks for the total
//! system memory, an aperture to edit, and a new hardware start address, one
//! user-supplied value at a time.
//!
//! Each transition is a pure function from the current state, the board and
//! an optional line of input to the next state; the surrounding program owns
//! all prompting and screen handling, and treats a state with id
//! [`States::Exit`] as the signal to terminate.

use vstd::prelude::*;

use crate::hexfmt::{parse_hex_u64, spec_parse_hex, spec_strip_hex_prefixes, strip_hex_prefixes};
use crate::soc;
use crate::soc::MemoryAperture;

verus! {

/// One step of the wizard's linear flow.
#[derive(Copy, Clone, PartialEq, Eq, Structural, Debug)]
pub enum States {
    Init,
    SelectAperature,
    WaitForInput,
    SelectOperation,
    Exit,
}

/// The wizard's state: where it is, where it came from (which decides how
/// the next input line is interpreted), and the prompt to show.
#[derive(Clone)]
pub struct State {
    pub state_id: States,
    pub previous_state_id: States,
    pub command_text: String,
}

impl Default for State {
    fn default() -> (r: State)
        ensures
            r.state_id == States::Init,
            r.previous_state_id == States::Exit,
            r.command_text@ == "Press Enter to begin..."@,
    {
        State {
            state_id: States::Init,
            previous_state_id: States::Exit,
            command_text: String::from_str("Press Enter to begin..."),
        }
    }
}

/// The number the wizard reads out of one line of input: leading `0x`
/// prefixes removed, the rest taken as hexadecimal.
pub open spec fn spec_parsed_input(input: Option<String>) -> Option<u64> {
    match input {
        Option::None => Option::None,
        Option::Some(s) => spec_parse_hex(spec_strip_hex_prefixes(s@)),
    }
}

/// The opening transition: reset the total system memory to its 2 GiB
/// default and prompt for the real amount.
pub open spec fn init_transition(
    current_state: State,
    old_board: soc::MPFS,
    new_board: soc::MPFS,
    next: State,
) -> bool {
    &&& new_board.total_system_memory == 0x8000_0000
    &&& new_board.memory_apertures == old_board.memory_apertures
    &&& new_board.current_aperture_id == old_board.current_aperture_id
    &&& next.state_id == States::WaitForInput
    &&& next.previous_state_id == current_state.state_id
    &&& next.command_text@ == "Enter total system memory in hex:"@
}

/// Prompt for the aperture to edit; the board is untouched.
pub open spec fn select_aperature_transition(
    current_state: State,
    old_board: soc::MPFS,
    new_board: soc::MPFS,
    next: State,
) -> bool {
    &&& new_board == old_board
    &&& next.state_id == States::WaitForInput
    &&& next.previous_state_id == current_state.state_id
    &&& next.command_text@ == "Enter an aperature ID to edit:"@
}

/// Prompt for the selected aperture's new hardware start address; the board
/// is untouched.
pub open spec fn select_operation_transition(
    current_state: State,
    old_board: soc::MPFS,
    new_board: soc::MPFS,
    next: State,
) -> bool {
    &&& new_board == old_board
    &&& next.state_id == States::WaitForInput
    &&& next.previous_state_id == current_state.state_id
    &&& next.command_text@ == "Set hardware start address for "@
        + old_board.memory_apertures@[old_board.current_aperture_id->0 as int].description@ + ":"@
}

/// The closing transition: the board is untouched and the next state's id is
/// [`States::Exit`], which the surrounding program acts on.
pub open spec fn exit_transition(
    current_state: State,
    old_board: soc::MPFS,
    new_board: soc::MPFS,
    next: State,
) -> bool {
    &&& new_board == old_board
    &&& next.state_id == States::Exit
    &&& next.previous_state_id == current_state.state_id
    &&& next.command_text@ == current_state.command_text@
}

/// How one line of input is applied, decided by where the wizard came from:
/// after `Init` it is the total system memory, after `SelectAperature` the
/// aperture id, after `SelectOperation` the new hardware start address for
/// the selected aperture. A value that does not parse, an id out of range or
/// an address not below the total system memory leaves the board unchanged.
pub open spec fn wait_for_input_transition(
    current_state: State,
    old_board: soc::MPFS,
    new_board: soc::MPFS,
    input: Option<String>,
    next: State,
) -> bool {
    let parsed = spec_parsed_input(input);
    let aperture_count = old_board.memory_apertures@.len();
    let id = old_board.current_aperture_id->0 as int;
    &&& next.previous_state_id == current_state.previous_state_id
    &&& next.state_id == (if input is None {
        States::WaitForInput
    } else if current_state.previous_state_id == States::Init {
        if parsed is Some {
            States::SelectAperature
        } else {
            States::WaitForInput
        }
    } else if current_state.previous_state_id == States::SelectAperature {
        if parsed is None {
            States::SelectOperation
        } else if parsed->0 >= aperture_count {
            States::SelectAperature
        } else {
            States::SelectOperation
        }
    } else if current_state.previous_state_id == States::SelectOperation {
        if parsed is None {
            States::SelectOperation
        } else if parsed->0 < old_board.total_system_memory {
            States::SelectAperature
        } else {
            current_state.state_id
        }
    } else {
        States::WaitForInput
    })
    &&& next.command_text@ == (if input is Some && current_state.previous_state_id == States::Init
        && parsed is None {
        "Invalid amount of system memory ("@ + input->0@ + "). Please enter a hex number"@
    } else if input is Some && current_state.previous_state_id == States::SelectAperature
        && parsed is Some && parsed->0 >= aperture_count {
        "Invalid aperature ID"@
    } else {
        current_state.command_text@
    })
    &&& new_board.total_system_memory == (if input is Some
        && current_state.previous_state_id == States::Init && parsed is Some {
        parsed->0
    } else {
        old_board.total_system_memory
    })
    &&& new_board.current_aperture_id == (if input is Some
        && current_state.previous_state_id == States::SelectAperature && parsed is Some
        && parsed->0 < aperture_count {
        Option::Some(parsed->0 as usize)
    } else {
        old_board.current_aperture_id
    })
    &&& new_board.memory_apertures@ == (if input is Some
        && current_state.previous_state_id == States::SelectOperation && parsed is Some
        && parsed->0 < old_board.total_system_memory {
        old_board.memory_apertures@.update(
            id,
            (MemoryAperture { hardware_addr: parsed->0, ..old_board.memory_apertures@[id] }),
        )
    } else {
        old_board.memory_apertures@
    })
}

fn init_handler(current_state: State, board: &mut soc::MPFS, input: Option<String>) -> (next:
    State)
    ensures
        init_transition(current_state, *old(board), *final(board), next),
{
    board.total_system_memory = 0x8000_0000;

    State {
        state_id: States::WaitForInput,
        previous_state_id: current_state.state_id,
        command_text: String::from_str("Enter total system memory in hex:"),
    }
}

fn select_aperature_handler(current_state: State, board: &mut soc::MPFS, input: Option<String>)
    -> (next: State)
    ensures
        select_aperature_transition(current_state, *old(board), *final(board), next),
{
    State {
        state_id: States::WaitForInput,
        previous_state_id: current_state.state_id,
        command_text: String::from_str("Enter an aperature ID to edit:"),
    }
}

fn wait_for_input_handler(current_state: State, board: &mut soc::MPFS, input: Option<String>)
    -> (next: State)
    requires
        current_state.previous_state_id == States::SelectOperation ==> old(
            board,
        ).current_aperture_id is Some && old(board).current_aperture_id->0 < old(
            board,
        ).memory_apertures@.len(),
    ensures
        wait_for_input_transition(current_state, *old(board), *final(board), input, next),
{
    let mut next_state = State {
        state_id: States::WaitForInput,
        previous_state_id: current_state.previous_state_id,
        command_text: current_state.command_text,
    };

    if input.is_none() {
        return next_state;
    }

    if current_state.previous_state_id == States::Init {
        let memory_raw: String = input.unwrap();
        let memory = parse_hex_u64(strip_hex_prefixes(memory_raw.as_str()));
        match memory {
            Option::None => {
                let mut text = String::from_str("Invalid amount of system memory (");
                text.append(memory_raw.as_str());
                text.append("). Please enter a hex number");
                next_state.command_text = text;
                next_state.state_id = States::WaitForInput;
                return next_state;
            },
            Option::Some(memory) => {
                board.total_system_memory = memory;
                next_state.state_id = States::SelectAperature;
                return next_state;
            },
        }
    }

    if current_state.previous_state_id == States::SelectAperature {
        let aperature_id_raw: String = input.unwrap();
        let aperature_id = parse_hex_u64(strip_hex_prefixes(aperature_id_raw.as_str()));
        match aperature_id {
            Option::None => {
                next_state.state_id = States::SelectOperation;
                return next_state;
            },
            Option::Some(id) => {
                if id >= board.memory_apertures.len() as u64 {
                    next_state.state_id = States::SelectAperature;
                    next_state.command_text = String::from_str("Invalid aperature ID");
                    return next_state;
                }
                board.current_aperture_id = Some(id as usize);
                next_state.state_id = States::SelectOperation;
                return next_state;
            },
        }
    }

    if current_state.previous_state_id == States::SelectOperation {
        let addr_raw: String = input.unwrap();
        let addr = parse_hex_u64(strip_hex_prefixes(addr_raw.as_str()));
        match addr {
            Option::None => {
                next_state.state_id = States::SelectOperation;
                return next_state;
            },
            Option::Some(addr) => {
                let current_aperture_id = board.current_aperture_id.unwrap();
                if board.set_hw_start_addr_by_id(addr, current_aperture_id).is_err() {
                    next_state.state_id = current_state.state_id;
                    next_state.previous_state_id = States::SelectOperation;
                    return next_state;
                }
                next_state.state_id = States::SelectAperature;
                return next_state;
            },
        }
    }

    next_state
}

fn select_operation_handler(current_state: State, board: &mut soc::MPFS, input: Option<String>)
    -> (next: State)
    requires
        old(board).current_aperture_id is Some,
        old(board).current_aperture_id->0 < old(board).memory_apertures@.len(),
    ensures
        select_operation_transition(current_state, *old(board), *final(board), next),
{
    let current_aperture_id = board.current_aperture_id.unwrap();

    let mut text = String::from_str("Set hardware start address for ");
    text.append(board.memory_apertures[current_aperture_id].description.as_str());
    text.append(":");

    State {
        state_id: States::WaitForInput,
        previous_state_id: current_state.state_id,
        command_text: text,
    }
}

fn exit_handler(current_state: State, board: &mut soc::MPFS, input: Option<String>) -> (next:
    State)
    ensures
        exit_transition(current_state, *old(board), *final(board), next),
{
    State {
        state_id: States::Exit,
        previous_state_id: current_state.state_id,
        command_text: current_state.command_text,
    }
}

/// Takes the newest pending message, dropping any older ones: the wizard
/// only ever acts on the line entered last.
pub fn handle_messages(messages: &mut Vec<String>) -> (r: Option<String>)
    ensures
        final(messages)@.len() == 0,
        old(messages)@.len() == 0 ==> r is None,
        old(messages)@.len() > 0 ==> r == Option::Some(old(messages)@.last()),
{
    if messages.is_empty() {
        return None;
    }

    let message = messages.pop();
    messages.clear();
    message
}

/// Applies the handler for the current state to the newest pending input
/// line, drops the rest, and returns the next state.
///
/// `id` out of range for a selected aperture is a programming-contract
/// violation, excluded here rather than handled: the caller bound-checks
/// user-supplied indices before they reach the board.
pub fn get_next_state(current_state: State, board: &mut soc::MPFS, input: &mut Vec<String>) -> (next:
    State)
    requires
        (current_state.state_id == States::SelectOperation || (current_state.state_id
            == States::WaitForInput && current_state.previous_state_id
            == States::SelectOperation)) ==> old(board).current_aperture_id is Some && old(
            board,
        ).current_aperture_id->0 < old(board).memory_apertures@.len(),
    ensures
        final(input)@.len() == 0,
        ({
            let message = if old(input)@.len() > 0 {
                Option::Some(old(input)@.last())
            } else {
                Option::None
            };
            match current_state.state_id {
                States::Init => init_transition(current_state, *old(board), *final(board), next),
                States::SelectAperature => select_aperature_transition(
                    current_state,
                    *old(board),
                    *final(board),
                    next,
                ),
                States::WaitForInput => wait_for_input_transition(
                    current_state,
                    *old(board),
                    *final(board),
                    message,
                    next,
                ),
                States::SelectOperation => select_operation_transition(
                    current_state,
                    *old(board),
                    *final(board),
                    next,
                ),
                States::Exit => exit_transition(current_state, *old(board), *final(board), next),
            }
        }),
{
    let message = input.pop();
    let state_id = current_state.state_id;
    let next_state = match state_id {
        States::Init => init_handler(current_state, board, message),
        States::SelectAperature => select_aperature_handler(current_state, board, message),
        States::WaitForInput => wait_for_input_handler(current_state, board, message),
        States::SelectOperation => select_operation_handler(current_state, board, message),
        States::Exit => exit_handler(current_state, board, message),
    };
    input.clear();

    next_state
}

} // verus!
