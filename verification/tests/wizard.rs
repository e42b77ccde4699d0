use mpfs_aperture::soc::MPFS;
use mpfs_aperture::states::{get_next_state, handle_messages, State, States};

fn step(state: State, board: &mut MPFS, line: Option<&str>) -> State {
    let mut input: Vec<String> = Vec::new();
    if let Some(line) = line {
        input.push(line.to_string());
    }
    get_next_state(state, board, &mut input)
}

#[test]
fn initial_state_prompts_to_begin() {
    let state = State::default();
    assert_eq!(state.state_id, States::Init);
    assert_eq!(state.previous_state_id, States::Exit);
    assert_eq!(state.command_text, "Press Enter to begin...");
}

#[test]
fn init_resets_total_and_asks_for_memory() {
    let mut board = MPFS::default();
    board.total_system_memory = 0x1234;
    let state = step(State::default(), &mut board, None);
    assert_eq!(board.total_system_memory, 0x8000_0000);
    assert_eq!(state.state_id, States::WaitForInput);
    assert_eq!(state.previous_state_id, States::Init);
    assert_eq!(state.command_text, "Enter total system memory in hex:");
}

#[test]
fn full_pass_sets_an_aperture() {
    let mut board = MPFS::default();
    let state = step(State::default(), &mut board, None);

    // Total system memory.
    let state = step(state, &mut board, Some("0x20000000"));
    assert_eq!(board.total_system_memory, 0x2000_0000);
    assert_eq!(state.state_id, States::SelectAperature);

    // Aperture selection prompt.
    let state = step(state, &mut board, None);
    assert_eq!(state.state_id, States::WaitForInput);
    assert_eq!(state.previous_state_id, States::SelectAperature);
    assert_eq!(state.command_text, "Enter an aperature ID to edit:");

    // Pick aperture 1.
    let state = step(state, &mut board, Some("1"));
    assert_eq!(board.current_aperture_id, Some(1));
    assert_eq!(state.state_id, States::SelectOperation);

    // Address prompt names the selected aperture.
    let state = step(state, &mut board, None);
    assert_eq!(state.state_id, States::WaitForInput);
    assert_eq!(state.previous_state_id, States::SelectOperation);
    assert_eq!(state.command_text, "Set hardware start address for 64-bit non-cached:");

    // New start address, below the total.
    let state = step(state, &mut board, Some("0x1000000"));
    assert_eq!(board.memory_apertures[1].hardware_addr, 0x100_0000);
    assert_eq!(state.state_id, States::SelectAperature);
}

#[test]
fn bad_memory_input_reports_and_reprompts() {
    let mut board = MPFS::default();
    let state = step(State::default(), &mut board, None);
    let state = step(state, &mut board, Some("lots"));
    assert_eq!(board.total_system_memory, 0x8000_0000);
    assert_eq!(state.state_id, States::WaitForInput);
    assert_eq!(state.previous_state_id, States::Init);
    assert_eq!(
        state.command_text,
        "Invalid amount of system memory (lots). Please enter a hex number"
    );
}

#[test]
fn aperture_id_out_of_range_reprompts() {
    let mut board = MPFS::default();
    let state = step(State::default(), &mut board, None);
    let state = step(state, &mut board, Some("0x80000000"));
    let state = step(state, &mut board, None);
    let state = step(state, &mut board, Some("9"));
    assert_eq!(board.current_aperture_id, None);
    assert_eq!(state.state_id, States::SelectAperature);
    assert_eq!(state.command_text, "Invalid aperature ID");
}

#[test]
fn address_at_or_above_total_is_rejected() {
    let mut board = MPFS::default();
    let state = step(State::default(), &mut board, None);
    let state = step(state, &mut board, Some("0x20000000"));
    let state = step(state, &mut board, None);
    let state = step(state, &mut board, Some("0"));
    let state = step(state, &mut board, None);

    let before = board.memory_apertures[0].hardware_addr;
    let state = step(state, &mut board, Some("0x20000000"));
    assert_eq!(board.memory_apertures[0].hardware_addr, before);
    assert_eq!(state.state_id, States::WaitForInput);
    assert_eq!(state.previous_state_id, States::SelectOperation);
}

#[test]
fn newest_message_wins() {
    let mut messages = vec!["first".to_string(), "second".to_string()];
    assert_eq!(handle_messages(&mut messages), Some("second".to_string()));
    assert!(messages.is_empty());
}

#[test]
fn no_message_yields_none() {
    let mut messages: Vec<String> = Vec::new();
    assert_eq!(handle_messages(&mut messages), None);
    assert!(messages.is_empty());
}

#[test]
fn pending_lines_are_dropped_after_a_step() {
    let mut board = MPFS::default();
    let mut input = vec!["0x100".to_string(), "0x200".to_string()];
    let state = get_next_state(State::default(), &mut board, &mut input);
    assert!(input.is_empty());
    assert_eq!(state.state_id, States::WaitForInput);
}
