use epaper_drivers::sequencer::{
    InitSequencer, Outcome, SequencerState, StartError, POWER_ON_FLOOR_MS,
};
use epaper_drivers::transport::{Operation, Program};

fn done() -> Outcome {
    Outcome::Completed { busy_ms: 0 }
}

fn power_on_program() -> Program {
    let mut program = Program::new();
    program.command(0x04);
    program.wait_for_power_on();
    program.command(0x00);
    program
}

#[test]
fn the_floor_is_fifty_milliseconds() {
    assert_eq!(POWER_ON_FLOOR_MS, 50);
}

#[test]
fn an_empty_bring_up_is_ready_at_once() {
    let sequencer = InitSequencer::new(Program::new());
    assert_eq!(sequencer.current_state(), SequencerState::Ready);
    assert_eq!(sequencer.current(), None);
    assert_eq!(sequencer.result(), Some(Ok(())));
}

#[test]
fn operations_are_handed_out_in_order() {
    let mut program = Program::new();
    program.push(Operation::Delay(1));
    program.push(Operation::AwaitIdle);
    program.push(Operation::Delay(2));
    let mut sequencer = InitSequencer::new(program);
    assert_eq!(sequencer.current_state(), SequencerState::Running { next: 0 });
    assert_eq!(sequencer.current(), Some(&Operation::Delay(1)));
    assert_eq!(sequencer.result(), None);
    sequencer.advance(done());
    assert_eq!(sequencer.current(), Some(&Operation::AwaitIdle));
    sequencer.advance(Outcome::Completed { busy_ms: 3 });
    assert_eq!(sequencer.current_state(), SequencerState::Running { next: 2 });
    assert_eq!(sequencer.current(), Some(&Operation::Delay(2)));
    sequencer.advance(done());
    assert_eq!(sequencer.current_state(), SequencerState::Ready);
    assert_eq!(sequencer.current(), None);
    assert_eq!(sequencer.result(), Some(Ok(())));
}

fn run_to_power_on(busy_ms: u64) -> InitSequencer {
    let mut sequencer = InitSequencer::new(power_on_program());
    for _ in 0..4 {
        sequencer.advance(done());
    }
    assert_eq!(sequencer.current(), Some(&Operation::AwaitPowerOn));
    sequencer.advance(Outcome::Completed { busy_ms });
    sequencer
}

#[test]
fn power_on_in_49_ms_is_not_connected() {
    let sequencer = run_to_power_on(49);
    assert_eq!(sequencer.current_state(), SequencerState::Failed(StartError::NotConnected));
    assert_eq!(sequencer.result(), Some(Err(StartError::NotConnected)));
    assert_eq!(sequencer.current(), None);
}

#[test]
fn power_on_in_51_ms_goes_on() {
    let sequencer = run_to_power_on(51);
    assert_eq!(sequencer.current_state(), SequencerState::Running { next: 5 });
    assert_eq!(sequencer.result(), None);
}

#[test]
fn power_on_in_exactly_50_ms_goes_on() {
    let sequencer = run_to_power_on(50);
    assert_eq!(sequencer.current_state(), SequencerState::Running { next: 5 });
    assert_eq!(run_to_power_on(0).result(), Some(Err(StartError::NotConnected)));
    assert_eq!(run_to_power_on(u64::MAX).result(), None);
}

#[test]
fn an_ordinary_wait_checks_nothing() {
    let mut program = Program::new();
    program.wait_for_idle();
    let mut sequencer = InitSequencer::new(program);
    sequencer.advance(Outcome::Completed { busy_ms: 0 });
    assert_eq!(sequencer.result(), Some(Ok(())));
}

#[test]
fn a_failed_exchange_ends_the_bring_up() {
    let mut sequencer = InitSequencer::new(power_on_program());
    sequencer.advance(done());
    sequencer.advance(done());
    sequencer.advance(Outcome::TransportFailed);
    assert_eq!(sequencer.current_state(), SequencerState::Failed(StartError::Transport));
    assert_eq!(sequencer.result(), Some(Err(StartError::Transport)));
    assert_eq!(sequencer.current(), None);
}

#[test]
fn a_failed_power_on_wait_is_a_transport_error() {
    let mut sequencer = InitSequencer::new(power_on_program());
    for _ in 0..4 {
        sequencer.advance(done());
    }
    sequencer.advance(Outcome::TransportFailed);
    assert_eq!(sequencer.result(), Some(Err(StartError::Transport)));
}

#[test]
fn final_states_stay() {
    let mut failed = run_to_power_on(10);
    failed.advance(done());
    failed.advance(Outcome::TransportFailed);
    assert_eq!(failed.result(), Some(Err(StartError::NotConnected)));

    let mut ready = InitSequencer::new(Program::new());
    ready.advance(Outcome::TransportFailed);
    ready.advance(done());
    assert_eq!(ready.result(), Some(Ok(())));
}

#[test]
fn errors_say_what_went_wrong() {
    assert_eq!(
        StartError::NotConnected.message(),
        "Power On command returned in less than 50ms, card is probably not present"
    );
    assert_eq!(StartError::Transport.message(), "error with spi write");
}
