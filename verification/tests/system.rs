use led_flasher::button;
use led_flasher::critical_section::CriticalSection;
use led_flasher::dispatch::dispatch_step;
use led_flasher::event::Event;
use led_flasher::event::EventChannel;
use led_flasher::exception;
use led_flasher::exception::HaltReason;
use led_flasher::led;
use led_flasher::led::LedColor;
use led_flasher::led_flash_controller::LedFlashController;
use led_flasher::state_machine::StateMachine;
use led_flasher::systick;

#[test]
fn main_it_works() {}

#[test]
fn a_button_press_increments_the_flash_count() {
    let mut m = StateMachine::new();
    assert_eq!(1, m.flash_count);
    assert_eq!(None, m.execute(&Event::ButtonPress));
    assert_eq!(2, m.flash_count);
}

#[test]
fn an_idle_tick_requests_a_flash_with_the_dialled_count() {
    let mut m = StateMachine::new();
    m.execute(&Event::ButtonPress);
    let request = m.execute(&Event::TimeTick);
    assert_eq!(Some(Event::FlashLed { count: 2, on_time: 4, off_time: 3 }), request);
    assert!(m.flash_in_progress);

    // While a cycle is in progress further ticks request nothing.
    assert_eq!(None, m.execute(&Event::TimeTick));
}

#[test]
fn done_rearms_the_pause_before_the_next_request() {
    let mut m = StateMachine::new();
    m.execute(&Event::TimeTick); // Starts a cycle.
    assert_eq!(None, m.execute(&Event::FlashLedDone));
    assert!(!m.flash_in_progress);
    assert_eq!(20, m.pause_time_remaining);

    // The pause waits out 20 ticks in silence...
    for _ in 0..20 {
        assert_eq!(None, m.execute(&Event::TimeTick));
    }
    // ...and the very next tick starts the next cycle.
    assert_eq!(
        Some(Event::FlashLed { count: 1, on_time: 4, off_time: 3 }),
        m.execute(&Event::TimeTick)
    );
}

#[test]
fn led_drive_events_name_their_color() {
    assert_eq!(Some(LedColor::Red), led::command_for(&Event::LedTurnOn));
    assert_eq!(Some(LedColor::Off), led::command_for(&Event::LedTurnOff));
    assert_eq!(None, led::command_for(&Event::TimeTick));
    assert_eq!(None, led::command_for(&Event::ButtonPress));
}

#[test]
fn fault_handlers_name_their_vector() {
    assert_eq!(HaltReason::UnexpectedException, exception::default_handler());
    assert_eq!(HaltReason::NonMaskableInterrupt, exception::nmi());
    assert_eq!(HaltReason::HardFault, exception::hard_fault());
    assert_eq!(HaltReason::MemoryFault, exception::memory_fault());
    assert_eq!(HaltReason::BusFault, exception::bus_fault());
    assert_eq!(HaltReason::UsageFault, exception::usage_fault());
}

#[test]
fn an_empty_channel_dispatches_nothing() {
    let mut cs = CriticalSection::new();
    let mut channel = EventChannel::new();
    channel.init();
    let mut coordinator = StateMachine::new();
    let mut controller = LedFlashController::new();

    let processed = dispatch_step(&mut channel, &mut cs, &mut coordinator, &mut controller);
    assert_eq!(None, processed);
    assert_eq!(0, channel.pending());
}

#[test]
fn one_iteration_drains_one_event_and_raises_the_follow_up() {
    let mut cs = CriticalSection::new();
    let mut channel = EventChannel::new();
    channel.init();
    let mut coordinator = StateMachine::new();
    let mut controller = LedFlashController::new();

    systick::handler(&mut channel, &mut cs);

    // The idle tick is consumed and the coordinator's flash request is
    // raised back into the channel for a future drain.
    let processed = dispatch_step(&mut channel, &mut cs, &mut coordinator, &mut controller);
    assert_eq!(Some(Event::TimeTick), processed);
    assert_eq!(1, channel.pending());

    let processed = dispatch_step(&mut channel, &mut cs, &mut coordinator, &mut controller);
    assert_eq!(Some(Event::FlashLed { count: 1, on_time: 4, off_time: 3 }), processed);
    assert_eq!(0, channel.pending());
}

/// Drive the dispatch loop as the device would run: when the channel is
/// drained, fire the periodic tick interrupt, and record every event the
/// loop consumes.
fn run_collecting(
    iterations: usize,
    channel: &mut EventChannel,
    cs: &mut CriticalSection,
    coordinator: &mut StateMachine,
    controller: &mut LedFlashController,
) -> Vec<Event> {
    let mut processed: Vec<Event> = Vec::new();
    for _ in 0..iterations {
        match dispatch_step(channel, cs, coordinator, controller) {
            Some(e) => processed.push(e),
            None => systick::handler(channel, cs),
        }
    }
    processed
}

#[test]
fn two_presses_make_the_first_request_count_three_and_done_pauses_twenty_ticks() {
    let mut cs = CriticalSection::new();
    let mut channel = EventChannel::new();
    channel.init();
    let mut coordinator = StateMachine::new();
    let mut controller = LedFlashController::new();

    // Two button edges fire before the timer gets going.
    button::handler(&mut channel, &mut cs);
    button::handler(&mut channel, &mut cs);

    let processed = run_collecting(
        400,
        &mut channel,
        &mut cs,
        &mut coordinator,
        &mut controller,
    );

    // The first flash request carries the initial count of one plus the two
    // presses.
    let first_request = processed
        .iter()
        .position(|e| matches!(e, Event::FlashLed { .. }))
        .unwrap();
    assert_eq!(
        Event::FlashLed { count: 3, on_time: 4, off_time: 3 },
        processed[first_request]
    );

    // The sequence completes, and after its completion report exactly 20
    // consumed ticks pass in silence; the 21st tick raises the next request.
    let done = processed
        .iter()
        .position(|e| matches!(e, Event::FlashLedDone))
        .unwrap();
    let next_request = done
        + 1
        + processed[done + 1..]
            .iter()
            .position(|e| matches!(e, Event::FlashLed { .. }))
            .unwrap();
    let ticks_between = processed[done + 1..next_request]
        .iter()
        .filter(|e| matches!(e, Event::TimeTick))
        .count();
    assert_eq!(21, ticks_between); // 20 ticks of pause, then the tick that requests.
    assert_eq!(
        Event::FlashLed { count: 3, on_time: 4, off_time: 3 },
        processed[next_request]
    );

    // Nothing but ticks was consumed between the report and the request.
    assert!(processed[done + 1..next_request]
        .iter()
        .all(|e| matches!(e, Event::TimeTick)));
}
