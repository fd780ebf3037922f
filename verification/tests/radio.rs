use lora_ratchet::device::keys::Config;
use lora_ratchet::radio::ReceiveWindow;
use lora_ratchet::radio::WindowAction;
use lora_ratchet::radio::WindowEvent;
use lora_ratchet::radio::WindowPhase;

fn config() -> Config {
    Config {
        deveui: [0; 8],
        appeui: [0; 8],
        dhr_const: 5,
        rx1_delay: 1000,
        rx1_duration: 500,
        rx2_delay: 2000,
        rx2_duration: 700,
    }
}

#[test]
fn the_pair_opens_with_the_first_delay() {
    let (window, action) = ReceiveWindow::open(&config());
    assert_eq!(window.phase, WindowPhase::Rx1Delay);
    assert_eq!(action, WindowAction::Sleep(1000));
    assert_eq!(window.rx1_duration, 500);
    assert_eq!(window.rx2_delay, 2000);
    assert_eq!(window.rx2_duration, 700);
}

#[test]
fn a_packet_in_the_first_window_is_delivered() {
    let (mut window, _) = ReceiveWindow::open(&config());
    assert_eq!(window.step(WindowEvent::Slept), WindowAction::Poll(500));
    assert_eq!(window.step(WindowEvent::Polled(Some(8))), WindowAction::ReadPacket);
    assert_eq!(
        window.step(WindowEvent::Read(Some(vec![1, 0, 0, 0xDA, 1, 2, 3, 0x21]))),
        WindowAction::Deliver(vec![1, 0, 0, 0xDA, 1, 2, 3, 0x21])
    );
    assert_eq!(window.phase, WindowPhase::Closed);
}

#[test]
fn first_window_miss_second_window_hit() {
    let (mut window, first) = ReceiveWindow::open(&config());
    assert_eq!(first, WindowAction::Sleep(1000));
    assert_eq!(window.step(WindowEvent::Slept), WindowAction::Poll(500));
    assert_eq!(window.step(WindowEvent::Polled(None)), WindowAction::Sleep(2000));
    assert_eq!(window.phase, WindowPhase::Rx2Delay);
    assert_eq!(window.step(WindowEvent::Slept), WindowAction::Poll(700));
    assert_eq!(window.step(WindowEvent::Polled(Some(8))), WindowAction::ReadPacket);
    assert_eq!(
        window.step(WindowEvent::Read(Some(vec![3, 0, 1, 0xDA, 1, 2, 3, 0x41]))),
        WindowAction::Deliver(vec![3, 0, 1, 0xDA, 1, 2, 3, 0x41])
    );
    assert_eq!(window.phase, WindowPhase::Closed);
}

#[test]
fn both_windows_missed_gives_no_bytes() {
    let (mut window, _) = ReceiveWindow::open(&config());
    window.step(WindowEvent::Slept);
    window.step(WindowEvent::Polled(None));
    window.step(WindowEvent::Slept);
    assert_eq!(window.step(WindowEvent::Polled(None)), WindowAction::Deliver(Vec::new()));
    assert_eq!(window.phase, WindowPhase::Closed);
}

#[test]
fn a_packet_that_cannot_be_read_counts_as_a_miss() {
    let (mut window, _) = ReceiveWindow::open(&config());
    window.step(WindowEvent::Slept);
    window.step(WindowEvent::Polled(Some(4)));
    assert_eq!(window.step(WindowEvent::Read(None)), WindowAction::Sleep(2000));
    window.step(WindowEvent::Slept);
    window.step(WindowEvent::Polled(Some(4)));
    assert_eq!(window.step(WindowEvent::Read(None)), WindowAction::Deliver(Vec::new()));
}

#[test]
fn a_closed_pair_stays_closed() {
    let (mut window, _) = ReceiveWindow::open(&config());
    window.step(WindowEvent::Slept);
    window.step(WindowEvent::Polled(None));
    window.step(WindowEvent::Slept);
    window.step(WindowEvent::Polled(None));
    let closed = window;
    assert_eq!(window.step(WindowEvent::Slept), WindowAction::Ignore);
    assert_eq!(window.step(WindowEvent::Polled(Some(1))), WindowAction::Ignore);
    assert_eq!(window.step(WindowEvent::Read(Some(vec![1]))), WindowAction::Ignore);
    assert_eq!(window, closed);
}

#[test]
fn window_events_out_of_turn_change_nothing() {
    let (mut window, _) = ReceiveWindow::open(&config());
    let before = window;
    assert_eq!(window.step(WindowEvent::Polled(Some(1))), WindowAction::Ignore);
    assert_eq!(window.step(WindowEvent::Read(Some(vec![1]))), WindowAction::Ignore);
    assert_eq!(window, before);
}
