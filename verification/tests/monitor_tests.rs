use analog_monitor::ANALOG_BUFFER_READ_MAX;
use analog_monitor::DEVICE_BUFFER_MAX;
use analog_monitor::POLL_INTERVAL_MS;
use analog_monitor::device::AnalogReading;
use analog_monitor::device::DeviceInfo;
use analog_monitor::device::DeviceKind;
use analog_monitor::monitor::Command;
use analog_monitor::monitor::Event;
use analog_monitor::monitor::LogLevel;
use analog_monitor::monitor::Phase;
use analog_monitor::monitor::SdkError;
use analog_monitor::monitor::step;

fn sdk_error(message: &str) -> SdkError {
    SdkError { message: String::from(message) }
}

fn sample_device(name: &str) -> DeviceInfo {
    DeviceInfo {
        vendor_id: 0x31E3,
        product_id: 0x1100,
        manufacturer_name: String::from("Wooting"),
        device_name: String::from(name),
        device_id: String::from("42"),
        device_kind: DeviceKind::Keyboard,
    }
}

#[test]
fn fixed_bounds() {
    assert_eq!(DEVICE_BUFFER_MAX, 5);
    assert_eq!(ANALOG_BUFFER_READ_MAX, 40);
    assert_eq!(POLL_INTERVAL_MS, 100);
}

#[test]
fn boot_logs_banner_and_requests_initialization() {
    let (phase, out) = step(Phase::Boot, Event::Start);
    assert_eq!(phase, Phase::AwaitingInit);
    assert_eq!(out.logs.len(), 1);
    assert_eq!(out.logs[0].level, LogLevel::Info);
    assert_eq!(out.logs[0].text, "Starting Wooting Analog SDK!");
    assert!(out.console.is_empty());
    assert_eq!(out.sleep_ms, 0);
    assert_eq!(out.next, Command::Initialize);
}

#[test]
fn init_failure_exits_with_status_one() {
    let event = Event::InitDone { result: Err(sdk_error("no runtime found")) };
    let (phase, out) = step(Phase::AwaitingInit, event);
    assert_eq!(phase, Phase::Finished { exit_code: 1 });
    assert!(out.console.is_empty());
    assert_eq!(out.next, Command::Exit { code: 1 });
    assert_eq!(out.logs.len(), 2);
    assert_eq!(out.logs[0].level, LogLevel::Error);
    assert_eq!(out.logs[0].text, "Error initializing SDK: no runtime found");
    assert_eq!(out.logs[1].level, LogLevel::Error);
    assert_eq!(out.logs[1].text, "Error: Wooting Analog SDK Failed to initialise");
}

#[test]
fn init_success_requests_enumeration_with_fixed_bound() {
    let (phase, out) = step(Phase::AwaitingInit, Event::InitDone { result: Ok(2) });
    assert_eq!(phase, Phase::AwaitingDevices { device_num: 2 });
    assert_eq!(out.logs.len(), 1);
    assert_eq!(out.logs[0].level, LogLevel::Info);
    assert_eq!(out.logs[0].text, "Analog SDK Successfully initialised with 2 devices");
    assert!(out.console.is_empty());
    assert_eq!(out.next, Command::ListDevices { max: 5 });
}

#[test]
fn zero_devices_exits_cleanly_without_prompt() {
    let event = Event::DevicesListed { result: Ok(Vec::new()) };
    let (phase, out) = step(Phase::AwaitingDevices { device_num: 0 }, event);
    assert_eq!(phase, Phase::Finished { exit_code: 0 });
    assert!(out.console.is_empty());
    assert_eq!(out.logs.len(), 1);
    assert_eq!(out.logs[0].level, LogLevel::Warn);
    assert_eq!(out.logs[0].text, "No Wooting devices found.");
    assert_eq!(out.next, Command::Exit { code: 0 });
}

#[test]
fn enumeration_failure_exits_with_status_one() {
    let event = Event::DevicesListed { result: Err(sdk_error("device went away")) };
    let (phase, out) = step(Phase::AwaitingDevices { device_num: 2 }, event);
    assert_eq!(phase, Phase::Finished { exit_code: 1 });
    assert!(out.console.is_empty());
    assert_eq!(out.logs.len(), 1);
    assert_eq!(out.logs[0].level, LogLevel::Error);
    assert_eq!(out.logs[0].text, "Error: device went away");
    assert_eq!(out.next, Command::Exit { code: 1 });
}

#[test]
fn two_devices_print_indexed_lines_then_prompt() {
    let devices = vec![sample_device("Wooting One"), sample_device("Wooting Two")];
    let event = Event::DevicesListed { result: Ok(devices) };
    let (phase, out) = step(Phase::AwaitingDevices { device_num: 2 }, event);
    assert_eq!(phase, Phase::Polling);
    assert!(out.logs.is_empty());
    assert_eq!(out.console.len(), 3);
    assert_eq!(
        out.console[0],
        "Device 0: VID: 31E3, PID: 1100, Manufacturer: Wooting, Name: Wooting One, ID: 42, Type: Keyboard"
    );
    assert_eq!(
        out.console[1],
        "Device 1: VID: 31E3, PID: 1100, Manufacturer: Wooting, Name: Wooting Two, ID: 42, Type: Keyboard"
    );
    assert_eq!(
        out.console[2],
        "Press any key on the Wooting keyboard to see the analog value. Press Ctrl+C to exit."
    );
    assert_eq!(out.sleep_ms, 0);
    assert_eq!(out.next, Command::ReadSnapshot { max: 40 });
}

#[test]
fn snapshot_prints_readings_in_given_order() {
    let readings = vec![
        AnalogReading { key_id: 3, magnitude_ten_thousandths: 8000 },
        AnalogReading { key_id: 7, magnitude_ten_thousandths: 1234 },
    ];
    let event = Event::SnapshotRead { result: Ok(readings) };
    let (phase, out) = step(Phase::Polling, event);
    assert_eq!(phase, Phase::Polling);
    assert!(out.logs.is_empty());
    assert_eq!(out.console.len(), 2);
    assert_eq!(out.console[0], "Key ID: 3, Analog Value: 0.8000");
    assert_eq!(out.console[1], "Key ID: 7, Analog Value: 0.1234");
    assert_eq!(out.sleep_ms, 100);
    assert_eq!(out.next, Command::ReadSnapshot { max: 40 });
}

#[test]
fn empty_snapshot_prints_nothing_but_keeps_polling() {
    let event = Event::SnapshotRead { result: Ok(Vec::new()) };
    let (phase, out) = step(Phase::Polling, event);
    assert_eq!(phase, Phase::Polling);
    assert!(out.console.is_empty());
    assert!(out.logs.is_empty());
    assert_eq!(out.sleep_ms, 100);
    assert_eq!(out.next, Command::ReadSnapshot { max: 40 });
}

#[test]
fn failed_read_logs_error_and_keeps_polling() {
    let event = Event::SnapshotRead { result: Err(sdk_error("momentarily disconnected")) };
    let (phase, out) = step(Phase::Polling, event);
    assert_eq!(phase, Phase::Polling);
    assert!(out.console.is_empty());
    assert_eq!(out.logs.len(), 1);
    assert_eq!(out.logs[0].level, LogLevel::Error);
    assert_eq!(out.logs[0].text, "Error reading analog buffer: momentarily disconnected");
    assert_eq!(out.sleep_ms, 100);
    assert_eq!(out.next, Command::ReadSnapshot { max: 40 });
}

#[test]
fn full_scenario_two_devices_then_readings() {
    let (phase, out) = step(Phase::Boot, Event::Start);
    assert_eq!(out.next, Command::Initialize);
    let (phase, out) = step(phase, Event::InitDone { result: Ok(2) });
    assert_eq!(out.next, Command::ListDevices { max: 5 });
    let devices = vec![sample_device("Wooting One"), sample_device("Wooting Two")];
    let (phase, out) = step(phase, Event::DevicesListed { result: Ok(devices) });
    assert_eq!(phase, Phase::Polling);
    assert_eq!(out.console.len(), 3);
    assert_eq!(out.next, Command::ReadSnapshot { max: 40 });
    let readings = vec![
        AnalogReading { key_id: 3, magnitude_ten_thousandths: 8000 },
        AnalogReading { key_id: 7, magnitude_ten_thousandths: 1234 },
    ];
    let (phase, out) = step(phase, Event::SnapshotRead { result: Ok(readings) });
    assert_eq!(phase, Phase::Polling);
    assert_eq!(
        out.console,
        vec![
            String::from("Key ID: 3, Analog Value: 0.8000"),
            String::from("Key ID: 7, Analog Value: 0.1234"),
        ]
    );
    assert_eq!(out.sleep_ms, 100);
    assert_eq!(out.next, Command::ReadSnapshot { max: 40 });
}
