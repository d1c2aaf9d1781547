//! The monitor's control logic as a state machine: from each phase and the
//! outcome of the last requested operation, the exact log lines, console
//! lines, pause and next operation, and the next phase.

use vstd::pervasive::unreached;
use vstd::prelude::*;
use vstd::string::StrSliceExecFns;
use vstd::string::StringExecFns;

use crate::ANALOG_BUFFER_READ_MAX;
use crate::DEVICE_BUFFER_MAX;
use crate::POLL_INTERVAL_MS;
use crate::device::AnalogReading;
use crate::device::DeviceInfo;
use crate::device::device_line;
use crate::device::device_line_view;
use crate::device::key_line;
use crate::device::key_line_view;
use crate::render::dec_view;
use crate::render::u64_dec;

verus! {

/// An error the analog SDK reported, carried as the text it displays as.
#[derive(Clone, Debug, PartialEq, Eq)]
pub struct SdkError {
    pub message: String,
}

/// Severity of one log line.
#[derive(Clone, Copy, Debug, PartialEq, Eq, Structural)]
pub enum LogLevel {
    Info,
    Warn,
    Error,
}

/// One line for the terminal logger.
#[derive(Clone, Debug, PartialEq, Eq)]
pub struct LogLine {
    pub level: LogLevel,
    pub text: String,
}

/// Where the monitor stands. A finished phase accepts no further event.
#[derive(Clone, Copy, Debug, PartialEq, Eq, Structural)]
pub enum Phase {
    /// Nothing has happened yet.
    Boot,
    /// The SDK initialization has been requested.
    AwaitingInit,
    /// Initialization reported `device_num` devices; the enumeration has
    /// been requested.
    AwaitingDevices { device_num: u32 },
    /// The monitor polls analog snapshots forever.
    Polling,
    /// The run is over; the process exits with `exit_code`.
    Finished { exit_code: u8 },
}

/// The outcome of the operation the monitor last requested.
#[derive(Debug, PartialEq, Eq)]
pub enum Event {
    /// The monitor is started.
    Start,
    /// The SDK initialization returned: the device count, or an error.
    InitDone { result: Result<u32, SdkError> },
    /// The device enumeration returned.
    DevicesListed { result: Result<Vec<DeviceInfo>, SdkError> },
    /// One analog snapshot read returned.
    SnapshotRead { result: Result<Vec<AnalogReading>, SdkError> },
}

/// The operation the monitor asks its caller to perform next.
#[derive(Clone, Copy, Debug, PartialEq, Eq, Structural)]
pub enum Command {
    /// Initialize the SDK, exactly once, before anything else.
    Initialize,
    /// Enumerate up to `max` connected devices.
    ListDevices { max: usize },
    /// Read one analog snapshot of up to `max` keys.
    ReadSnapshot { max: usize },
    /// Exit the process with `code`.
    Exit { code: u8 },
}

/// Everything one step asks of the caller: log lines, console lines, a pause
/// in milliseconds before the next operation, and that operation.
#[derive(Debug, PartialEq, Eq)]
pub struct Output {
    pub logs: Vec<LogLine>,
    pub console: Vec<String>,
    pub sleep_ms: u64,
    pub next: Command,
}

/// The log lines as level/text pairs.
pub open spec fn logs_of(v: Seq<LogLine>) -> Seq<(LogLevel, Seq<char>)> {
    v.map_values(|l: LogLine| (l.level, l.text@))
}

/// The console lines as character sequences.
pub open spec fn lines_of(v: Seq<String>) -> Seq<Seq<char>> {
    v.map_values(|s: String| s@)
}

/// The startup banner.
pub open spec fn start_log_view() -> Seq<char> {
    "Starting Wooting Analog SDK!"@
}

/// The log line for a successful initialization reporting `n` devices.
pub open spec fn init_ok_log_view(n: u32) -> Seq<char> {
    "Analog SDK Successfully initialised with "@ + dec_view(n as nat) + " devices"@
}

/// The first log line for a failed initialization.
pub open spec fn init_err_log_view(err: SdkError) -> Seq<char> {
    "Error initializing SDK: "@ + err.message@
}

/// The terminating log line for a failed initialization.
pub open spec fn init_err_exit_log_view() -> Seq<char> {
    "Error: Wooting Analog SDK Failed to initialise"@
}

/// The terminating log line for a failed device enumeration.
pub open spec fn enum_err_log_view(err: SdkError) -> Seq<char> {
    "Error: "@ + err.message@
}

/// The warning when no devices are connected.
pub open spec fn no_devices_log_view() -> Seq<char> {
    "No Wooting devices found."@
}

/// The log line for a failed snapshot read.
pub open spec fn read_err_log_view(err: SdkError) -> Seq<char> {
    "Error reading analog buffer: "@ + err.message@
}

/// The prompt printed on entering the polling loop.
pub open spec fn prompt_view() -> Seq<char> {
    "Press any key on the Wooting keyboard to see the analog value. Press Ctrl+C to exit."@
}

/// The console lines of a device listing, one per device, indexed from zero.
pub open spec fn device_lines_view(devs: Seq<DeviceInfo>) -> Seq<Seq<char>> {
    Seq::new(devs.len(), |i: int| device_line_view(i as nat, devs[i]))
}

/// The console lines of one snapshot, in the snapshot's own order.
pub open spec fn key_lines_view(rs: Seq<AnalogReading>) -> Seq<Seq<char>> {
    Seq::new(rs.len(), |i: int| key_line_view(rs[i]))
}

/// Whether `ev` is the outcome the monitor awaits in phase `p`.
pub open spec fn event_fits(p: Phase, ev: Event) -> bool {
    match (p, ev) {
        (Phase::Boot, Event::Start) => true,
        (Phase::AwaitingInit, Event::InitDone { .. }) => true,
        (Phase::AwaitingDevices { .. }, Event::DevicesListed { .. }) => true,
        (Phase::Polling, Event::SnapshotRead { .. }) => true,
        _ => false,
    }
}

/// The phase after `ev` arrives in phase `p`.
pub open spec fn next_phase(p: Phase, ev: Event) -> Phase {
    match (p, ev) {
        (Phase::Boot, Event::Start) => Phase::AwaitingInit,
        (Phase::AwaitingInit, Event::InitDone { result }) => match result {
            Ok(n) => Phase::AwaitingDevices { device_num: n },
            Err(_) => Phase::Finished { exit_code: 1 },
        },
        (Phase::AwaitingDevices { device_num }, Event::DevicesListed { result }) => match result {
            Ok(_) => if device_num == 0 {
                Phase::Finished { exit_code: 0 }
            } else {
                Phase::Polling
            },
            Err(_) => Phase::Finished { exit_code: 1 },
        },
        (Phase::Polling, Event::SnapshotRead { .. }) => Phase::Polling,
        _ => p,
    }
}

/// The log lines a step emits.
pub open spec fn out_logs(p: Phase, ev: Event) -> Seq<(LogLevel, Seq<char>)> {
    match (p, ev) {
        (Phase::Boot, Event::Start) => seq![(LogLevel::Info, start_log_view())],
        (Phase::AwaitingInit, Event::InitDone { result }) => match result {
            Ok(n) => seq![(LogLevel::Info, init_ok_log_view(n))],
            Err(err) => seq![
                (LogLevel::Error, init_err_log_view(err)),
                (LogLevel::Error, init_err_exit_log_view()),
            ],
        },
        (Phase::AwaitingDevices { device_num }, Event::DevicesListed { result }) => match result {
            Ok(_) => if device_num == 0 {
                seq![(LogLevel::Warn, no_devices_log_view())]
            } else {
                Seq::empty()
            },
            Err(err) => seq![(LogLevel::Error, enum_err_log_view(err))],
        },
        (Phase::Polling, Event::SnapshotRead { result }) => match result {
            Ok(_) => Seq::empty(),
            Err(err) => seq![(LogLevel::Error, read_err_log_view(err))],
        },
        _ => Seq::empty(),
    }
}

/// The console lines a step prints.
pub open spec fn out_console(p: Phase, ev: Event) -> Seq<Seq<char>> {
    match (p, ev) {
        (Phase::AwaitingDevices { device_num }, Event::DevicesListed { result }) => match result {
            Ok(devs) => if device_num == 0 {
                device_lines_view(devs@)
            } else {
                device_lines_view(devs@) + seq![prompt_view()]
            },
            Err(_) => Seq::empty(),
        },
        (Phase::Polling, Event::SnapshotRead { result }) => match result {
            Ok(rs) => key_lines_view(rs@),
            Err(_) => Seq::empty(),
        },
        _ => Seq::empty(),
    }
}

/// The pause before the next operation: the fixed polling interval after
/// each snapshot read, nothing anywhere else.
pub open spec fn out_sleep_ms(p: Phase, ev: Event) -> u64 {
    match (p, ev) {
        (Phase::Polling, Event::SnapshotRead { .. }) => POLL_INTERVAL_MS,
        _ => 0,
    }
}

/// The operation a step requests next.
pub open spec fn out_next(p: Phase, ev: Event) -> Command {
    match (p, ev) {
        (Phase::Boot, Event::Start) => Command::Initialize,
        (Phase::AwaitingInit, Event::InitDone { result }) => match result {
            Ok(_) => Command::ListDevices { max: DEVICE_BUFFER_MAX },
            Err(_) => Command::Exit { code: 1 },
        },
        (Phase::AwaitingDevices { device_num }, Event::DevicesListed { result }) => match result {
            Ok(_) => if device_num == 0 {
                Command::Exit { code: 0 }
            } else {
                Command::ReadSnapshot { max: ANALOG_BUFFER_READ_MAX }
            },
            Err(_) => Command::Exit { code: 1 },
        },
        (Phase::Polling, Event::SnapshotRead { .. }) => Command::ReadSnapshot {
            max: ANALOG_BUFFER_READ_MAX,
        },
        _ => Command::Exit { code: 1 },
    }
}

/// Performs one step of the monitor: from the phase and the outcome of the
/// last requested operation, the next phase and everything the caller must
/// do, exactly as the step specification functions describe.
pub fn step(phase: Phase, event: Event) -> (r: (Phase, Output))
    requires
        event_fits(phase, event),
    ensures
        r.0 == next_phase(phase, event),
        logs_of(r.1.logs@) == out_logs(phase, event),
        lines_of(r.1.console@) == out_console(phase, event),
        r.1.sleep_ms == out_sleep_ms(phase, event),
        r.1.next == out_next(phase, event),
{
    match (phase, event) {
        (Phase::Boot, Event::Start) => {
            let mut logs: Vec<LogLine> = Vec::new();
            logs.push(
                LogLine { level: LogLevel::Info, text: "Starting Wooting Analog SDK!".to_owned() },
            );
            let out = Output {
                logs,
                console: Vec::new(),
                sleep_ms: 0,
                next: Command::Initialize,
            };
            proof {
                assert(logs_of(out.logs@) =~= out_logs(phase, event));
                assert(lines_of(out.console@) =~= out_console(phase, event));
            }
            (Phase::AwaitingInit, out)
        },
        (Phase::AwaitingInit, Event::InitDone { result }) => match result {
            Ok(n) => {
                let mut text = "Analog SDK Successfully initialised with ".to_owned();
                let num = u64_dec(n as u64);
                text.append(num.as_str());
                text.append(" devices");
                let mut logs: Vec<LogLine> = Vec::new();
                logs.push(LogLine { level: LogLevel::Info, text });
                let out = Output {
                    logs,
                    console: Vec::new(),
                    sleep_ms: 0,
                    next: Command::ListDevices { max: DEVICE_BUFFER_MAX },
                };
                proof {
                    assert(logs_of(out.logs@)[0].1 =~= init_ok_log_view(n));
                    assert(logs_of(out.logs@) =~= out_logs(phase, event));
                    assert(lines_of(out.console@) =~= out_console(phase, event));
                }
                (Phase::AwaitingDevices { device_num: n }, out)
            },
            Err(err) => {
                let mut text = "Error initializing SDK: ".to_owned();
                text.append(err.message.as_str());
                let mut logs: Vec<LogLine> = Vec::new();
                logs.push(LogLine { level: LogLevel::Error, text });
                logs.push(
                    LogLine {
                        level: LogLevel::Error,
                        text: "Error: Wooting Analog SDK Failed to initialise".to_owned(),
                    },
                );
                let out = Output {
                    logs,
                    console: Vec::new(),
                    sleep_ms: 0,
                    next: Command::Exit { code: 1 },
                };
                proof {
                    assert(logs_of(out.logs@)[0].1 =~= init_err_log_view(err));
                    assert(logs_of(out.logs@) =~= out_logs(phase, event));
                    assert(lines_of(out.console@) =~= out_console(phase, event));
                }
                (Phase::Finished { exit_code: 1 }, out)
            },
        },
        (Phase::AwaitingDevices { device_num }, Event::DevicesListed { result }) => match result {
            Ok(devs) => {
                let mut console: Vec<String> = Vec::new();
                let mut i: usize = 0;
                while i < devs.len()
                    invariant
                        i <= devs.len(),
                        console@.len() == i as int,
                        forall|j: int|
                            0 <= j < i as int ==> console@[j]@ == device_line_view(
                                j as nat,
                                devs@[j],
                            ),
                    decreases devs.len() - i,
                {
                    let line = device_line(i, &devs[i]);
                    console.push(line);
                    i += 1;
                }
                proof {
                    assert(lines_of(console@) =~= device_lines_view(devs@));
                }
                if device_num == 0 {
                    let mut logs: Vec<LogLine> = Vec::new();
                    logs.push(
                        LogLine {
                            level: LogLevel::Warn,
                            text: "No Wooting devices found.".to_owned(),
                        },
                    );
                    let out = Output {
                        logs,
                        console,
                        sleep_ms: 0,
                        next: Command::Exit { code: 0 },
                    };
                    proof {
                        assert(logs_of(out.logs@) =~= out_logs(phase, event));
                    }
                    (Phase::Finished { exit_code: 0 }, out)
                } else {
                    console.push(
                        "Press any key on the Wooting keyboard to see the analog value. Press Ctrl+C to exit.".to_owned(),
                    );
                    let out = Output {
                        logs: Vec::new(),
                        console,
                        sleep_ms: 0,
                        next: Command::ReadSnapshot { max: ANALOG_BUFFER_READ_MAX },
                    };
                    proof {
                        assert(logs_of(out.logs@) =~= out_logs(phase, event));
                        assert(lines_of(out.console@) =~= device_lines_view(devs@) + seq![
                            prompt_view(),
                        ]);
                    }
                    (Phase::Polling, out)
                }
            },
            Err(err) => {
                let mut text = "Error: ".to_owned();
                text.append(err.message.as_str());
                let mut logs: Vec<LogLine> = Vec::new();
                logs.push(LogLine { level: LogLevel::Error, text });
                let out = Output {
                    logs,
                    console: Vec::new(),
                    sleep_ms: 0,
                    next: Command::Exit { code: 1 },
                };
                proof {
                    assert(logs_of(out.logs@)[0].1 =~= enum_err_log_view(err));
                    assert(logs_of(out.logs@) =~= out_logs(phase, event));
                    assert(lines_of(out.console@) =~= out_console(phase, event));
                }
                (Phase::Finished { exit_code: 1 }, out)
            },
        },
        (Phase::Polling, Event::SnapshotRead { result }) => match result {
            Ok(rs) => {
                let mut console: Vec<String> = Vec::new();
                let mut i: usize = 0;
                while i < rs.len()
                    invariant
                        i <= rs.len(),
                        console@.len() == i as int,
                        forall|j: int|
                            0 <= j < i as int ==> console@[j]@ == key_line_view(rs@[j]),
                    decreases rs.len() - i,
                {
                    let line = key_line(&rs[i]);
                    console.push(line);
                    i += 1;
                }
                let out = Output {
                    logs: Vec::new(),
                    console,
                    sleep_ms: POLL_INTERVAL_MS,
                    next: Command::ReadSnapshot { max: ANALOG_BUFFER_READ_MAX },
                };
                proof {
                    assert(logs_of(out.logs@) =~= out_logs(phase, event));
                    assert(lines_of(out.console@) =~= key_lines_view(rs@));
                }
                (Phase::Polling, out)
            },
            Err(err) => {
                let mut text = "Error reading analog buffer: ".to_owned();
                text.append(err.message.as_str());
                let mut logs: Vec<LogLine> = Vec::new();
                logs.push(LogLine { level: LogLevel::Error, text });
                let out = Output {
                    logs,
                    console: Vec::new(),
                    sleep_ms: POLL_INTERVAL_MS,
                    next: Command::ReadSnapshot { max: ANALOG_BUFFER_READ_MAX },
                };
                proof {
                    assert(logs_of(out.logs@)[0].1 =~= read_err_log_view(err));
                    assert(logs_of(out.logs@) =~= out_logs(phase, event));
                    assert(lines_of(out.console@) =~= out_console(phase, event));
                }
                (Phase::Polling, out)
            },
        },
        _ => unreached(),
    }
}

/// A failed initialization is fatal: the run finishes with exit status 1,
/// nothing is printed to the console — no device list, no prompt — and the
/// finished phase accepts no further event, so the polling loop is never
/// entered.
pub proof fn lemma_init_failure_is_fatal(err: SdkError)
    ensures
        next_phase(Phase::AwaitingInit, Event::InitDone { result: Err(err) }) == (
        Phase::Finished { exit_code: 1u8 }),
        out_console(Phase::AwaitingInit, Event::InitDone { result: Err(err) }) =~= Seq::<
            Seq<char>,
        >::empty(),
        out_next(Phase::AwaitingInit, Event::InitDone { result: Err(err) }) == (Command::Exit {
            code: 1u8,
        }),
        out_logs(Phase::AwaitingInit, Event::InitDone { result: Err(err) }) =~= seq![
            (LogLevel::Error, init_err_log_view(err)),
            (LogLevel::Error, init_err_exit_log_view()),
        ],
        forall|ev: Event| !event_fits(Phase::Finished { exit_code: 1u8 }, ev),
{
}

/// A successful initialization reporting no devices ends the run cleanly:
/// after the (empty or not) listing is printed, the run finishes with exit
/// status 0 under a warning, the console holds the device lines and nothing
/// else — in particular not the polling prompt — and the finished phase
/// accepts no further event, so the polling loop is never entered.
pub proof fn lemma_no_devices_is_clean_exit(devs: Vec<DeviceInfo>)
    ensures
        next_phase(
            Phase::AwaitingDevices { device_num: 0 },
            Event::DevicesListed { result: Ok(devs) },
        ) == (Phase::Finished { exit_code: 0u8 }),
        out_console(
            Phase::AwaitingDevices { device_num: 0 },
            Event::DevicesListed { result: Ok(devs) },
        ) == device_lines_view(devs@),
        out_logs(
            Phase::AwaitingDevices { device_num: 0 },
            Event::DevicesListed { result: Ok(devs) },
        ) =~= seq![(LogLevel::Warn, no_devices_log_view())],
        out_next(
            Phase::AwaitingDevices { device_num: 0 },
            Event::DevicesListed { result: Ok(devs) },
        ) == (Command::Exit { code: 0u8 }),
        forall|ev: Event| !event_fits(Phase::Finished { exit_code: 0u8 }, ev),
{
}

/// A successful initialization reporting a positive device count requests
/// the enumeration with the fixed bound; a successful enumeration then
/// prints one line per device, indexed from zero in order, followed by the
/// polling prompt, and enters the polling loop. The vendor and product IDs
/// inside each line render through `hex4_view`, whose shape
/// `render::lemma_hex4_shape` pins to exactly four uppercase hexadecimal
/// digits.
pub proof fn lemma_devices_listed_then_polling(n: u32, devs: Vec<DeviceInfo>)
    requires
        n > 0,
    ensures
        out_next(Phase::AwaitingInit, Event::InitDone { result: Ok(n) }) == (Command::ListDevices {
            max: DEVICE_BUFFER_MAX,
        }),
        next_phase(Phase::AwaitingInit, Event::InitDone { result: Ok(n) }) == (
        Phase::AwaitingDevices { device_num: n }),
        next_phase(
            Phase::AwaitingDevices { device_num: n },
            Event::DevicesListed { result: Ok(devs) },
        ) == Phase::Polling,
        out_console(
            Phase::AwaitingDevices { device_num: n },
            Event::DevicesListed { result: Ok(devs) },
        ).len() == devs@.len() + 1,
        forall|i: int|
            0 <= i < devs@.len() ==> out_console(
                Phase::AwaitingDevices { device_num: n },
                Event::DevicesListed { result: Ok(devs) },
            )[i] == device_line_view(i as nat, devs@[i]),
        out_console(
            Phase::AwaitingDevices { device_num: n },
            Event::DevicesListed { result: Ok(devs) },
        )[devs@.len() as int] == prompt_view(),
        out_next(
            Phase::AwaitingDevices { device_num: n },
            Event::DevicesListed { result: Ok(devs) },
        ) == (Command::ReadSnapshot { max: ANALOG_BUFFER_READ_MAX }),
{
}

/// Polling is resilient and paced: whatever a snapshot read returns, the
/// monitor stays in the polling phase, requests the next read with the fixed
/// bound after the fixed pause; a failed read only logs an error, an empty
/// snapshot prints nothing, and a successful read prints one line per
/// reading in the snapshot's own order.
pub proof fn lemma_polling_never_stops(result: Result<Vec<AnalogReading>, SdkError>)
    ensures
        next_phase(Phase::Polling, Event::SnapshotRead { result }) == Phase::Polling,
        out_next(Phase::Polling, Event::SnapshotRead { result }) == (Command::ReadSnapshot {
            max: ANALOG_BUFFER_READ_MAX,
        }),
        out_sleep_ms(Phase::Polling, Event::SnapshotRead { result }) == POLL_INTERVAL_MS,
        result is Err ==> out_console(Phase::Polling, Event::SnapshotRead { result }) =~= Seq::<
            Seq<char>,
        >::empty(),
        result is Err ==> out_logs(Phase::Polling, Event::SnapshotRead { result }) =~= seq![
            (LogLevel::Error, read_err_log_view(result->Err_0)),
        ],
        result is Ok ==> out_console(Phase::Polling, Event::SnapshotRead { result })
            == key_lines_view(result->Ok_0@),
        result is Ok && result->Ok_0@.len() == 0 ==> out_console(
            Phase::Polling,
            Event::SnapshotRead { result },
        ).len() == 0,
{
}

} // verus!
