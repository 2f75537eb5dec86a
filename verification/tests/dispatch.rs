use kmsgctl::cli::{IoctlCommands, IoctlGetCommands, IoctlSetCommands, KmsgpipeCli};
use kmsgctl::dispatch::{process_get_command, process_set_command, Phase, Report, Session};
use kmsgctl::ioctl::{ControlReply, ControlRequest, DeviceError, Direction, KmsgpipeDevice};

/// A stand-in for the driver: it holds the six attributes and serves the
/// requests of the tag table.
struct FakePipe {
    descriptor: i32,
    data_size: i64,
    capacity: i64,
    msg_count: i64,
    readers: i64,
    writers: i64,
    expiry_ms: i64,
    served: usize,
}

impl FakePipe {
    fn empty(descriptor: i32, capacity: i64) -> FakePipe {
        FakePipe {
            descriptor,
            data_size: 0,
            capacity,
            msg_count: 0,
            readers: 0,
            writers: 0,
            expiry_ms: 0,
            served: 0,
        }
    }

    fn serve(&mut self, request: &ControlRequest) -> ControlReply {
        self.served += 1;
        if request.descriptor() != self.descriptor {
            return ControlReply::Rejected { reason: String::from("EBADF: Bad file number") };
        }
        let unknown = ControlReply::Rejected { reason: String::from("ENOTTY: Not a typewriter") };
        if request.magic() != b'K' {
            return unknown;
        }
        match (request.direction(), request.tag()) {
            (Direction::Read, 1) => ControlReply::Accepted { scalar: self.data_size },
            (Direction::Read, 2) => ControlReply::Accepted { scalar: self.capacity },
            (Direction::Read, 3) => ControlReply::Accepted { scalar: self.msg_count },
            (Direction::Read, 4) => ControlReply::Accepted { scalar: self.readers },
            (Direction::Read, 5) => ControlReply::Accepted { scalar: self.writers },
            (Direction::Read, 6) => ControlReply::Accepted { scalar: self.expiry_ms },
            (Direction::Write, 7) => {
                self.expiry_ms = request.payload();
                ControlReply::Accepted { scalar: request.payload() }
            }
            (Direction::Signal, 8) => {
                self.msg_count = 0;
                self.data_size = 0;
                ControlReply::Accepted { scalar: request.payload() }
            }
            _ => unknown,
        }
    }
}

/// One whole invocation against the stand-in, as a program would run it.
fn invoke(pipe: &mut FakePipe, command: IoctlCommands) -> Report {
    match Session::start(command, Ok(pipe.descriptor)) {
        Err(report) => report,
        Ok(mut session) => {
            assert_eq!(session.phase(), Phase::AwaitingDispatch);
            let request = session.request();
            let reply = pipe.serve(&request);
            let report = session.complete(reply);
            assert_eq!(session.phase(), Phase::Completed);
            report
        }
    }
}

fn fields(request: ControlRequest) -> (i32, u8, u8, Direction, i64) {
    (
        request.descriptor(),
        request.magic(),
        request.tag(),
        request.direction(),
        request.payload(),
    )
}

fn get(op: IoctlGetCommands) -> IoctlCommands {
    IoctlCommands::Get { op }
}

fn set_expiry(value: i64) -> IoctlCommands {
    IoctlCommands::SetValue { op: IoctlSetCommands::ExpiryMs, value }
}

fn all_get_commands() -> Vec<IoctlGetCommands> {
    vec![
        IoctlGetCommands::DataSize,
        IoctlGetCommands::Capacity,
        IoctlGetCommands::MsgCount,
        IoctlGetCommands::Readers,
        IoctlGetCommands::Writers,
        IoctlGetCommands::ExpiryMs,
    ]
}

#[test]
fn get_report_of_success_is_the_scalar() {
    assert_eq!(process_get_command(Ok(4096)), Report::Scalar(4096));
    assert_eq!(process_get_command(Ok(-7)), Report::Scalar(-7));
    assert_eq!(process_get_command(Ok(i64::MIN)), Report::Scalar(i64::MIN));
}

#[test]
fn get_report_of_failure_is_the_failure() {
    let error = DeviceError::ControlFailed(String::from("EIO: I/O error"));
    assert_eq!(process_get_command(Err(error.clone())), Report::Failure(error));
}

#[test]
fn set_report_of_success_is_silent() {
    assert_eq!(process_set_command(Ok(())), Report::Silent);
}

#[test]
fn set_report_of_failure_is_the_failure() {
    let error = DeviceError::ControlFailed(String::from("EBUSY: Device or resource busy"));
    assert_eq!(process_set_command(Err(error.clone())), Report::Failure(error));
}

#[test]
fn scalar_report_prints_the_scalar_and_exits_zero() {
    let report = Report::Scalar(4096);
    assert_eq!(report.exit_status(), 0);
    assert_eq!(report.standard_output(), Some(4096));
    assert_eq!(report.standard_error(), None);
}

#[test]
fn silent_report_prints_nothing_and_exits_zero() {
    let report = Report::Silent;
    assert_eq!(report.exit_status(), 0);
    assert_eq!(report.standard_output(), None);
    assert_eq!(report.standard_error(), None);
}

#[test]
fn failure_report_prints_the_reason_and_exits_one() {
    let open = Report::Failure(DeviceError::OpenFailed(String::from("not found")));
    assert_eq!(open.exit_status(), 1);
    assert_eq!(open.standard_output(), None);
    assert_eq!(open.standard_error(), Some(&String::from("not found")));
    let control = Report::Failure(DeviceError::ControlFailed(String::from("busy")));
    assert_eq!(control.exit_status(), 1);
    assert_eq!(control.standard_output(), None);
    assert_eq!(control.standard_error(), Some(&String::from("busy")));
}

#[test]
fn session_starts_awaiting_dispatch() {
    let session = Session::start(get(IoctlGetCommands::Capacity), Ok(5)).unwrap();
    assert_eq!(session.phase(), Phase::AwaitingDispatch);
}

#[test]
fn session_request_is_the_call_that_the_command_selects() {
    let device = KmsgpipeDevice::open(Ok(5)).unwrap();
    for op in all_get_commands() {
        let session = Session::start(get(op), Ok(5)).unwrap();
        assert_eq!(session.request(), device.query(op));
    }
    let session = Session::start(set_expiry(-12), Ok(5)).unwrap();
    assert_eq!(session.request(), device.set_expiry_ms(-12));
    let session = Session::start(IoctlCommands::Clear, Ok(5)).unwrap();
    assert_eq!(session.request(), device.clear());
}

#[test]
fn session_request_exact_values() {
    let session = Session::start(get(IoctlGetCommands::Readers), Ok(11)).unwrap();
    assert_eq!(
        fields(session.request()),
        (11, 75, 4, Direction::Read, 0)
    );
    let session = Session::start(set_expiry(5000), Ok(11)).unwrap();
    assert_eq!(
        fields(session.request()),
        (11, 75, 7, Direction::Write, 5000)
    );
    let session = Session::start(IoctlCommands::Clear, Ok(11)).unwrap();
    assert_eq!(
        fields(session.request()),
        (11, 75, 8, Direction::Signal, 0)
    );
}

#[test]
fn session_completes_a_get_with_the_scalar() {
    let mut session = Session::start(get(IoctlGetCommands::Writers), Ok(5)).unwrap();
    let report = session.complete(ControlReply::Accepted { scalar: 2 });
    assert_eq!(report, Report::Scalar(2));
    assert_eq!(session.phase(), Phase::Completed);
}

#[test]
fn session_completes_a_set_in_silence() {
    let mut session = Session::start(set_expiry(5000), Ok(5)).unwrap();
    let report = session.complete(ControlReply::Accepted { scalar: 5000 });
    assert_eq!(report, Report::Silent);
    assert_eq!(session.phase(), Phase::Completed);
}

#[test]
fn session_completes_a_clear_in_silence() {
    let mut session = Session::start(IoctlCommands::Clear, Ok(5)).unwrap();
    let report = session.complete(ControlReply::Accepted { scalar: 0 });
    assert_eq!(report, Report::Silent);
    assert_eq!(session.phase(), Phase::Completed);
}

#[test]
fn session_reports_a_refusal_for_every_command() {
    let reason = String::from("EBUSY: Device or resource busy");
    let mut commands: Vec<IoctlCommands> = all_get_commands().into_iter().map(get).collect();
    commands.push(set_expiry(1));
    commands.push(IoctlCommands::Clear);
    for command in commands {
        let mut session = Session::start(command, Ok(5)).unwrap();
        let report = session.complete(ControlReply::Rejected { reason: reason.clone() });
        assert_eq!(report, Report::Failure(DeviceError::ControlFailed(reason.clone())));
        assert_eq!(report.exit_status(), 1);
        assert_eq!(report.standard_output(), None);
        assert_eq!(session.phase(), Phase::Completed);
    }
}

#[test]
fn no_session_without_an_open_device() {
    let reason = String::from("No such file or directory (os error 2)");
    let result = Session::start(IoctlCommands::Clear, Err(reason.clone()));
    assert_eq!(result, Err(Report::Failure(DeviceError::OpenFailed(reason))));
}

#[test]
fn query_twice_reports_the_same_scalar() {
    let mut pipe = FakePipe::empty(3, 4096);
    pipe.readers = 1;
    pipe.writers = 2;
    pipe.msg_count = 5;
    pipe.data_size = 640;
    pipe.expiry_ms = 1500;
    let expected = [640, 4096, 5, 1, 2, 1500];
    for (op, scalar) in all_get_commands().into_iter().zip(expected) {
        assert_eq!(invoke(&mut pipe, get(op)), Report::Scalar(scalar));
        assert_eq!(invoke(&mut pipe, get(op)), Report::Scalar(scalar));
    }
    assert_eq!(pipe.served, 12);
}

#[test]
fn update_then_query_reports_the_value_written() {
    for value in [5000, 0, -1, i64::MAX, i64::MIN] {
        let mut pipe = FakePipe::empty(3, 4096);
        assert_eq!(invoke(&mut pipe, set_expiry(value)), Report::Silent);
        assert_eq!(invoke(&mut pipe, get(IoctlGetCommands::ExpiryMs)), Report::Scalar(value));
        assert_eq!(invoke(&mut pipe, get(IoctlGetCommands::Capacity)), Report::Scalar(4096));
    }
}

#[test]
fn clear_then_msg_count_reports_zero() {
    let mut pipe = FakePipe::empty(3, 4096);
    pipe.msg_count = 9;
    pipe.data_size = 700;
    assert_eq!(invoke(&mut pipe, get(IoctlGetCommands::MsgCount)), Report::Scalar(9));
    assert_eq!(invoke(&mut pipe, IoctlCommands::Clear), Report::Silent);
    assert_eq!(invoke(&mut pipe, get(IoctlGetCommands::MsgCount)), Report::Scalar(0));
    assert_eq!(invoke(&mut pipe, get(IoctlGetCommands::DataSize)), Report::Scalar(0));
    assert_eq!(invoke(&mut pipe, get(IoctlGetCommands::Capacity)), Report::Scalar(4096));
}

#[test]
fn scenario_existing_device() {
    let cli = |command: IoctlCommands| KmsgpipeCli { device: String::from("/dev/kmsgpipe0"), command };
    let mut pipe = FakePipe::empty(3, 4096);

    let report = invoke(&mut pipe, cli(get(IoctlGetCommands::Capacity)).command);
    assert_eq!(report.standard_output(), Some(4096));
    assert_eq!(report.exit_status(), 0);

    let report = invoke(&mut pipe, cli(set_expiry(5000)).command);
    assert_eq!(report.standard_output(), None);
    assert_eq!(report.standard_error(), None);
    assert_eq!(report.exit_status(), 0);

    let report = invoke(&mut pipe, cli(get(IoctlGetCommands::ExpiryMs)).command);
    assert_eq!(report.standard_output(), Some(5000));
    assert_eq!(report.exit_status(), 0);

    let report = invoke(&mut pipe, cli(IoctlCommands::Clear).command);
    assert_eq!(report.standard_output(), None);
    assert_eq!(report.exit_status(), 0);

    let report = invoke(&mut pipe, cli(get(IoctlGetCommands::MsgCount)).command);
    assert_eq!(report.standard_output(), Some(0));
    assert_eq!(report.exit_status(), 0);

    assert_eq!(pipe.served, 5);
}

#[test]
fn scenario_missing_device() {
    let reason = String::from("No such file or directory (os error 2)");
    let mut commands: Vec<IoctlCommands> = all_get_commands().into_iter().map(get).collect();
    commands.push(set_expiry(5000));
    commands.push(IoctlCommands::Clear);
    for command in commands {
        let report = match Session::start(command, Err(reason.clone())) {
            Err(report) => report,
            Ok(session) => panic!("a session began without a device: {:?}", session),
        };
        assert_eq!(report.exit_status(), 1);
        assert_eq!(report.standard_output(), None);
        assert_eq!(report.standard_error(), Some(&reason));
    }
}

#[test]
fn cli_holds_device_and_command() {
    let cli = KmsgpipeCli { device: String::from("/dev/kmsgpipe0"), command: set_expiry(5000) };
    assert_eq!(cli.device, "/dev/kmsgpipe0");
    assert_eq!(cli.command, IoctlCommands::SetValue { op: IoctlSetCommands::ExpiryMs, value: 5000 });
    let request = KmsgpipeDevice::open_request(cli.device.clone());
    assert_eq!(request.path, cli.device);
}
