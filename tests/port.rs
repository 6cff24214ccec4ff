use comport::{
    lift, os_error, CommProp, ComStat, COMPort, Dcb, Error, Timeout, CLRDTR, CLRRTS,
    INVALID_HANDLE_VALUE, SETDTR, SETRTS,
};

fn port() -> COMPort {
    COMPort::open("COM1").ok().unwrap().attach(42).unwrap()
}

fn props(tx: u32, rx: u32) -> CommProp {
    CommProp {
        packet_length: 64,
        packet_version: 2,
        service_mask: 1,
        reserved1: 0,
        max_tx_queue: 0,
        max_rx_queue: 0,
        max_baud: 0x1000_0000,
        prov_sub_type: 1,
        prov_capabilities: 0xff,
        settable_params: 0x7f,
        settable_baud: 0x1000_0000,
        settable_data: 0xf,
        settable_stop_parity: 0x1f07,
        current_tx_queue: tx,
        current_rx_queue: rx,
        prov_spec1: 0,
        prov_spec2: 0,
    }
}

#[test]
fn device_path_prefixes_the_name() {
    assert_eq!(COMPort::device_path("COM1"), Ok("\\\\.\\COM1".to_string()));
    assert_eq!(COMPort::device_path("COM12"), Ok("\\\\.\\COM12".to_string()));
}

#[test]
fn malformed_names_are_invalid_input() {
    assert_eq!(COMPort::device_path(""), Err(Error::InvalidInput));
    assert_eq!(COMPort::device_path("COM\u{0}1"), Err(Error::InvalidInput));
    assert_eq!(COMPort::device_path("a\\COM1"), Err(Error::InvalidInput));
    assert_eq!(COMPort::device_path("dev/COM1"), Err(Error::InvalidInput));
}

#[test]
fn invalid_handle_is_no_device() {
    let req = COMPort::open("COM9").ok().unwrap();
    assert!(matches!(req.attach(INVALID_HANDLE_VALUE), Err(Error::NoDevice)));
}

#[test]
fn open_refuses_malformed_names() {
    assert!(matches!(COMPort::open(""), Err(Error::InvalidInput)));
    assert!(matches!(COMPort::open("COM\u{0}1"), Err(Error::InvalidInput)));
    assert!(matches!(COMPort::open("a\\COM1"), Err(Error::InvalidInput)));
    assert!(matches!(COMPort::open("dev/COM1"), Err(Error::InvalidInput)));
}

#[test]
fn open_request_holds_the_device_path() {
    let req = COMPort::open("COM10").ok().unwrap();
    assert_eq!(req.path(), "\\\\.\\COM10");
}

#[test]
fn open_port_starts_at_one_hundred_ms() {
    let p = port();
    assert_eq!(p.timeout(), Timeout { secs: 0, nanos: 100_000_000 });
    assert_eq!(p.as_raw_handle(), 42);
    assert_eq!(p.close(), 42);
}

#[test]
fn set_timeout_then_timeout_returns_it() {
    let mut p = port();
    let t = Timeout::from_millis(100);
    assert_eq!(p.set_timeout(t, Ok(())), Ok(()));
    assert_eq!(p.timeout(), t);
    let t2 = Timeout { secs: 2, nanos: 500_000_000 };
    assert_eq!(p.set_timeout(t2, Ok(())), Ok(()));
    assert_eq!(p.timeout(), t2);
}

#[test]
fn failed_set_timeout_keeps_the_old_one() {
    let mut p = port();
    assert_eq!(p.set_timeout(Timeout::from_millis(50), Err(6)), Err(Error::Io(6)));
    assert_eq!(p.timeout(), Timeout::from_millis(100));
    let huge = Timeout { secs: 5_000_000, nanos: 0 };
    assert_eq!(p.set_timeout(huge, Ok(())), Err(Error::InvalidInput));
    assert_eq!(p.timeout(), Timeout::from_millis(100));
}

#[test]
fn from_millis_splits_seconds_and_nanos() {
    assert_eq!(Timeout::from_millis(1500), Timeout { secs: 1, nanos: 500_000_000 });
    assert_eq!(Timeout::from_millis(0), Timeout { secs: 0, nanos: 0 });
}

#[test]
fn timeout_block_has_only_a_constant_read_total() {
    let t = COMPort::timeouts_for(Timeout { secs: 1, nanos: 250_999_999 }).unwrap();
    assert_eq!(t.read_interval_timeout, 0);
    assert_eq!(t.read_total_timeout_multiplier, 0);
    assert_eq!(t.read_total_timeout_constant, 1250);
    assert_eq!(t.write_total_timeout_multiplier, 0);
    assert_eq!(t.write_total_timeout_constant, 0);
    assert_eq!(
        COMPort::timeouts_for(Timeout::from_millis(50)).unwrap().read_total_timeout_constant,
        50
    );
}

#[test]
fn timeout_block_at_the_field_limit() {
    let top = Timeout { secs: 4_294_967, nanos: 295_999_999 };
    assert_eq!(COMPort::timeouts_for(top).unwrap().read_total_timeout_constant, u32::MAX);
    let over = Timeout { secs: 4_294_967, nanos: 296_000_000 };
    assert_eq!(COMPort::timeouts_for(over), Err(Error::InvalidInput));
    let far = Timeout { secs: u64::MAX, nanos: 0 };
    assert_eq!(COMPort::timeouts_for(far), Err(Error::InvalidInput));
}

#[test]
fn empty_read_is_a_timeout() {
    let p = port();
    assert_eq!(p.read(Ok(0)), Err(Error::TimedOut));
    assert_eq!(p.read(Ok(7)), Ok(7));
    assert_eq!(p.read(Err(31)), Err(Error::Io(31)));
}

#[test]
fn write_reports_accepted_bytes() {
    let p = port();
    assert_eq!(p.write(Ok(3)), Ok(3));
    assert_eq!(p.write(Ok(0)), Ok(0));
    assert_eq!(p.write(Err(5)), Err(Error::Io(5)));
    assert_eq!(p.flush(Ok(())), Ok(()));
    assert_eq!(p.flush(Err(9)), Err(Error::Io(9)));
}

#[test]
fn transfer_len_caps_at_the_count_field() {
    assert_eq!(COMPort::transfer_len(0), 0);
    assert_eq!(COMPort::transfer_len(512), 512);
    assert_eq!(COMPort::transfer_len(u32::MAX as usize), u32::MAX);
    if let Ok(big) = usize::try_from(u32::MAX as u64 + 10) {
        assert_eq!(COMPort::transfer_len(big), u32::MAX);
    }
}

#[test]
fn line_control_commands() {
    assert_eq!(COMPort::rts_function(true), SETRTS);
    assert_eq!(COMPort::rts_function(false), CLRRTS);
    assert_eq!(COMPort::dtr_function(true), SETDTR);
    assert_eq!(COMPort::dtr_function(false), CLRDTR);
    assert_eq!((SETRTS, CLRRTS, SETDTR, CLRDTR), (3, 4, 5, 6));
    let p = port();
    assert_eq!(p.escape_comm_function(Ok(())), Ok(()));
    assert_eq!(p.escape_comm_function(Err(1)), Err(Error::Io(1)));
}

#[test]
fn modem_status_bits() {
    let p = port();
    let status = Ok(0x0010 | 0x0080);
    assert_eq!(p.read_cts(status), Ok(true));
    assert_eq!(p.read_dsr(status), Ok(false));
    assert_eq!(p.read_ri(status), Ok(false));
    assert_eq!(p.read_cd(status), Ok(true));
    assert_eq!(p.read_ri(Ok(0x0040)), Ok(true));
    assert_eq!(p.read_dsr(Ok(0x0020)), Ok(true));
    assert_eq!(p.read_pin(Ok(0x0001), 0x0002), Ok(false));
    assert_eq!(p.read_cts(Err(21)), Err(Error::Io(21)));
}

#[test]
fn queue_depths_from_driver_properties() {
    let p = port();
    assert_eq!(p.tx_buffer(Ok(props(4096, 8192))), Ok(4096));
    assert_eq!(p.rx_buffer(Ok(props(4096, 8192))), Ok(8192));
    assert_eq!(p.tx_buffer(Err(87)), Err(Error::Io(87)));
    assert_eq!(p.rx_buffer(Err(87)), Err(Error::Io(87)));
    assert_eq!(p.driver_properties(Ok(props(1, 2))), Ok(props(1, 2)));
}

#[test]
fn queued_bytes_from_status() {
    let p = port();
    let stat = ComStat { flags: 0, cb_in_que: 12, cb_out_que: 34 };
    assert_eq!(p.bytes_in(Ok(stat)), Ok(12));
    assert_eq!(p.bytes_out(Ok(stat)), Ok(34));
    assert_eq!(p.bytes_in(Err(2)), Err(Error::Io(2)));
    assert_eq!(p.bytes_out(Err(2)), Err(Error::Io(2)));
}

#[test]
fn purge_then_empty_input_queue() {
    let p = port();
    assert_eq!(p.purge_rxclear(Ok(())), Ok(()));
    let stat = ComStat { flags: 0, cb_in_que: 0, cb_out_que: 0 };
    assert_eq!(p.bytes_in(Ok(stat)), Ok(0));
    assert_eq!(p.purge_rxabort(Err(4)), Err(Error::Io(4)));
    assert_eq!(p.purge_txabort(Ok(())), Ok(()));
    assert_eq!(p.purge_txclear(Err(8)), Err(Error::Io(8)));
}

#[test]
fn settings_read_and_written_through_the_port() {
    let p = port();
    let mut d = Dcb::new();
    d.baud_rate = 19200;
    let s = p.read_settings(Ok(d)).unwrap();
    assert_eq!(s.dcb(), d);
    assert!(matches!(p.read_settings(Err(13)), Err(Error::Io(13))));
    assert_eq!(p.write_settings(Ok(())), Ok(()));
    assert_eq!(p.write_settings(Err(87)), Err(Error::Io(87)));
}

#[test]
fn os_errors_become_io() {
    assert_eq!(os_error(5), Error::Io(5));
    assert_eq!(lift::<u8>(Ok(3)), Ok(3));
    assert_eq!(lift::<u8>(Err(3)), Err(Error::Io(3)));
}
