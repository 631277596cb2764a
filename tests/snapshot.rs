use ruiden::error::{DecodeError, FetchError, TransportError};
use ruiden::model::ID;
use ruiden::serialize::{Scaled, TELEMETRY_BLOCK_LEN};
use ruiden::snapshot::Snapshot;
use ruiden::transport::{
    identity_window, one_window, pair_window, read_request, telemetry_window, write_request,
    Request, MAX_READ_COUNT, MAX_WRITE_COUNT,
};
use ruiden::register::Register;

fn telemetry_block() -> Vec<u16> {
    let mut words: Vec<u16> = (0..TELEMETRY_BLOCK_LEN as u16).collect();
    words[4] = 1200;
    words[5] = 250;
    words
}

fn link_error() -> TransportError {
    TransportError::Link { message: "timed out".to_string() }
}

#[test]
fn fetch_init_scenario() {
    let mut s = Snapshot::new();
    assert_eq!(s.fetch_init(Ok(vec![60181, 0, 12, 600])), Ok(()));
    assert_eq!(s.init.id, 60181);
    assert_eq!(s.init.sn, "00000012");
    assert_eq!(s.init.fw, 600);
    assert_eq!(s.model(), ID::RD6018);
}

#[test]
fn init_then_info_equals_all() {
    let init_words = vec![60181, 0, 12, 600];
    let mut a = Snapshot::new();
    a.fetch_init(Ok(init_words.clone())).unwrap();
    a.fetch_info(Ok(telemetry_block())).unwrap();
    let mut b = Snapshot::new();
    b.fetch_all(Ok(init_words), Ok(telemetry_block())).unwrap();
    assert_eq!(a, b);
    assert_eq!(b.info.v_set, Some(Scaled { raw: 1200, mul: 100 }));
    assert_eq!(b.info.sn, "00000012");
}

#[test]
fn info_before_init_is_unscaled() {
    let mut s = Snapshot::new();
    s.fetch_info(Ok(telemetry_block())).unwrap();
    assert_eq!(s.info.id, ID::Unknown);
    assert_eq!(s.info.v_set, None);
    assert_eq!(s.info.sn, "");
}

#[test]
fn failed_transport_keeps_snapshot() {
    let mut s = Snapshot::new();
    s.fetch_all(Ok(vec![60181, 0, 12, 600]), Ok(telemetry_block())).unwrap();
    let before = s.clone();
    assert_eq!(s.fetch_init(Err(link_error())), Err(FetchError::Transport(link_error())));
    assert_eq!(s, before);
    assert_eq!(s.fetch_info(Err(link_error())), Err(FetchError::Transport(link_error())));
    assert_eq!(s, before);
    assert_eq!(
        s.fetch_all(Ok(vec![1, 2, 3, 4]), Err(link_error())),
        Err(FetchError::Transport(link_error()))
    );
    assert_eq!(s, before);
    assert_eq!(
        s.fetch_all(Err(link_error()), Ok(telemetry_block())),
        Err(FetchError::Transport(link_error()))
    );
    assert_eq!(s, before);
}

#[test]
fn short_block_keeps_snapshot() {
    let mut s = Snapshot::new();
    s.fetch_init(Ok(vec![60181, 0, 12, 600])).unwrap();
    let before = s.clone();
    assert_eq!(
        s.fetch_init(Ok(vec![1, 2])),
        Err(FetchError::Decode(DecodeError::Length { expected: 4, actual: 2 }))
    );
    assert_eq!(
        s.fetch_info(Ok(vec![1; 3])),
        Err(FetchError::Decode(DecodeError::Length { expected: 34, actual: 3 }))
    );
    assert_eq!(
        s.fetch_all(Ok(vec![1, 0, 0, 1]), Ok(vec![0; 2])),
        Err(FetchError::Decode(DecodeError::Length { expected: 34, actual: 2 }))
    );
    assert_eq!(s, before);
}

#[test]
fn getters_scale_by_cached_telemetry() {
    let mut s = Snapshot::new();
    assert_eq!(s.scale_voltage(1200), Err(DecodeError::ZeroMultiplier));
    assert_eq!(s.scale_current(250), Err(DecodeError::ZeroMultiplier));
    s.fetch_init(Ok(vec![60181, 0, 12, 600])).unwrap();
    assert_eq!(s.scale_voltage(5), Err(DecodeError::ZeroMultiplier));
    assert_eq!(s.scale_current(5), Err(DecodeError::ZeroMultiplier));
    s.fetch_info(Ok(telemetry_block())).unwrap();
    assert_eq!(s.scale_voltage(1200), Ok(Scaled { raw: 1200, mul: 100 }));
    assert_eq!(s.scale_current(250), Ok(Scaled { raw: 250, mul: 100 }));
    s.fetch_init(Ok(vec![1, 0, 0, 1])).unwrap();
    assert_eq!(s.scale_voltage(1200), Ok(Scaled { raw: 1200, mul: 100 }));
}

#[test]
fn fetch_windows() {
    assert_eq!(identity_window(), Request { address: 0, count: 4 });
    assert_eq!(telemetry_window(), Request { address: 4, count: 34 });
    assert_eq!(one_window(Register::FW), Request { address: 3, count: 1 });
    assert_eq!(pair_window(Register::INT_C_S), Request { address: 4, count: 2 });
}

#[test]
fn read_request_limits() {
    assert_eq!(read_request(0, 1), Ok(Request { address: 0, count: 1 }));
    assert_eq!(read_request(10, MAX_READ_COUNT), Ok(Request { address: 10, count: 125 }));
    assert_eq!(read_request(0, 0), Err(TransportError::Quantity { count: 0 }));
    assert_eq!(read_request(0, 126), Err(TransportError::Quantity { count: 126 }));
    assert_eq!(read_request(65535, 2), Err(TransportError::Range { address: 65535, count: 2 }));
    assert_eq!(read_request(65535, 1), Ok(Request { address: 65535, count: 1 }));
}

#[test]
fn write_request_limits() {
    assert_eq!(write_request(8, 2), Ok(Request { address: 8, count: 2 }));
    assert_eq!(write_request(8, MAX_WRITE_COUNT), Ok(Request { address: 8, count: 123 }));
    assert_eq!(write_request(8, 124), Err(TransportError::Quantity { count: 124 }));
    assert_eq!(write_request(8, 0), Err(TransportError::Quantity { count: 0 }));
    assert_eq!(write_request(65500, 100), Err(TransportError::Range { address: 65500, count: 100 }));
}
