use tokio_tun::allocation::{AllocAction, AllocEvent, Allocation, Phase};
use tokio_tun::error::Error;
use tokio_tun::interface::{Interface, Params};
use tokio_tun::tun::Tun;
use tokio_tun::utun::{
    adapter_name, ctl_info_request, decode_ctl_id, sockaddr_ctl_bytes, OpenCall, SysReply,
};

fn named(name: Option<&str>) -> Params {
    Params {
        name: name.map(|n| n.to_string()),
        flags: 0,
        persist: false,
        up: false,
        mtu: None,
        owner: None,
        group: None,
        address: None,
        destination: None,
        broadcast: None,
        netmask: None,
    }
}

fn done(value: i32, data: &[u8]) -> SysReply {
    SysReply::Done { value, data: data.to_vec() }
}

#[test]
fn requested_unit_reads_the_number_behind_utun() {
    assert_eq!(Allocation::requested_unit(&Some("utun7".to_string())), Some(7));
    assert_eq!(Allocation::requested_unit(&Some("utun0".to_string())), Some(0));
    assert_eq!(Allocation::requested_unit(&Some("utun123".to_string())), Some(123));
    assert_eq!(Allocation::requested_unit(&Some("utun".to_string())), None);
    assert_eq!(Allocation::requested_unit(&Some("utunx".to_string())), None);
    assert_eq!(Allocation::requested_unit(&Some("tun7".to_string())), None);
    assert_eq!(Allocation::requested_unit(&Some("".to_string())), None);
    assert_eq!(Allocation::requested_unit(&Some("utun99999999999".to_string())), None);
    assert_eq!(Allocation::requested_unit(&None), None);
}

#[test]
fn allocation_of_requested_unit_opens_it() {
    let (mut state, action) = Tun::allocate(&named(Some("utun5")), 1);
    assert_eq!(action, AllocAction::Open(5));
    let action = state.step(&AllocEvent::Opened { fd: 9, name: "utun5".to_string() });
    assert_eq!(action, AllocAction::SetNonBlocking(9));
    assert_eq!(state.phase, Phase::Configuring(9));
    let action = state.step(&AllocEvent::Configured);
    assert_eq!(action, AllocAction::Done(Ok(())));
    assert_eq!(state.phase, Phase::Finished);
    assert_eq!(state.fds, vec![9]);
    assert_eq!(state.name, "utun5");
    let iface = state.into_interface(3);
    assert_eq!(iface.files(), &[9]);
    assert_eq!(iface.name(), "utun5");
    assert_eq!(iface.socket(), 3);
}

#[test]
fn allocation_of_requested_unit_fails_with_os_error() {
    let (mut state, action) = Allocation::begin(Some(2), 1);
    assert_eq!(action, AllocAction::Open(2));
    assert_eq!(state.step(&AllocEvent::Failed(16)), AllocAction::Done(Err(Error::Os(16))));
    assert_eq!(state.phase, Phase::Finished);
}

#[test]
fn allocation_search_takes_first_unit_that_opens() {
    let (mut state, action) = Tun::allocate(&named(None), 1);
    assert_eq!(action, AllocAction::Open(0));
    assert_eq!(state.step(&AllocEvent::Failed(16)), AllocAction::Open(1));
    assert_eq!(state.step(&AllocEvent::Failed(16)), AllocAction::Open(2));
    let action = state.step(&AllocEvent::Opened { fd: 4, name: "utun2".to_string() });
    assert_eq!(action, AllocAction::SetNonBlocking(4));
    assert_eq!(state.step(&AllocEvent::Configured), AllocAction::Done(Ok(())));
    assert_eq!(state.fds, vec![4]);
    assert_eq!(state.name, "utun2");
}

#[test]
fn allocation_search_gives_up_after_sixteen_units() {
    let (mut state, mut action) = Allocation::begin(None, 1);
    let mut tried = Vec::new();
    while let AllocAction::Open(unit) = action {
        tried.push(unit);
        action = state.step(&AllocEvent::Failed(16));
    }
    assert_eq!(tried, (0..16).collect::<Vec<i32>>());
    assert_eq!(action, AllocAction::Done(Err(Error::NotFound)));
}

#[test]
fn allocation_fails_when_non_blocking_mode_cannot_be_set() {
    let (mut state, _) = Allocation::begin(None, 1);
    state.step(&AllocEvent::Opened { fd: 4, name: "utun0".to_string() });
    assert_eq!(state.step(&AllocEvent::Failed(9)), AllocAction::Done(Err(Error::Os(9))));
    assert!(state.fds.is_empty());
}

#[test]
fn allocation_opens_one_handle_per_queue() {
    let (mut state, mut action) = Tun::allocate(&named(Some("utun3")), 3);
    let mut next_fd = 10;
    loop {
        match action {
            AllocAction::Open(unit) => {
                assert_eq!(unit, 3);
                action = state.step(&AllocEvent::Opened { fd: next_fd, name: format!("utun{}", unit) });
                next_fd += 1;
            }
            AllocAction::SetNonBlocking(_) => action = state.step(&AllocEvent::Configured),
            AllocAction::Done(result) => {
                assert_eq!(result, Ok(()));
                break;
            }
        }
    }
    let handles = Tun::new_mq(state.into_interface(3));
    assert_eq!(handles.len(), 3);
    assert!(handles.iter().all(|h| h.name() == "utun3"));
    assert_eq!(handles.iter().map(|h| h.as_raw_fd()).collect::<Vec<i32>>(), vec![10, 11, 12]);
}

#[test]
fn control_info_carries_the_control_name() {
    let info = ctl_info_request();
    assert_eq!(info.len(), 100);
    assert_eq!(&info[..4], &[0, 0, 0, 0]);
    assert_eq!(&info[4..30], b"com.apple.net.utun_control");
    assert!(info[30..].iter().all(|b| *b == 0));
    let mut filled = info.clone();
    filled[0] = 0x07;
    filled[1] = 0x01;
    assert_eq!(decode_ctl_id(&filled), 0x0107);
    assert_eq!(decode_ctl_id(&[1, 2, 3, 4]), 0);
}

#[test]
fn control_address_layout() {
    let addr = sockaddr_ctl_bytes(0x0102_0304, 5);
    let mut want = vec![0u8; 32];
    want[0] = 32;
    want[1] = 32;
    want[2] = 2;
    want[4..8].copy_from_slice(&[4, 3, 2, 1]);
    want[8] = 5;
    assert_eq!(addr, want);
    assert_eq!(&sockaddr_ctl_bytes(0, -1)[8..12], &[255, 255, 255, 255]);
}

#[test]
fn adapter_name_drops_the_terminator() {
    assert_eq!(adapter_name(b"utun3\0"), "utun3");
    assert_eq!(adapter_name(b"\0"), "");
    assert_eq!(adapter_name(b""), "");
    assert_eq!(adapter_name(&[b'a', 0xff, b'b', 0]), "a\u{fffd}b");
}

#[test]
fn open_utun_walks_through_the_calls() {
    let mut replies: Vec<SysReply> = Vec::new();
    assert_eq!(Interface::open_utun(4, &replies), OpenCall::Socket);
    replies.push(done(8, &[]));
    assert_eq!(
        Interface::open_utun(4, &replies),
        OpenCall::ControlInfo { fd: 8, info: ctl_info_request() }
    );
    let mut info = ctl_info_request();
    info[0] = 9;
    replies.push(done(0, &info));
    assert_eq!(
        Interface::open_utun(4, &replies),
        OpenCall::Connect { fd: 8, addr: sockaddr_ctl_bytes(9, 4) }
    );
    replies.push(done(0, &[]));
    assert_eq!(Interface::open_utun(4, &replies), OpenCall::Name { fd: 8 });
    replies.push(done(0, b"utun3\0"));
    assert_eq!(Interface::open_utun(4, &replies), OpenCall::Done(Ok((8, "utun3".to_string()))));
}

#[test]
fn open_utun_socket_failure_is_final() {
    assert_eq!(
        Interface::open_utun(0, &[SysReply::Failed(24)]),
        OpenCall::Done(Err(Error::Os(24)))
    );
}

#[test]
fn open_utun_closes_the_socket_after_a_failure() {
    let socket = done(8, &[]);
    let info = done(0, &ctl_info_request());
    let ok = done(0, &[]);
    let cases: Vec<Vec<SysReply>> = vec![
        vec![socket.clone(), SysReply::Failed(2)],
        vec![socket.clone(), info.clone(), SysReply::Failed(16)],
        vec![socket.clone(), info.clone(), ok.clone(), SysReply::Failed(22)],
    ];
    for mut replies in cases {
        let code = match replies.last() {
            Some(SysReply::Failed(code)) => *code,
            _ => unreachable!(),
        };
        assert_eq!(Interface::open_utun(1, &replies), OpenCall::Close { fd: 8 });
        replies.push(done(0, &[]));
        assert_eq!(Interface::open_utun(1, &replies), OpenCall::Done(Err(Error::Os(code))));
    }
}
