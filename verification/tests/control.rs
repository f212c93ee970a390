use tokio_tun::address::Ipv4Address;
use tokio_tun::allocation::{AllocAction, AllocEvent};
use tokio_tun::error::Error;
use tokio_tun::interface::{ControlReply, Interface, Params, Step};
use tokio_tun::request::{
    decode_address, decode_flags, decode_mtu, encode, request_code, ControlCall, Request,
    SIOCGIFADDR, SIOCGIFDSTADDR, SIOCGIFFLAGS, SIOCGIFMTU, SIOCGIFNETMASK, SIOCSIFADDR,
    SIOCSIFDSTADDR, SIOCSIFFLAGS, SIOCSIFMTU, SIOCSIFNETMASK,
};
use tokio_tun::tun::{Released, Tun};

/// A stand-in for the adapter's state in the kernel.
struct Adapter {
    name: String,
    mtu: i32,
    flags: i16,
    address: Ipv4Address,
    netmask: Ipv4Address,
    destination: Ipv4Address,
    fail: Option<(u64, i32)>,
    codes: Vec<u64>,
}

fn adapter(name: &str) -> Adapter {
    Adapter {
        name: name.to_string(),
        mtu: 1500,
        flags: 0x10,
        address: Ipv4Address::new(0, 0, 0, 0),
        netmask: Ipv4Address::new(0, 0, 0, 0),
        destination: Ipv4Address::new(0, 0, 0, 0),
        fail: None,
        codes: Vec::new(),
    }
}

fn ioctl(kernel: &mut Adapter, req: Request) -> ControlReply {
    kernel.codes.push(req.code);
    if let Some((code, errno)) = kernel.fail {
        if code == req.code {
            return ControlReply::Failed(errno);
        }
    }
    let name = kernel.name.clone();
    let filled = |call: ControlCall| ControlReply::Done(encode(&name, call).bytes);
    match req.code {
        SIOCSIFMTU => kernel.mtu = decode_mtu(&req.bytes),
        SIOCSIFFLAGS => kernel.flags = decode_flags(&req.bytes),
        SIOCSIFADDR => kernel.address = decode_address(&req.bytes),
        SIOCSIFNETMASK => kernel.netmask = decode_address(&req.bytes),
        SIOCSIFDSTADDR => kernel.destination = decode_address(&req.bytes),
        SIOCGIFMTU => return filled(ControlCall::SetMtu(kernel.mtu)),
        SIOCGIFFLAGS => return filled(ControlCall::SetFlags(kernel.flags)),
        SIOCGIFADDR => return filled(ControlCall::SetAddress(kernel.address)),
        SIOCGIFNETMASK => return filled(ControlCall::SetNetmask(kernel.netmask)),
        SIOCGIFDSTADDR => return filled(ControlCall::SetDestination(kernel.destination)),
        other => panic!("unknown request {:#x}", other),
    }
    ControlReply::Done(req.bytes)
}

fn drive<T>(
    kernel: &mut Adapter,
    iface: &Interface,
    op: &dyn Fn(&[ControlReply]) -> Step<T>,
) -> Result<T, Error> {
    let mut replies = Vec::new();
    loop {
        match op(&replies) {
            Step::Call(call) => replies.push(ioctl(kernel, iface.request(call))),
            Step::Done(result) => return result,
        }
    }
}

fn params() -> Params {
    Params {
        name: None,
        flags: 0,
        persist: false,
        up: false,
        mtu: None,
        owner: None,
        group: None,
        address: None,
        destination: None,
        broadcast: None,
        netmask: None,
    }
}

#[test]
fn ipv4_address_octets_and_bits() {
    let a = Ipv4Address::new(10, 1, 0, 255);
    assert_eq!(a.bits, 0x0a01_00ff);
    assert_eq!(a.octets(), [10, 1, 0, 255]);
    assert_eq!(Ipv4Address::unspecified().octets(), [0, 0, 0, 0]);
    assert_eq!(Ipv4Address::all_ones().octets(), [255, 255, 255, 255]);
}

#[test]
fn broadcast_is_address_or_inverted_netmask() {
    let a = Ipv4Address::new(10, 0, 0, 1);
    let m = Ipv4Address::new(255, 255, 255, 0);
    assert_eq!(a.broadcast_under(&m), Ipv4Address::new(10, 0, 0, 255));
    let m = Ipv4Address::new(255, 255, 240, 0);
    assert_eq!(Ipv4Address::new(172, 16, 33, 7).broadcast_under(&m), Ipv4Address::new(172, 16, 47, 255));
}

#[test]
fn encode_lays_out_name_and_mtu() {
    let req = encode("utun3", ControlCall::SetMtu(1350));
    assert_eq!(req.code, 0x80206934);
    let mut want = vec![0u8; 32];
    want[..5].copy_from_slice(b"utun3");
    want[16] = 0x46;
    want[17] = 0x05;
    assert_eq!(req.bytes, want);
    assert_eq!(decode_mtu(&req.bytes), 1350);
}

#[test]
fn encode_truncates_long_names_and_keeps_terminator() {
    let req = encode("abcdefghijklmnopqrstuvwxyz", ControlCall::GetMtu);
    assert_eq!(req.code, 0xc0206935);
    assert_eq!(&req.bytes[..15], b"abcdefghijklmno");
    assert!(req.bytes[15..].iter().all(|b| *b == 0));
    assert_eq!(req.bytes.len(), 32);
}

#[test]
fn encode_lays_out_socket_address() {
    let req = encode("utun0", ControlCall::SetAddress(Ipv4Address::new(10, 0, 0, 1)));
    assert_eq!(req.code, 0x8020690c);
    assert_eq!(&req.bytes[16..], &[16, 2, 0, 0, 10, 0, 0, 1, 0, 0, 0, 0, 0, 0, 0, 0]);
    assert_eq!(decode_address(&req.bytes), Ipv4Address::new(10, 0, 0, 1));
    assert_eq!(encode("utun0", ControlCall::SetNetmask(Ipv4Address::new(255, 0, 0, 0))).code, 0x80206916);
    assert_eq!(encode("utun0", ControlCall::SetDestination(Ipv4Address::new(1, 0, 0, 0))).code, 0x8020690e);
}

#[test]
fn encode_lays_out_flags() {
    let req = encode("utun0", ControlCall::SetFlags(0x0841));
    assert_eq!(req.code, 0x80206910);
    assert_eq!(&req.bytes[16..20], &[0x41, 0x08, 0, 0]);
    assert_eq!(decode_flags(&req.bytes), 0x0841);
    let negative = encode("utun0", ControlCall::SetFlags(-2));
    assert_eq!(decode_flags(&negative.bytes), -2);
    let mtu = encode("utun0", ControlCall::SetMtu(-1));
    assert_eq!(decode_mtu(&mtu.bytes), -1);
}

#[test]
fn request_codes_match_the_platform() {
    assert_eq!(request_code(ControlCall::GetFlags), 0xc0206911);
    assert_eq!(request_code(ControlCall::GetNetmask), 0xc0206925);
    assert_eq!(request_code(ControlCall::GetAddress), 0xc0206921);
    assert_eq!(request_code(ControlCall::GetDestination), 0xc0206922);
}

#[test]
fn decoding_garbage_gives_zero_values() {
    assert_eq!(decode_mtu(&[1, 2, 3]), 0);
    assert_eq!(decode_flags(&[]), 0);
    assert_eq!(decode_address(&[9u8; 31]), Ipv4Address::new(0, 0, 0, 0));
    assert_eq!(decode_address(&[0u8; 32]), Ipv4Address::new(0, 0, 0, 0));
    let mut wrong_family = encode("utun0", ControlCall::SetAddress(Ipv4Address::new(1, 2, 3, 4))).bytes;
    wrong_family[17] = 30;
    assert_eq!(decode_address(&wrong_family), Ipv4Address::new(0, 0, 0, 0));
}

#[test]
fn interface_keeps_files_and_name() {
    let iface = Interface::new(vec![5, 6, 7], "utun4", 9);
    assert_eq!(iface.files(), &[5, 6, 7]);
    assert_eq!(iface.name(), "utun4");
    assert_eq!(iface.socket(), 9);
    assert_eq!(iface.request(ControlCall::GetMtu), encode("utun4", ControlCall::GetMtu));
}

#[test]
fn mtu_set_then_get_returns_value() {
    let iface = Interface::new(vec![5], "utun0", 9);
    let mut kernel = adapter("utun0");
    for v in [68, 1280, 1350, 1500, 9000, 65535] {
        assert_eq!(drive(&mut kernel, &iface, &|r| iface.mtu(Some(v), r)), Ok(v));
        assert_eq!(drive(&mut kernel, &iface, &|r| iface.mtu(None, r)), Ok(v));
    }
    assert_eq!(kernel.codes.len(), 12);
}

#[test]
fn accessor_failure_carries_os_code() {
    let iface = Interface::new(vec![5], "utun0", 9);
    let failed = [ControlReply::Failed(13)];
    assert_eq!(iface.mtu(Some(1500), &failed), Step::Done(Err(Error::Os(13))));
    assert_eq!(iface.mtu(None, &failed), Step::Done(Err(Error::Os(13))));
    assert_eq!(iface.address(None, &failed), Step::Done(Err(Error::Os(13))));
    assert_eq!(iface.netmask(Some(Ipv4Address::new(255, 0, 0, 0)), &failed), Step::Done(Err(Error::Os(13))));
    assert_eq!(iface.destination(None, &failed), Step::Done(Err(Error::Os(13))));
    assert_eq!(iface.flags(None, &failed), Step::Done(Err(Error::Os(13))));
    assert_eq!(iface.flags(Some(1), &failed), Step::Done(Err(Error::Os(13))));
}

#[test]
fn address_accessors_make_one_call_each() {
    let iface = Interface::new(vec![5], "utun0", 9);
    let a = Ipv4Address::new(10, 0, 0, 1);
    assert_eq!(iface.address(Some(a), &[]), Step::Call(ControlCall::SetAddress(a)));
    assert_eq!(iface.address(None, &[]), Step::Call(ControlCall::GetAddress));
    assert_eq!(iface.netmask(Some(a), &[]), Step::Call(ControlCall::SetNetmask(a)));
    assert_eq!(iface.netmask(None, &[]), Step::Call(ControlCall::GetNetmask));
    assert_eq!(iface.destination(Some(a), &[]), Step::Call(ControlCall::SetDestination(a)));
    assert_eq!(iface.destination(None, &[]), Step::Call(ControlCall::GetDestination));
    let done = [ControlReply::Done(vec![0u8; 32])];
    assert_eq!(iface.address(Some(a), &done), Step::Done(Ok(a)));
    assert_eq!(iface.address(None, &done), Step::Done(Ok(Ipv4Address::new(0, 0, 0, 0))));
}

#[test]
fn flags_are_or_combined_never_replaced() {
    let iface = Interface::new(vec![5], "utun0", 9);
    let mut kernel = adapter("utun0");
    kernel.flags = 0x8010u16 as i16;
    assert_eq!(drive(&mut kernel, &iface, &|r| iface.flags(Some(0x41), r)), Ok(0x8051u16 as i16));
    assert_eq!(kernel.codes, vec![SIOCGIFFLAGS, SIOCSIFFLAGS]);
    let now = drive(&mut kernel, &iface, &|r| iface.flags(None, r)).unwrap();
    assert_eq!(now & (0x8010u16 as i16 | 0x41), 0x8010u16 as i16 | 0x41);
    assert_eq!(kernel.codes, vec![SIOCGIFFLAGS, SIOCSIFFLAGS, SIOCGIFFLAGS]);
}

#[test]
fn flags_write_failure_is_reported() {
    let iface = Interface::new(vec![5], "utun0", 9);
    let mut kernel = adapter("utun0");
    kernel.fail = Some((SIOCSIFFLAGS, 1));
    assert_eq!(drive(&mut kernel, &iface, &|r| iface.flags(Some(1), r)), Err(Error::Os(1)));
    assert_eq!(kernel.flags, 0x10);
}

#[test]
fn broadcast_set_is_accepted_without_calls() {
    let iface = Interface::new(vec![5], "utun0", 9);
    let b = Ipv4Address::new(10, 0, 0, 255);
    assert_eq!(iface.broadcast(Some(b), &[]), Step::Done(Ok(b)));
}

#[test]
fn broadcast_get_is_computed_or_all_ones() {
    let iface = Interface::new(vec![5], "utun0", 9);
    let mut kernel = adapter("utun0");
    kernel.address = Ipv4Address::new(10, 0, 0, 1);
    kernel.netmask = Ipv4Address::new(255, 255, 255, 0);
    assert_eq!(drive(&mut kernel, &iface, &|r| iface.broadcast(None, r)), Ok(Ipv4Address::new(10, 0, 0, 255)));
    assert_eq!(kernel.codes, vec![SIOCGIFADDR, SIOCGIFNETMASK]);
    kernel.fail = Some((SIOCGIFNETMASK, 6));
    assert_eq!(drive(&mut kernel, &iface, &|r| iface.broadcast(None, r)), Ok(Ipv4Address::new(255, 255, 255, 255)));
    kernel.fail = Some((SIOCGIFADDR, 6));
    kernel.codes.clear();
    assert_eq!(drive(&mut kernel, &iface, &|r| iface.broadcast(None, r)), Ok(Ipv4Address::new(255, 255, 255, 255)));
    assert_eq!(kernel.codes, vec![SIOCGIFADDR, SIOCGIFNETMASK]);
}

#[test]
fn init_applies_settings_in_order() {
    let iface = Interface::new(vec![5], "utun0", 9);
    let mut kernel = adapter("utun0");
    let mut p = params();
    p.mtu = Some(1350);
    p.address = Some(Ipv4Address::new(10, 0, 0, 1));
    p.netmask = Some(Ipv4Address::new(255, 255, 255, 0));
    p.destination = Some(Ipv4Address::new(10, 1, 0, 1));
    p.broadcast = Some(Ipv4Address::new(10, 0, 0, 255));
    p.up = true;
    p.persist = true;
    p.owner = Some(501);
    p.group = Some(20);
    assert_eq!(drive(&mut kernel, &iface, &|r| iface.init(&p, r)), Ok(()));
    assert_eq!(
        kernel.codes,
        vec![SIOCSIFMTU, SIOCSIFADDR, SIOCSIFNETMASK, SIOCSIFDSTADDR, SIOCGIFFLAGS, SIOCSIFFLAGS]
    );
    assert_eq!(kernel.mtu, 1350);
    assert_eq!(kernel.flags, 0x10 | 0x41);
}

#[test]
fn init_with_nothing_requested_makes_no_call() {
    let iface = Interface::new(vec![5], "utun0", 9);
    let mut p = params();
    p.persist = true;
    p.owner = Some(0);
    p.group = Some(0);
    p.broadcast = Some(Ipv4Address::new(1, 1, 1, 1));
    assert_eq!(iface.init(&p, &[]), Step::Done(Ok(())));
}

#[test]
fn init_up_adds_up_and_running() {
    let iface = Interface::new(vec![5], "utun0", 9);
    let mut p = params();
    p.up = true;
    assert_eq!(iface.init(&p, &[]), Step::Call(ControlCall::GetFlags));
    let current = ControlReply::Done(encode("utun0", ControlCall::SetFlags(0x8000u16 as i16)).bytes);
    assert_eq!(
        iface.init(&p, &[current]),
        Step::Call(ControlCall::SetFlags(0x8041u16 as i16))
    );
}

#[test]
fn init_stops_at_first_failure_without_rollback() {
    let iface = Interface::new(vec![5], "utun0", 9);
    let mut kernel = adapter("utun0");
    kernel.fail = Some((SIOCSIFNETMASK, 22));
    let mut p = params();
    p.mtu = Some(1400);
    p.address = Some(Ipv4Address::new(10, 0, 0, 1));
    p.netmask = Some(Ipv4Address::new(255, 255, 255, 0));
    p.destination = Some(Ipv4Address::new(10, 1, 0, 1));
    p.up = true;
    assert_eq!(drive(&mut kernel, &iface, &|r| iface.init(&p, r)), Err(Error::Os(22)));
    assert_eq!(kernel.codes, vec![SIOCSIFMTU, SIOCSIFADDR, SIOCSIFNETMASK]);
    assert_eq!(kernel.mtu, 1400);
    assert_eq!(kernel.address, Ipv4Address::new(10, 0, 0, 1));
    assert_eq!(kernel.destination, Ipv4Address::new(0, 0, 0, 0));
}

#[test]
fn queue_handles_share_adapter_state() {
    let mut kernel = adapter("utun2");
    let mut p = params();
    p.address = Some(Ipv4Address::new(10, 0, 0, 1));
    p.destination = Some(Ipv4Address::new(10, 1, 0, 1));
    p.netmask = Some(Ipv4Address::new(255, 255, 255, 0));
    p.up = true;
    let (mut state, mut action) = Tun::allocate(&p, 3);
    let mut next_fd = 11;
    loop {
        match action {
            AllocAction::Open(unit) => {
                let busy = unit < 2;
                action = state.step(&if busy {
                    AllocEvent::Failed(16)
                } else {
                    AllocEvent::Opened { fd: next_fd, name: format!("utun{}", unit) }
                });
                if !busy {
                    next_fd += 1;
                }
            }
            AllocAction::SetNonBlocking(_) => action = state.step(&AllocEvent::Configured),
            AllocAction::Done(result) => {
                assert_eq!(result, Ok(()));
                break;
            }
        }
    }
    let iface = state.into_interface(9);
    assert_eq!(drive(&mut kernel, &iface, &|r| iface.init(&p, r)), Ok(()));
    let handles = Tun::new_mq(iface);
    assert_eq!(handles.len(), 3);
    assert!(handles.iter().all(|h| h.name() == "utun2"));
    let fds: Vec<i32> = handles.iter().map(|h| h.as_raw_fd()).collect();
    assert_eq!(fds, vec![11, 12, 13]);
    let first = &handles[0];
    let second = &handles[1];
    assert_eq!(drive(&mut kernel, first.interface(), &|r| first.address(r)), Ok(Ipv4Address::new(10, 0, 0, 1)));
    assert_eq!(
        drive(&mut kernel, second.interface(), &|r| second.destination(r)),
        Ok(Ipv4Address::new(10, 1, 0, 1))
    );
    let third = &handles[2];
    assert_eq!(drive(&mut kernel, third.interface(), &|r| third.netmask(r)), Ok(Ipv4Address::new(255, 255, 255, 0)));
    assert_eq!(drive(&mut kernel, third.interface(), &|r| third.broadcast(r)), Ok(Ipv4Address::new(10, 0, 0, 255)));
    assert_eq!(drive(&mut kernel, third.interface(), &|r| third.mtu(r)), Ok(1500));
    assert_eq!(drive(&mut kernel, third.interface(), &|r| third.flags(r)), Ok(0x51));
}

#[test]
fn new_mq_gives_one_handle_per_file() {
    for n in 1..6 {
        let fds: Vec<i32> = (0..n).map(|i| 20 + i).collect();
        let handles = Tun::new_mq(Interface::new(fds.clone(), "utun9", 3));
        assert_eq!(handles.len(), fds.len());
        for (i, h) in handles.iter().enumerate() {
            assert_eq!(h.as_raw_fd(), fds[i]);
            assert_eq!(h.name(), handles[0].name());
            assert_eq!(h.interface().files(), &fds[..]);
        }
    }
    let single = Tun::new(Interface::new(vec![4, 5], "utun1", 3));
    assert_eq!(single.as_raw_fd(), 4);
    assert_eq!(single.name(), "utun1");
}

#[test]
fn releasing_all_handles_closes_every_handle_once() {
    let handles = Tun::new_mq(Interface::new(vec![11, 12, 13], "utun2", 9));
    let mut closed_fds = Vec::new();
    let mut closed_sockets = Vec::new();
    for handle in handles {
        let released = handle.release();
        closed_fds.push(released.fd);
        closed_sockets.extend(released.socket);
    }
    assert_eq!(closed_fds, vec![11, 12, 13]);
    assert_eq!(closed_sockets, vec![9]);
}

#[test]
fn release_keeps_control_channel_while_handles_remain() {
    let mut handles = Tun::new_mq(Interface::new(vec![11, 12], "utun2", 9));
    let second = handles.pop().unwrap();
    assert_eq!(second.release(), Released { fd: 12, socket: None });
    let first = handles.pop().unwrap();
    assert_eq!(first.name(), "utun2");
    assert_eq!(first.release(), Released { fd: 11, socket: Some(9) });
    assert_eq!(Tun::released_by(4, None), Released { fd: 4, socket: None });
    assert_eq!(
        Tun::released_by(4, Some(Interface::new(vec![4], "utun0", 6))),
        Released { fd: 4, socket: Some(6) }
    );
}
