//! Opening one adapter unit through the system's control socket: look up the
//! control, connect to the unit, ask for the adapter's name.

use crate::error::Error;
use crate::interface::Interface;
use crate::request::{low_first, pad, word_of, zeros};
use vstd::prelude::*;

verus! {

/// Request code that looks up a kernel control by name.
pub const CTLIOCGINFO: u64 = 0xc0644e03;

/// Protocol of kernel control sockets.
pub const SYSPROTO_CONTROL: i32 = 2;

/// Address family of system sockets.
pub const AF_SYSTEM: i32 = 32;

/// Protocol family of system sockets.
pub const PF_SYSTEM: i32 = 32;

/// Datagram socket type.
pub const SOCK_DGRAM: i32 = 2;

/// Sub-address of kernel controls within the system family.
pub const AF_SYS_CONTROL: u8 = 2;

/// Socket option that reports the adapter's name.
pub const UTUN_OPT_IFNAME: i32 = 2;

/// Length of the control-information structure: an identifier and a name of
/// ninety-six bytes.
pub const CTL_INFO_LEN: usize = 100;

/// Length of the address of a kernel control.
pub const SOCKADDR_CTL_LEN: usize = 32;

/// Length of the buffer that takes the adapter's name.
pub const NAME_BUF_LEN: usize = 64;

/// What the system answered to one call.
#[derive(Clone, Debug, PartialEq, Eq)]
pub enum SysReply {
    /// The call succeeded: the number it returned and the bytes it filled
    /// in, if it fills any.
    Done { value: i32, data: Vec<u8> },
    /// The call failed with this OS error code.
    Failed(i32),
}

/// The next thing to do while a unit is being opened.
#[derive(Debug, PartialEq, Eq)]
pub enum OpenCall {
    /// Create a datagram socket of the system family for kernel controls.
    Socket,
    /// Look up the control: hand over `info`, get it back filled.
    ControlInfo { fd: i32, info: Vec<u8> },
    /// Connect the socket to the address `addr`.
    Connect { fd: i32, addr: Vec<u8> },
    /// Ask for the adapter's name, into a buffer of `NAME_BUF_LEN` bytes.
    Name { fd: i32 },
    /// Close the socket: a call on it has failed.
    Close { fd: i32 },
    /// The unit is open, with this handle and adapter name, or it is not.
    Done(Result<(i32, String), Error>),
}

/// The name of the kernel control of the adapters,
/// `com.apple.net.utun_control`, as bytes.
pub open spec fn control_name() -> Seq<u8> {
    seq![
        99u8, 111u8, 109u8, 46u8, 97u8, 112u8, 112u8, 108u8, 101u8, 46u8, 110u8, 101u8, 116u8,
        46u8, 117u8, 116u8, 117u8, 110u8, 95u8, 99u8, 111u8, 110u8, 116u8, 114u8, 111u8, 108u8,
    ]
}

/// The control-information structure as it is handed over: a zero
/// identifier, then the control's name, zero padded.
pub open spec fn ctl_info() -> Seq<u8> {
    zeros(4) + control_name() + zeros(70)
}

/// The identifier in a control-information structure; zero if it is not one.
pub open spec fn ctl_id_of(info: Seq<u8>) -> u32 {
    if info.len() == CTL_INFO_LEN {
        word_of(info[0], info[1], info[2], info[3])
    } else {
        0u32
    }
}

/// The address of unit `unit` of the control `ctl_id`: length, family,
/// sub-address, identifier, unit number, zero padding.
pub open spec fn sockaddr_ctl(ctl_id: u32, unit: i32) -> Seq<u8> {
    seq![32u8, 32u8, AF_SYS_CONTROL, 0u8] + low_first(ctl_id) + low_first(unit as u32) + zeros(20)
}

/// The bytes of a reported name without the terminator that ends them.
pub open spec fn name_bytes(data: Seq<u8>) -> Seq<u8> {
    if data.len() == 0 {
        data
    } else {
        data.drop_last()
    }
}

/// The text that the standard library's lossy UTF-8 decoder reads from `bytes`.
pub uninterp spec fn lossy_utf8(bytes: Seq<u8>) -> Seq<char>;

/// `String::from_utf8_lossy`: the text of the bytes, with the replacement
/// character in place of what is no UTF-8.
#[verifier::external_body]
fn utf8_lossy(bytes: &[u8]) -> (text: String)
    ensures
        text@ == lossy_utf8(bytes@),
{
    String::from_utf8_lossy(bytes).into_owned()
}

/// After a failed call on the socket: close it first, then report the
/// failure. `later` is the number of replies that came after the failure.
pub open spec fn closing(fd: i32, code: i32, later: int, call: OpenCall) -> bool {
    if later == 0 {
        call matches OpenCall::Close { fd: f } && f == fd
    } else {
        call matches OpenCall::Done(Err(e)) && e == Error::Os(code)
    }
}

/// What opening unit `unit` asks for next, given the replies so far: the
/// socket, the lookup of the control, the connection, the name. A socket
/// that cannot be created fails the opening at once; a later failure closes
/// the socket and then fails it with the error of the call that failed.
pub open spec fn open_utun_next(unit: i32, replies: Seq<SysReply>, call: OpenCall) -> bool {
    let n = replies.len() as int;
    if n == 0 {
        call is Socket
    } else {
        match replies[0] {
            SysReply::Failed(code) => call matches OpenCall::Done(Err(e)) && e == Error::Os(code),
            SysReply::Done { value: fd, .. } => if n == 1 {
                call matches OpenCall::ControlInfo { fd: f, info } && f == fd && info@ == ctl_info()
            } else {
                match replies[1] {
                    SysReply::Failed(code) => closing(fd, code, n - 2, call),
                    SysReply::Done { data: info, .. } => if n == 2 {
                        call matches OpenCall::Connect { fd: f, addr } && f == fd && addr@
                            == sockaddr_ctl(ctl_id_of(info@), unit)
                    } else {
                        match replies[2] {
                            SysReply::Failed(code) => closing(fd, code, n - 3, call),
                            SysReply::Done { .. } => if n == 3 {
                                call matches OpenCall::Name { fd: f } && f == fd
                            } else {
                                match replies[3] {
                                    SysReply::Failed(code) => closing(fd, code, n - 4, call),
                                    SysReply::Done { data: name, .. } => call matches OpenCall::Done(
                                        Ok(opened),
                                    ) && opened.0 == fd && opened.1@ == lossy_utf8(
                                        name_bytes(name@),
                                    ),
                                }
                            },
                        }
                    },
                }
            },
        }
    }
}

fn push_word(bytes: &mut Vec<u8>, x: u32)
    ensures
        final(bytes)@ == old(bytes)@ + low_first(x),
{
    assert((x & 0xff) <= 0xff && ((x >> 8) & 0xff) <= 0xff && ((x >> 16) & 0xff) <= 0xff && ((x
        >> 24) & 0xff) <= 0xff) by (bit_vector);
    bytes.push((x & 0xff) as u8);
    bytes.push(((x >> 8) & 0xff) as u8);
    bytes.push(((x >> 16) & 0xff) as u8);
    bytes.push(((x >> 24) & 0xff) as u8);
    assert(bytes@ =~= old(bytes)@ + low_first(x));
}

/// Lays out the control-information structure that looks up the adapters' control.
pub fn ctl_info_request() -> (info: Vec<u8>)
    ensures
        info@ == ctl_info(),
        info@.len() == CTL_INFO_LEN,
{
    let name: [u8; 26] = [
        99u8, 111u8, 109u8, 46u8, 97u8, 112u8, 112u8, 108u8, 101u8, 46u8, 110u8, 101u8, 116u8,
        46u8, 117u8, 116u8, 117u8, 110u8, 95u8, 99u8, 111u8, 110u8, 116u8, 114u8, 111u8, 108u8,
    ];
    assert(name@ =~= control_name());
    let mut info: Vec<u8> = Vec::new();
    pad(&mut info, 4);
    let mut i: usize = 0;
    while i < 26
        invariant
            i <= 26,
            name@ == control_name(),
            info@ == zeros(4) + control_name().take(i as int),
        decreases 26 - i,
    {
        info.push(name[i]);
        i += 1;
        assert(info@ =~= zeros(4) + control_name().take(i as int));
    }
    assert(control_name().take(26) =~= control_name());
    pad(&mut info, 70);
    info
}

/// Reads the control's identifier out of the structure that the system filled.
pub fn decode_ctl_id(info: &[u8]) -> (id: u32)
    ensures
        id == ctl_id_of(info@),
{
    if info.len() != CTL_INFO_LEN {
        return 0;
    }
    (info[0] as u32) | ((info[1] as u32) << 8) | ((info[2] as u32) << 16) | ((info[3] as u32)
        << 24)
}

/// Lays out the address of one unit of a kernel control.
pub fn sockaddr_ctl_bytes(ctl_id: u32, unit: i32) -> (addr: Vec<u8>)
    ensures
        addr@ == sockaddr_ctl(ctl_id, unit),
        addr@.len() == SOCKADDR_CTL_LEN,
{
    let mut addr: Vec<u8> = Vec::new();
    addr.push(32u8);
    addr.push(32u8);
    addr.push(AF_SYS_CONTROL);
    addr.push(0u8);
    assert(addr@ =~= seq![32u8, 32u8, AF_SYS_CONTROL, 0u8]);
    push_word(&mut addr, ctl_id);
    push_word(&mut addr, unit as u32);
    pad(&mut addr, 20);
    addr
}

/// The adapter's name from the bytes that the system reported: all but the
/// terminator, read as text.
pub fn adapter_name(data: &[u8]) -> (name: String)
    ensures
        name@ == lossy_utf8(name_bytes(data@)),
{
    if data.len() == 0 {
        utf8_lossy(data)
    } else {
        let head: &[u8] = vstd::slice::slice_subrange(data, 0, data.len() - 1);
        assert(head@ =~= data@.drop_last());
        utf8_lossy(head)
    }
}

fn close_then_fail(fd: i32, code: i32, later: usize) -> (call: OpenCall)
    ensures
        closing(fd, code, later as int, call),
{
    if later == 0 {
        OpenCall::Close { fd }
    } else {
        OpenCall::Done(Err(Error::Os(code)))
    }
}

impl Interface {
    /// Opens adapter unit `unit`: answers with the next call to make, given
    /// the replies to the calls made so far, oldest first.
    pub fn open_utun(unit: i32, replies: &[SysReply]) -> (call: OpenCall)
        ensures
            open_utun_next(unit, replies@, call),
    {
        let n: usize = replies.len();
        if n == 0 {
            return OpenCall::Socket;
        }
        let fd: i32 = match &replies[0] {
            SysReply::Failed(code) => {
                return OpenCall::Done(Err(Error::Os(*code)));
            },
            SysReply::Done { value, .. } => *value,
        };
        if n == 1 {
            return OpenCall::ControlInfo { fd, info: ctl_info_request() };
        }
        let ctl_id: u32 = match &replies[1] {
            SysReply::Failed(code) => {
                return close_then_fail(fd, *code, n - 2);
            },
            SysReply::Done { data, .. } => decode_ctl_id(data.as_slice()),
        };
        if n == 2 {
            return OpenCall::Connect { fd, addr: sockaddr_ctl_bytes(ctl_id, unit) };
        }
        match &replies[2] {
            SysReply::Failed(code) => {
                return close_then_fail(fd, *code, n - 3);
            },
            SysReply::Done { .. } => {},
        }
        if n == 3 {
            return OpenCall::Name { fd };
        }
        match &replies[3] {
            SysReply::Failed(code) => close_then_fail(fd, *code, n - 4),
            SysReply::Done { data, .. } => OpenCall::Done(Ok((fd, adapter_name(data.as_slice())))),
        }
    }
}

} // verus!
