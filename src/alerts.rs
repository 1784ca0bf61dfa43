//! Alert records: what a hook emits when it denies an operation.
//!
//! Each record is self-contained: plain integers and explicit padding, with
//! the calling process's pid and the inode of its executable image.
use vstd::prelude::*;

verus! {

/// Marker for the records that a hook emits on denial.
pub trait Alert {}

/// The little-endian 16-bit integer at offset `o` of `b`.
pub open spec fn le16(b: Seq<u8>, o: int) -> int {
    b[o] + 256 * b[o + 1]
}

/// The little-endian 32-bit integer at offset `o` of `b`.
pub open spec fn le32(b: Seq<u8>, o: int) -> int {
    le16(b, o) + 65536 * le16(b, o + 2)
}

/// The little-endian 64-bit integer at offset `o` of `b`.
pub open spec fn le64(b: Seq<u8>, o: int) -> int {
    le32(b, o) + 4294967296 * le32(b, o + 4)
}

fn read_u16(b: &[u8], o: usize) -> (r: u16)
    requires
        o <= 80,
        o + 2 <= b@.len(),
    ensures
        r == le16(b@, o as int),
{
    (b[o] as u16) + 256 * (b[o + 1] as u16)
}

fn read_u32(b: &[u8], o: usize) -> (r: u32)
    requires
        o <= 76,
        o + 4 <= b@.len(),
    ensures
        r == le32(b@, o as int),
{
    let lo = read_u16(b, o);
    let hi = read_u16(b, o + 2);
    (lo as u32) + 65536 * (hi as u32)
}

fn read_u64(b: &[u8], o: usize) -> (r: u64)
    requires
        o <= 72,
        o + 8 <= b@.len(),
    ensures
        r == le64(b@, o as int),
{
    let lo = read_u32(b, o);
    let hi = read_u32(b, o + 4);
    (lo as u64) + 4294967296 * (hi as u64)
}

fn read_octets(b: &[u8], o: usize) -> (r: [u8; 16])
    requires
        o <= 72,
        o + 16 <= b@.len(),
    ensures
        r@ == b@.subrange(o as int, o + 16),
{
    let mut r: [u8; 16] = [0u8; 16];
    let mut i: usize = 0;
    while i < 16
        invariant
            0 <= i <= 16,
            o <= 72,
            o + 16 <= b@.len(),
            r@.len() == 16,
            forall|j: int| 0 <= j < i ==> r@[j] == b@[o + j],
        decreases 16 - i,
    {
        r[i] = b[o + i];
        i = i + 1;
    }
    assert(r@ =~= b@.subrange(o as int, o + 16));
    r
}

/// Emitted when a program-execution check is denied.
#[derive(Copy, Clone)]
pub struct BprmCheckSecurity {
    pub pid: u32,
    pub _padding: u32,
    pub binprm_inode: u64,
}

impl BprmCheckSecurity {
    pub fn new(pid: u32, binprm_inode: u64) -> (r: Self)
        ensures
            r.pid == pid,
            r.binprm_inode == binprm_inode,
    {
        BprmCheckSecurity {
            pid,
            _padding: 0,
            binprm_inode,
        }
    }
}

impl Alert for BprmCheckSecurity {}

impl BprmCheckSecurity {
    /// Size of the record in bytes.
    pub const SIZE: usize = 16;

    /// Reads the record from the first `SIZE` bytes of `b`, little-endian,
    /// padding ignored; `None` when `b` is shorter.
    pub fn from_bytes(b: &[u8]) -> (r: Option<Self>)
        ensures
            r is Some <==> b@.len() >= 16,
            r is Some ==> r->0.pid == le32(b@, 0),
            r is Some ==> r->0.binprm_inode == le64(b@, 8),
    {
        if b.len() < 16 {
            return None;
        }
        Some(BprmCheckSecurity::new(read_u32(b, 0), read_u64(b, 8)))
    }
}

/// Emitted when a file open is denied.
#[derive(Copy, Clone)]
pub struct FileOpen {
    pub pid: u32,
    pub _padding: u32,
    pub binprm_inode: u64,
    pub inode: u64,
}

impl FileOpen {
    pub fn new(pid: u32, binprm_inode: u64, inode: u64) -> (r: Self)
        ensures
            r.pid == pid,
            r.binprm_inode == binprm_inode,
            r.inode == inode,
    {
        FileOpen {
            pid,
            _padding: 0,
            binprm_inode,
            inode,
        }
    }
}

impl Alert for FileOpen {}

impl FileOpen {
    /// Size of the record in bytes.
    pub const SIZE: usize = 24;

    /// Reads the record from the first `SIZE` bytes of `b`, little-endian,
    /// padding ignored; `None` when `b` is shorter.
    pub fn from_bytes(b: &[u8]) -> (r: Option<Self>)
        ensures
            r is Some <==> b@.len() >= 24,
            r is Some ==> r->0.pid == le32(b@, 0),
            r is Some ==> r->0.binprm_inode == le64(b@, 8),
            r is Some ==> r->0.inode == le64(b@, 16),
    {
        if b.len() < 24 {
            return None;
        }
        Some(FileOpen::new(read_u32(b, 0), read_u64(b, 8), read_u64(b, 16)))
    }
}

/// Emitted when a credential change is denied.
#[derive(Copy, Clone)]
pub struct TaskFixSetuid {
    pub pid: u32,
    pub _padding: u32,
    pub binprm_inode: u64,
    pub old_uid: u32,
    pub old_gid: u32,
    pub new_uid: u32,
    pub new_gid: u32,
}

impl TaskFixSetuid {
    pub fn new(pid: u32, binprm_inode: u64, old_uid: u32, old_gid: u32, new_uid: u32, new_gid: u32) -> (r: Self)
        ensures
            r.pid == pid,
            r.binprm_inode == binprm_inode,
            r.old_uid == old_uid,
            r.old_gid == old_gid,
            r.new_uid == new_uid,
            r.new_gid == new_gid,
    {
        TaskFixSetuid {
            pid,
            _padding: 0,
            binprm_inode,
            old_uid,
            old_gid,
            new_uid,
            new_gid,
        }
    }
}

impl Alert for TaskFixSetuid {}

impl TaskFixSetuid {
    /// Size of the record in bytes.
    pub const SIZE: usize = 32;

    /// Reads the record from the first `SIZE` bytes of `b`, little-endian,
    /// padding ignored; `None` when `b` is shorter.
    pub fn from_bytes(b: &[u8]) -> (r: Option<Self>)
        ensures
            r is Some <==> b@.len() >= 32,
            r is Some ==> r->0.pid == le32(b@, 0),
            r is Some ==> r->0.binprm_inode == le64(b@, 8),
            r is Some ==> r->0.old_uid == le32(b@, 16),
            r is Some ==> r->0.old_gid == le32(b@, 20),
            r is Some ==> r->0.new_uid == le32(b@, 24),
            r is Some ==> r->0.new_gid == le32(b@, 28),
    {
        if b.len() < 32 {
            return None;
        }
        Some(TaskFixSetuid::new(read_u32(b, 0), read_u64(b, 8), read_u32(b, 16), read_u32(b, 20), read_u32(b, 24), read_u32(b, 28)))
    }
}

/// Emitted when a filesystem mount is denied.
#[derive(Copy, Clone)]
pub struct SbMount {
    pub pid: u32,
    pub _padding: u32,
    pub binprm_inode: u64,
}

impl SbMount {
    pub fn new(pid: u32, binprm_inode: u64) -> (r: Self)
        ensures
            r.pid == pid,
            r.binprm_inode == binprm_inode,
    {
        SbMount {
            pid,
            _padding: 0,
            binprm_inode,
        }
    }
}

impl Alert for SbMount {}

impl SbMount {
    /// Size of the record in bytes.
    pub const SIZE: usize = 16;

    /// Reads the record from the first `SIZE` bytes of `b`, little-endian,
    /// padding ignored; `None` when `b` is shorter.
    pub fn from_bytes(b: &[u8]) -> (r: Option<Self>)
        ensures
            r is Some <==> b@.len() >= 16,
            r is Some ==> r->0.pid == le32(b@, 0),
            r is Some ==> r->0.binprm_inode == le64(b@, 8),
    {
        if b.len() < 16 {
            return None;
        }
        Some(SbMount::new(read_u32(b, 0), read_u64(b, 8)))
    }
}

/// Emitted when a filesystem remount is denied.
#[derive(Copy, Clone)]
pub struct SbRemount {
    pub pid: u32,
    pub _padding: u32,
    pub binprm_inode: u64,
}

impl SbRemount {
    pub fn new(pid: u32, binprm_inode: u64) -> (r: Self)
        ensures
            r.pid == pid,
            r.binprm_inode == binprm_inode,
    {
        SbRemount {
            pid,
            _padding: 0,
            binprm_inode,
        }
    }
}

impl Alert for SbRemount {}

impl SbRemount {
    /// Size of the record in bytes.
    pub const SIZE: usize = 16;

    /// Reads the record from the first `SIZE` bytes of `b`, little-endian,
    /// padding ignored; `None` when `b` is shorter.
    pub fn from_bytes(b: &[u8]) -> (r: Option<Self>)
        ensures
            r is Some <==> b@.len() >= 16,
            r is Some ==> r->0.pid == le32(b@, 0),
            r is Some ==> r->0.binprm_inode == le64(b@, 8),
    {
        if b.len() < 16 {
            return None;
        }
        Some(SbRemount::new(read_u32(b, 0), read_u64(b, 8)))
    }
}

/// Emitted when a filesystem unmount is denied.
#[derive(Copy, Clone)]
pub struct SbUmount {
    pub pid: u32,
    pub _padding: u32,
    pub binprm_inode: u64,
}

impl SbUmount {
    pub fn new(pid: u32, binprm_inode: u64) -> (r: Self)
        ensures
            r.pid == pid,
            r.binprm_inode == binprm_inode,
    {
        SbUmount {
            pid,
            _padding: 0,
            binprm_inode,
        }
    }
}

impl Alert for SbUmount {}

impl SbUmount {
    /// Size of the record in bytes.
    pub const SIZE: usize = 16;

    /// Reads the record from the first `SIZE` bytes of `b`, little-endian,
    /// padding ignored; `None` when `b` is shorter.
    pub fn from_bytes(b: &[u8]) -> (r: Option<Self>)
        ensures
            r is Some <==> b@.len() >= 16,
            r is Some ==> r->0.pid == le32(b@, 0),
            r is Some ==> r->0.binprm_inode == le64(b@, 8),
    {
        if b.len() < 16 {
            return None;
        }
        Some(SbUmount::new(read_u32(b, 0), read_u64(b, 8)))
    }
}

/// Emitted when a socket bind is denied.
#[derive(Copy, Clone)]
pub struct SocketBind {
    pub pid: u32,
    pub _padding1: u32,
    pub binprm_inode: u64,
    pub port: u16,
    pub _padding2: [u16; 3],
}

impl SocketBind {
    pub fn new(pid: u32, binprm_inode: u64, port: u16) -> (r: Self)
        ensures
            r.pid == pid,
            r.binprm_inode == binprm_inode,
            r.port == port,
    {
        SocketBind {
            pid,
            _padding1: 0,
            binprm_inode,
            port,
            _padding2: [0u16; 3],
        }
    }
}

impl Alert for SocketBind {}

impl SocketBind {
    /// Size of the record in bytes.
    pub const SIZE: usize = 24;

    /// Reads the record from the first `SIZE` bytes of `b`, little-endian,
    /// padding ignored; `None` when `b` is shorter.
    pub fn from_bytes(b: &[u8]) -> (r: Option<Self>)
        ensures
            r is Some <==> b@.len() >= 24,
            r is Some ==> r->0.pid == le32(b@, 0),
            r is Some ==> r->0.binprm_inode == le64(b@, 8),
            r is Some ==> r->0.port == le16(b@, 16),
    {
        if b.len() < 24 {
            return None;
        }
        Some(SocketBind::new(read_u32(b, 0), read_u64(b, 8), read_u16(b, 16)))
    }
}

/// Emitted when a socket connect is denied. Exactly one of `addr_v4` and
/// `addr_v6` is meaningful, as the address family of the attempt decides;
/// the other is zero.
#[derive(Copy, Clone)]
pub struct SocketConnect {
    pub pid: u32,
    pub _padding1: u32,
    pub binprm_inode: u64,
    pub addr_v4: u32,
    pub _padding2: u32,
    pub addr_v6: [u8; 16],
    pub port: u16,
}

impl SocketConnect {
    pub fn new_ipv4(pid: u32, binprm_inode: u64, addr_v4: u32, port: u16) -> (r: Self)
        ensures
            r.pid == pid,
            r.binprm_inode == binprm_inode,
            r.addr_v4 == addr_v4,
            r.addr_v6@ =~= crate::records::zero_v6(),
            r.port == port,
    {
        let r = SocketConnect {
            pid,
            _padding1: 0,
            binprm_inode,
            addr_v4,
            _padding2: 0,
            addr_v6: [0u8; 16],
            port,
        };
        assert(r.addr_v6@ =~= crate::records::zero_v6());
        r
    }

    pub fn new_ipv6(pid: u32, binprm_inode: u64, addr_v6: [u8; 16], port: u16) -> (r: Self)
        ensures
            r.pid == pid,
            r.binprm_inode == binprm_inode,
            r.addr_v4 == 0,
            r.addr_v6 == addr_v6,
            r.port == port,
    {
        SocketConnect {
            pid,
            _padding1: 0,
            binprm_inode,
            addr_v4: 0,
            _padding2: 0,
            addr_v6,
            port,
        }
    }
}

impl Alert for SocketConnect {}

impl SocketConnect {
    /// Size of the record in bytes.
    pub const SIZE: usize = 48;

    /// Reads the record from the first `SIZE` bytes of `b`, little-endian,
    /// padding ignored; `None` when `b` is shorter.
    pub fn from_bytes(b: &[u8]) -> (r: Option<Self>)
        ensures
            r is Some <==> b@.len() >= 48,
            r is Some ==> r->0.pid == le32(b@, 0),
            r is Some ==> r->0.binprm_inode == le64(b@, 8),
            r is Some ==> r->0.addr_v4 == le32(b@, 16),
            r is Some ==> r->0.addr_v6@ == b@.subrange(24, 40),
            r is Some ==> r->0.port == le16(b@, 40),
    {
        if b.len() < 48 {
            return None;
        }
        Some(SocketConnect {
            pid: read_u32(b, 0),
            _padding1: 0,
            binprm_inode: read_u64(b, 8),
            addr_v4: read_u32(b, 16),
            _padding2: 0,
            addr_v6: read_octets(b, 24),
            port: read_u16(b, 40),
        })
    }
}

} // verus!
