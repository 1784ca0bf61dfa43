//! Fixed-layout, pointer-free values stored in the policy tables.
//!
//! Every set value reserves its first slot as a sentinel: a zero there means
//! "all". A zero is never stored as a real inode, port or address.
use vstd::prelude::*;

verus! {

/// Number of path inodes in a path set.
pub const MAX_PATHS: usize = 4;

/// Number of ports in a port set.
pub const MAX_PORTS: usize = 4;

/// Number of IPv4 addresses in an IPv4 set.
pub const MAX_IPV4ADDRS: usize = 1;

/// Number of IPv6 addresses in an IPv6 set.
pub const MAX_IPV6ADDRS: usize = 1;

/// Number of leading slots of a path or port set that the engine consults;
/// the last slot is reserved.
pub const HONORED_SLOTS: usize = 3;

/// A set of path inodes.
#[derive(Copy, Clone)]
pub struct Paths {
    pub paths: [u64; MAX_PATHS],
}

/// A set of ports.
#[derive(Copy, Clone)]
pub struct Ports {
    pub ports: [u16; MAX_PORTS],
}

/// A set of IPv4 addresses, each in host byte order.
#[derive(Copy, Clone)]
pub struct Ipv4Addrs {
    pub addrs: [u32; MAX_IPV4ADDRS],
}

/// A set of IPv6 addresses, each as its sixteen octets.
#[derive(Copy, Clone)]
pub struct Ipv6Addrs {
    pub addrs: [[u8; 16]; MAX_IPV6ADDRS],
}

/// True when `x` is one of the first `n` elements of `s`.
pub open spec fn listed<T>(s: Seq<T>, n: int, x: T) -> bool {
    exists|i: int| 0 <= i < n && i < s.len() && s[i] == x
}

/// The all-zero IPv6 address.
pub open spec fn zero_v6() -> Seq<u8> {
    Seq::new(16, |i: int| 0u8)
}

/// Compares two IPv6 addresses octet by octet.
pub fn octets_eq(a: &[u8; 16], b: &[u8; 16]) -> (r: bool)
    ensures
        r == (a@ =~= b@),
{
    let mut i: usize = 0;
    while i < 16
        invariant
            0 <= i <= 16,
            a@.len() == 16,
            b@.len() == 16,
            forall|j: int| 0 <= j < i ==> a@[j] == b@[j],
        decreases 16 - i,
    {
        if a[i] != b[i] {
            return false;
        }
        i = i + 1;
    }
    true
}

/// Whether an address is the all-zero IPv6 address.
pub fn is_zero_v6(a: &[u8; 16]) -> (r: bool)
    ensures
        r == (a@ =~= zero_v6()),
{
    let mut i: usize = 0;
    while i < 16
        invariant
            0 <= i <= 16,
            a@.len() == 16,
            forall|j: int| 0 <= j < i ==> a@[j] == 0u8,
        decreases 16 - i,
    {
        if a[i] != 0 {
            return false;
        }
        i = i + 1;
    }
    true
}

impl Paths {
    /// Sentinel in the first slot: every path.
    pub open spec fn spec_all(&self) -> bool {
        self.paths@[0] == 0
    }

    /// `inode` is one of the honored slots.
    pub open spec fn spec_lists(&self, inode: u64) -> bool {
        listed(self.paths@, HONORED_SLOTS as int, inode)
    }

    pub fn new(paths: [u64; MAX_PATHS]) -> (r: Self)
        ensures
            r.paths@ == paths@,
    {
        Paths { paths }
    }

    pub fn new_all() -> (r: Self)
        ensures
            r.spec_all(),
            forall|i: int| 0 <= i < MAX_PATHS ==> r.paths@[i] == 0,
    {
        Paths { paths: [0u64; MAX_PATHS] }
    }

    pub fn all(&self) -> (r: bool)
        ensures
            r == self.spec_all(),
    {
        self.paths[0] == 0
    }

    /// Whether `inode` stands in one of the honored slots.
    pub fn lists(&self, inode: u64) -> (r: bool)
        ensures
            r == self.spec_lists(inode),
    {
        let mut i: usize = 0;
        while i < HONORED_SLOTS
            invariant
                0 <= i <= HONORED_SLOTS,
                self.paths@.len() == MAX_PATHS,
                forall|j: int| 0 <= j < i ==> self.paths@[j] != inode,
            decreases HONORED_SLOTS - i,
        {
            if self.paths[i] == inode {
                return true;
            }
            i = i + 1;
        }
        false
    }
}

impl Ports {
    /// Sentinel in the first slot: every port.
    pub open spec fn spec_all(&self) -> bool {
        self.ports@[0] == 0
    }

    /// `port` is one of the honored slots.
    pub open spec fn spec_lists(&self, port: u16) -> bool {
        listed(self.ports@, HONORED_SLOTS as int, port)
    }

    pub fn new(ports: [u16; MAX_PORTS]) -> (r: Self)
        ensures
            r.ports@ == ports@,
    {
        Ports { ports }
    }

    pub fn new_all() -> (r: Self)
        ensures
            r.spec_all(),
            forall|i: int| 0 <= i < MAX_PORTS ==> r.ports@[i] == 0,
    {
        Ports { ports: [0u16; MAX_PORTS] }
    }

    pub fn all(&self) -> (r: bool)
        ensures
            r == self.spec_all(),
    {
        self.ports[0] == 0
    }

    /// Whether `port` stands in one of the honored slots.
    pub fn lists(&self, port: u16) -> (r: bool)
        ensures
            r == self.spec_lists(port),
    {
        let mut i: usize = 0;
        while i < HONORED_SLOTS
            invariant
                0 <= i <= HONORED_SLOTS,
                self.ports@.len() == MAX_PORTS,
                forall|j: int| 0 <= j < i ==> self.ports@[j] != port,
            decreases HONORED_SLOTS - i,
        {
            if self.ports[i] == port {
                return true;
            }
            i = i + 1;
        }
        false
    }
}

impl Ipv4Addrs {
    pub fn new(addrs: [u32; MAX_IPV4ADDRS]) -> (r: Self)
        ensures
            r.addrs@ == addrs@,
    {
        Ipv4Addrs { addrs }
    }

    pub fn new_all() -> (r: Self)
        ensures
            r.spec_all(),
            forall|i: int| 0 <= i < MAX_IPV4ADDRS ==> r.addrs@[i] == 0,
    {
        Ipv4Addrs { addrs: [0u32; MAX_IPV4ADDRS] }
    }
}

impl Ipv6Addrs {
    pub fn new(addrs: [[u8; 16]; MAX_IPV6ADDRS]) -> (r: Self)
        ensures
            r.addrs@ == addrs@,
    {
        Ipv6Addrs { addrs }
    }

    pub fn new_all() -> (r: Self)
        ensures
            r.spec_all(),
            forall|i: int| 0 <= i < MAX_IPV6ADDRS ==> r.addrs@[i]@ =~= zero_v6(),
    {
        let z: [u8; 16] = [0u8; 16];
        let r = Ipv6Addrs { addrs: [z] };
        assert(r.addrs@[0]@ =~= zero_v6());
        r
    }
}

/// An address set of one family: the sentinel and the membership test.
pub trait IpAddrs<T> {
    spec fn spec_all(&self) -> bool;

    spec fn spec_lists(&self, addr: T) -> bool;

    fn all(&self) -> (r: bool)
        ensures
            r == self.spec_all(),
    ;

    /// Whether `addr` stands in one of the slots.
    fn lists(&self, addr: &T) -> (r: bool)
        ensures
            r == self.spec_lists(*addr),
    ;
}

impl IpAddrs<u32> for Ipv4Addrs {
    open spec fn spec_all(&self) -> bool {
        self.addrs@[0] == 0
    }

    open spec fn spec_lists(&self, addr: u32) -> bool {
        listed(self.addrs@, MAX_IPV4ADDRS as int, addr)
    }

    fn all(&self) -> (r: bool) {
        self.addrs[0] == 0
    }

    fn lists(&self, addr: &u32) -> (r: bool) {
        let mut i: usize = 0;
        while i < MAX_IPV4ADDRS
            invariant
                0 <= i <= MAX_IPV4ADDRS,
                self.addrs@.len() == MAX_IPV4ADDRS,
                forall|j: int| 0 <= j < i ==> self.addrs@[j] != *addr,
            decreases MAX_IPV4ADDRS - i,
        {
            if self.addrs[i] == *addr {
                return true;
            }
            i = i + 1;
        }
        false
    }
}

impl IpAddrs<[u8; 16]> for Ipv6Addrs {
    open spec fn spec_all(&self) -> bool {
        self.addrs@[0]@ =~= zero_v6()
    }

    open spec fn spec_lists(&self, addr: [u8; 16]) -> bool {
        exists|i: int| 0 <= i < MAX_IPV6ADDRS && self.addrs@[i]@ =~= addr@
    }

    fn all(&self) -> (r: bool) {
        is_zero_v6(&self.addrs[0])
    }

    fn lists(&self, addr: &[u8; 16]) -> (r: bool) {
        let mut i: usize = 0;
        while i < MAX_IPV6ADDRS
            invariant
                0 <= i <= MAX_IPV6ADDRS,
                self.addrs@.len() == MAX_IPV6ADDRS,
                forall|j: int| 0 <= j < i ==> !(self.addrs@[j]@ =~= addr@),
            decreases MAX_IPV6ADDRS - i,
        {
            if octets_eq(&self.addrs[i], addr) {
                return true;
            }
            i = i + 1;
        }
        false
    }
}

} // verus!
