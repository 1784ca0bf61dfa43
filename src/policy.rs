//! High-level policies, one kind per hook, and their encoding as
//! the set records of the policy tables, and back.
use vstd::prelude::*;
use crate::error::EbpfguardError;
use crate::inode::{InodeSubjectMap, subject_of};
use crate::records::{self, MAX_IPV4ADDRS, MAX_IPV6ADDRS, MAX_PATHS, MAX_PORTS};

verus! {

/// Whom a policy applies to: one executable, by path, or every executable.
#[derive(Debug, PartialEq, Eq, Clone)]
pub enum PolicySubject {
    Binary(String),
    All,
}

/// Paths that a file-open policy allows or denies.
#[derive(Debug, PartialEq, Eq, Clone)]
pub enum Paths {
    All,
    Paths(Vec<String>),
}

/// Ports that a socket-bind policy allows or denies.
#[derive(Debug, PartialEq, Eq, Clone)]
pub enum Ports {
    All,
    Ports(Vec<u16>),
}

/// An IP address: IPv4 in host byte order, IPv6 as its octets.
#[derive(Debug, PartialEq, Eq, Clone, Copy)]
pub enum IpAddress {
    V4(u32),
    V6([u8; 16]),
}

/// Addresses that a socket-connect policy allows or denies.
#[derive(Debug, PartialEq, Eq, Clone)]
pub enum Addresses {
    All,
    Addresses(Vec<IpAddress>),
}

#[derive(Debug, PartialEq, Eq, Clone)]
pub struct FileOpen {
    pub subject: PolicySubject,
    pub allow: Paths,
    pub deny: Paths,
}

#[derive(Debug, PartialEq, Eq, Clone)]
pub struct SbMount {
    pub subject: PolicySubject,
    pub allow: bool,
}

#[derive(Debug, PartialEq, Eq, Clone)]
pub struct SbRemount {
    pub subject: PolicySubject,
    pub allow: bool,
}

#[derive(Debug, PartialEq, Eq, Clone)]
pub struct SbUmount {
    pub subject: PolicySubject,
    pub allow: bool,
}

#[derive(Debug, PartialEq, Eq, Clone)]
pub struct SocketBind {
    pub subject: PolicySubject,
    pub allow: Ports,
    pub deny: Ports,
}

#[derive(Debug, PartialEq, Eq, Clone)]
pub struct SocketConnect {
    pub subject: PolicySubject,
    pub allow: Addresses,
    pub deny: Addresses,
}

#[derive(Debug, PartialEq, Eq, Clone)]
pub struct TaskFixSetuid {
    pub subject: PolicySubject,
    pub allow: bool,
}

/// One policy of any kind.
#[derive(Debug, PartialEq, Eq, Clone)]
pub enum Policy {
    FileOpen(FileOpen),
    SbMount(SbMount),
    SbRemount(SbRemount),
    SbUmount(SbUmount),
    SocketBind(SocketBind),
    SocketConnect(SocketConnect),
    TaskFixSetuid(TaskFixSetuid),
}

/// `out` is the run of non-zero elements at the start of `s`.
pub open spec fn leading_nonzero<T>(s: Seq<T>, zero: T, out: Seq<T>) -> bool {
    &&& out.len() <= s.len()
    &&& out == s.take(out.len() as int)
    &&& out.len() == s.len() || s[out.len() as int] == zero
    &&& forall|j: int| 0 <= j < out.len() ==> s[j] != zero
}

/// `arr` holds `items` in its first slots and zeros after them.
pub open spec fn filled<T>(arr: Seq<T>, items: Seq<T>, zero: T) -> bool {
    &&& items.len() <= arr.len()
    &&& forall|j: int| 0 <= j < items.len() ==> arr[j] == items[j]
    &&& forall|j: int| items.len() <= j < arr.len() ==> arr[j] == zero
}

/// What a list of ports becomes in a table: `None` (no entry) for an empty
/// list, an error for too many ports or port 0, else the ports then zeros.
pub open spec fn ports_entry_ok(items: Seq<u16>, r: Result<Option<records::Ports>, EbpfguardError>) -> bool {
    if items.len() > MAX_PORTS {
        r == Err::<Option<records::Ports>, EbpfguardError>(EbpfguardError::TooManyEntries)
    } else if items.contains(0u16) {
        r == Err::<Option<records::Ports>, EbpfguardError>(EbpfguardError::ReservedValue)
    } else if items.len() == 0 {
        r == Ok::<Option<records::Ports>, EbpfguardError>(None)
    } else {
        r is Ok && r->Ok_0 is Some && filled(r->Ok_0->0.ports@, items, 0u16)
    }
}

impl Ports {
    /// Encodes as the table entry: the sentinel record for `All`.
    pub fn to_entry(&self) -> (r: Result<Option<records::Ports>, EbpfguardError>)
        ensures
            self is All ==> r is Ok && r->Ok_0 is Some && forall|i: int|
                0 <= i < MAX_PORTS ==> r->Ok_0->0.ports@[i] == 0,
            self is Ports ==> ports_entry_ok(self->Ports_0@, r),
    {
        match self {
            Ports::All => Ok(Some(records::Ports::new_all())),
            Ports::Ports(ports) => {
                if ports.len() > MAX_PORTS {
                    return Err(EbpfguardError::TooManyEntries);
                }
                let ghost items = ports@;
                let mut arr: [u16; MAX_PORTS] = [0u16; MAX_PORTS];
                let mut i: usize = 0;
                while i < ports.len() && ports[i] != 0
                    invariant
                        0 <= i <= items.len() <= MAX_PORTS,
                        items == ports@,
                        arr@.len() == MAX_PORTS,
                        forall|j: int| 0 <= j < i ==> arr@[j] == items[j] && items[j] != 0,
                        forall|j: int| i <= j < MAX_PORTS ==> arr@[j] == 0,
                    decreases items.len() - i,
                {
                    arr[i] = ports[i];
                    i = i + 1;
                }
                if i < ports.len() {
                    assert(items[i as int] == 0u16);
                    assert(items.contains(0u16));
                    Err(EbpfguardError::ReservedValue)
                } else if ports.len() == 0 {
                    Ok(None)
                } else {
                    assert(!items.contains(0u16));
                    Ok(Some(records::Ports::new(arr)))
                }
            },
        }
    }

    /// Reads a table entry back: `All` for the sentinel, else the ports up to
    /// the first zero slot.
    pub fn from_entry(entry: &records::Ports) -> (r: Ports)
        ensures
            entry.spec_all() ==> r is All,
            !entry.spec_all() ==> r is Ports && leading_nonzero(entry.ports@, 0u16, r->Ports_0@),
    {
        if entry.all() {
            return Ports::All;
        }
        let mut out: Vec<u16> = Vec::new();
        let mut i: usize = 0;
        while i < MAX_PORTS && entry.ports[i] != 0
            invariant
                0 <= i <= MAX_PORTS,
                entry.ports@.len() == MAX_PORTS,
                out@ == entry.ports@.take(i as int),
                forall|j: int| 0 <= j < i ==> entry.ports@[j] != 0,
            decreases MAX_PORTS - i,
        {
            out.push(entry.ports[i]);
            i = i + 1;
            assert(out@ =~= entry.ports@.take(i as int));
        }
        Ports::Ports(out)
    }
}

/// What a list of path inodes becomes in a table, as for ports, with inode 0
/// refused as reserved.
pub open spec fn paths_entry_ok(inodes: Seq<u64>, r: Result<Option<records::Paths>, EbpfguardError>) -> bool {
    if inodes.len() > MAX_PATHS {
        r == Err::<Option<records::Paths>, EbpfguardError>(EbpfguardError::TooManyEntries)
    } else if inodes.contains(0u64) {
        r == Err::<Option<records::Paths>, EbpfguardError>(EbpfguardError::ReservedInode)
    } else if inodes.len() == 0 {
        r == Ok::<Option<records::Paths>, EbpfguardError>(None)
    } else {
        r is Ok && r->Ok_0 is Some && filled(r->Ok_0->0.paths@, inodes, 0u64)
    }
}

/// `out` lists the paths that the leading non-zero inodes of `s` resolve to.
pub open spec fn resolved_paths(known: Map<u64, Seq<char>>, s: Seq<u64>, out: Seq<String>) -> bool {
    &&& out.len() <= s.len()
    &&& out.len() == s.len() || s[out.len() as int] == 0
    &&& forall|j: int|
        0 <= j < out.len() ==> s[j] != 0 && subject_of(known, s[j]) == Some((#[trigger] out[j])@)
}

impl Paths {
    /// Encodes as the table entry, given `inodes[i]`, the inode that the
    /// filesystem gives for the `i`-th path.
    pub fn to_entry(&self, inodes: &Vec<u64>) -> (r: Result<Option<records::Paths>, EbpfguardError>)
        requires
            self is Paths ==> inodes@.len() == self->Paths_0@.len(),
        ensures
            self is All ==> r is Ok && r->Ok_0 is Some && forall|i: int|
                0 <= i < MAX_PATHS ==> r->Ok_0->0.paths@[i] == 0,
            self is Paths ==> paths_entry_ok(inodes@, r),
    {
        match self {
            Paths::All => Ok(Some(records::Paths::new_all())),
            Paths::Paths(_) => {
                if inodes.len() > MAX_PATHS {
                    return Err(EbpfguardError::TooManyEntries);
                }
                let ghost items = inodes@;
                let mut arr: [u64; MAX_PATHS] = [0u64; MAX_PATHS];
                let mut i: usize = 0;
                while i < inodes.len() && inodes[i] != 0
                    invariant
                        0 <= i <= items.len() <= MAX_PATHS,
                        items == inodes@,
                        arr@.len() == MAX_PATHS,
                        forall|j: int| 0 <= j < i ==> arr@[j] == items[j] && items[j] != 0,
                        forall|j: int| i <= j < MAX_PATHS ==> arr@[j] == 0,
                    decreases items.len() - i,
                {
                    arr[i] = inodes[i];
                    i = i + 1;
                }
                if i < inodes.len() {
                    assert(items[i as int] == 0u64);
                    assert(items.contains(0u64));
                    Err(EbpfguardError::ReservedInode)
                } else if inodes.len() == 0 {
                    Ok(None)
                } else {
                    assert(!items.contains(0u64));
                    Ok(Some(records::Paths::new(arr)))
                }
            },
        }
    }

    /// Reads a table entry back: `All` for the sentinel, else the paths that
    /// the inodes up to the first zero slot resolve to.
    pub fn from_entry(entry: &records::Paths, resolver: &InodeSubjectMap) -> (r: Paths)
        ensures
            entry.spec_all() ==> r is All,
            !entry.spec_all() ==> r is Paths && resolved_paths(resolver@, entry.paths@, r->Paths_0@),
    {
        if entry.all() {
            return Paths::All;
        }
        let mut out: Vec<String> = Vec::new();
        let mut i: usize = 0;
        while i < MAX_PATHS && entry.paths[i] != 0
            invariant
                0 <= i <= MAX_PATHS,
                entry.paths@.len() == MAX_PATHS,
                out@.len() == i,
                forall|j: int| 0 <= j < i ==> entry.paths@[j] != 0,
                forall|j: int|
                    0 <= j < i ==> subject_of(resolver@, entry.paths@[j]) == Some(
                        (#[trigger] out@[j])@,
                    ),
            decreases MAX_PATHS - i,
        {
            let ghost before = out@;
            let path = resolver.path_of(entry.paths[i]);
            out.push(path);
            assert(forall|j: int| 0 <= j < i ==> out@[j] == before[j]);
            i = i + 1;
        }
        Paths::Paths(out)
    }
}

/// The IPv4 addresses of `s`, in order.
pub open spec fn v4_addrs(s: Seq<IpAddress>) -> Seq<u32>
    decreases s.len(),
{
    if s.len() == 0 {
        Seq::empty()
    } else {
        let r = v4_addrs(s.drop_last());
        match s.last() {
            IpAddress::V4(a) => r.push(a),
            IpAddress::V6(_) => r,
        }
    }
}

/// The IPv6 addresses of `s`, in order.
pub open spec fn v6_addrs(s: Seq<IpAddress>) -> Seq<[u8; 16]>
    decreases s.len(),
{
    if s.len() == 0 {
        Seq::empty()
    } else {
        let r = v6_addrs(s.drop_last());
        match s.last() {
            IpAddress::V4(_) => r,
            IpAddress::V6(a) => r.push(a),
        }
    }
}

/// Some address of the list is reserved: 0 or the all-zero IPv6 address.
pub open spec fn has_reserved_addr(s: Seq<IpAddress>) -> bool {
    v4_addrs(s).contains(0u32) || exists|j: int|
        0 <= j < v6_addrs(s).len() && (#[trigger] v6_addrs(s)[j])@ =~= records::zero_v6()
}

/// What a list of addresses becomes in the two tables of each family.
pub open spec fn addrs_entries_ok(
    items: Seq<IpAddress>,
    r: Result<(Option<records::Ipv4Addrs>, Option<records::Ipv6Addrs>), EbpfguardError>,
) -> bool {
    if v4_addrs(items).len() > MAX_IPV4ADDRS || v6_addrs(items).len() > MAX_IPV6ADDRS {
        r == Err::<(Option<records::Ipv4Addrs>, Option<records::Ipv6Addrs>), EbpfguardError>(
            EbpfguardError::TooManyEntries,
        )
    } else if has_reserved_addr(items) {
        r == Err::<(Option<records::Ipv4Addrs>, Option<records::Ipv6Addrs>), EbpfguardError>(
            EbpfguardError::ReservedValue,
        )
    } else {
        &&& r is Ok
        &&& (r->Ok_0.0 is Some <==> v4_addrs(items).len() > 0)
        &&& (r->Ok_0.0 is Some ==> filled(r->Ok_0.0->0.addrs@, v4_addrs(items), 0u32))
        &&& (r->Ok_0.1 is Some <==> v6_addrs(items).len() > 0)
        &&& (r->Ok_0.1 is Some ==> r->Ok_0.1->0.addrs@ == v6_addrs(items))
    }
}

impl Addresses {
    /// Splits the addresses by family into the entries of the IPv4 and the
    /// IPv6 tables; `All` gives the sentinel in both.
    pub fn into_ebpf(&self) -> (r: Result<
        (Option<records::Ipv4Addrs>, Option<records::Ipv6Addrs>),
        EbpfguardError,
    >)
        ensures
            self is All ==> r is Ok && r->Ok_0.0 is Some && r->Ok_0.1 is Some && (forall|i: int|
                0 <= i < MAX_IPV4ADDRS ==> r->Ok_0.0->0.addrs@[i] == 0) && (forall|i: int|
                0 <= i < MAX_IPV6ADDRS ==> r->Ok_0.1->0.addrs@[i]@ =~= records::zero_v6()),
            self is Addresses ==> addrs_entries_ok(self->Addresses_0@, r),
    {
        match self {
            Addresses::All => Ok(
                (Some(records::Ipv4Addrs::new_all()), Some(records::Ipv6Addrs::new_all())),
            ),
            Addresses::Addresses(addrs) => {
                let ghost s = addrs@;
                let mut v4: Vec<u32> = Vec::new();
                let mut v6: Vec<[u8; 16]> = Vec::new();
                let mut i: usize = 0;
                while i < addrs.len()
                    invariant
                        0 <= i <= s.len(),
                        s == addrs@,
                        v4@ == v4_addrs(s.take(i as int)),
                        v6@ == v6_addrs(s.take(i as int)),
                    decreases s.len() - i,
                {
                    assert(s.take(i + 1).drop_last() =~= s.take(i as int));
                    match addrs[i] {
                        IpAddress::V4(a) => v4.push(a),
                        IpAddress::V6(a) => v6.push(a),
                    }
                    i = i + 1;
                }
                assert(s.take(s.len() as int) =~= s);
                if v4.len() > MAX_IPV4ADDRS || v6.len() > MAX_IPV6ADDRS {
                    return Err(EbpfguardError::TooManyEntries);
                }
                let mut reserved = false;
                if v4.len() == 1 && v4[0] == 0 {
                    reserved = true;
                }
                if v6.len() == 1 && records::is_zero_v6(&v6[0]) {
                    reserved = true;
                }
                if reserved {
                    return Err(EbpfguardError::ReservedValue);
                }
                assert(!v4@.contains(0u32));
                let e4 = if v4.len() == 1 {
                    let e = records::Ipv4Addrs::new([v4[0]]);
                    assert(e.addrs@ =~= v4@);
                    Some(e)
                } else {
                    None
                };
                let e6 = if v6.len() == 1 {
                    let e = records::Ipv6Addrs::new([v6[0]]);
                    assert(e.addrs@ =~= v6@);
                    Some(e)
                } else {
                    None
                };
                Ok((e4, e6))
            },
        }
    }
}

/// `out` lists the first `n4` addresses of `s4`, then the first `n6` of
/// `s6`, where each count runs up to the first zero slot.
pub open spec fn split_at_counts(
    s4: Seq<u32>,
    s6: Seq<[u8; 16]>,
    out: Seq<IpAddress>,
    n4: int,
    n6: int,
) -> bool {
    &&& 0 <= n4 <= s4.len()
    &&& 0 <= n6 <= s6.len()
    &&& (n4 == s4.len() || s4[n4] == 0)
    &&& (n6 == s6.len() || s6[n6]@ =~= records::zero_v6())
    &&& forall|j: int| 0 <= j < n4 ==> s4[j] != 0
    &&& forall|j: int| 0 <= j < n6 ==> !(s6[j]@ =~= records::zero_v6())
    &&& out.len() == n4 + n6
    &&& forall|j: int| 0 <= j < n4 ==> out[j] == IpAddress::V4(s4[j])
    &&& forall|j: int| 0 <= j < n6 ==> out[n4 + j] == IpAddress::V6(s6[j])
}

/// `out` lists the leading non-zero IPv4 addresses of `s4`, then the leading
/// non-zero IPv6 addresses of `s6`.
pub open spec fn joined_addrs(s4: Seq<u32>, s6: Seq<[u8; 16]>, out: Seq<IpAddress>) -> bool {
    exists|n4: int, n6: int| split_at_counts(s4, s6, out, n4, n6)
}

impl Addresses {
    /// Reads the entries of the IPv4 and IPv6 tables back: `All` when both
    /// hold the sentinel, else their leading addresses, IPv4 first; a
    /// missing entry contributes none.
    pub fn from_entries(v4: &Option<records::Ipv4Addrs>, v6: &Option<records::Ipv6Addrs>) -> (r:
        Addresses)
        ensures
            (v4 is Some && records::IpAddrs::<u32>::spec_all(&v4->0) && v6 is Some
                && records::IpAddrs::<[u8; 16]>::spec_all(&v6->0)) ==> r is All,
            !(v4 is Some && records::IpAddrs::<u32>::spec_all(&v4->0) && v6 is Some
                && records::IpAddrs::<[u8; 16]>::spec_all(&v6->0)) ==> r is Addresses
                && joined_addrs(
                match v4 {
                    Some(e) => e.addrs@,
                    None => Seq::empty(),
                },
                match v6 {
                    Some(e) => e.addrs@,
                    None => Seq::empty(),
                },
                r->Addresses_0@,
            ),
    {
        if let (Some(e4), Some(e6)) = (v4, v6) {
            if records::IpAddrs::<u32>::all(e4) && records::IpAddrs::<[u8; 16]>::all(e6) {
                return Addresses::All;
            }
        }
        let ghost s4: Seq<u32> = match v4 {
            Some(e) => e.addrs@,
            None => Seq::empty(),
        };
        let ghost s6: Seq<[u8; 16]> = match v6 {
            Some(e) => e.addrs@,
            None => Seq::empty(),
        };
        let mut out: Vec<IpAddress> = Vec::new();
        let mut n4: usize = 0;
        if let Some(e4) = v4 {
            while n4 < MAX_IPV4ADDRS && e4.addrs[n4] != 0
                invariant
                    0 <= n4 <= MAX_IPV4ADDRS,
                    s4 == e4.addrs@,
                    s4.len() == MAX_IPV4ADDRS,
                    out@.len() == n4,
                    forall|j: int| 0 <= j < n4 ==> s4[j] != 0,
                    forall|j: int| 0 <= j < n4 ==> out@[j] == IpAddress::V4(s4[j]),
                decreases MAX_IPV4ADDRS - n4,
            {
                out.push(IpAddress::V4(e4.addrs[n4]));
                n4 = n4 + 1;
            }
        }
        let mut n6: usize = 0;
        if let Some(e6) = v6 {
            while n6 < MAX_IPV6ADDRS && !records::is_zero_v6(&e6.addrs[n6])
                invariant
                    0 <= n6 <= MAX_IPV6ADDRS,
                    s6 == e6.addrs@,
                    s6.len() == MAX_IPV6ADDRS,
                    n4 <= s4.len(),
                    out@.len() == n4 + n6,
                    forall|j: int| 0 <= j < n4 ==> out@[j] == IpAddress::V4(s4[j]),
                    forall|j: int| 0 <= j < n6 ==> !(s6[j]@ =~= records::zero_v6()),
                    forall|j: int| 0 <= j < n6 ==> out@[n4 + j] == IpAddress::V6(s6[j]),
                decreases MAX_IPV6ADDRS - n6,
            {
                out.push(IpAddress::V6(e6.addrs[n6]));
                n6 = n6 + 1;
            }
        }
        assert(split_at_counts(s4, s6, out@, n4 as int, n6 as int));
        Addresses::Addresses(out)
    }
}

} // verus!
