//! Installing high-level policies as table writes, and listing the tables
//! back as high-level policies.
//!
//! Installing writes the ALLOWED and the DENIED entry of one subject
//! together. An empty list is written as no entry, and a missing entry is
//! read back as an empty list.
use vstd::prelude::*;
use crate::engine::INODE_WILDCARD;
use crate::error::EbpfguardError;
use crate::inode::{InodeSubjectMap, subject_of, subject_view};
use crate::policy::{
    Addresses, FileOpen, Paths, PolicySubject, Ports, SbMount, SbRemount, SbUmount, SocketBind,
    SocketConnect, TaskFixSetuid,
    addrs_entries_ok, filled, has_reserved_addr, joined_addrs, leading_nonzero, resolved_paths,
    v4_addrs, v6_addrs,
};
use crate::records::{self, IpAddrs, MAX_IPV4ADDRS, MAX_IPV6ADDRS, MAX_PATHS, MAX_PORTS};
use crate::engine::entry;
use crate::tables::{
    distinct, find, keys, lemma_keys_distinct, paired, pair_entries, table_view, union_keys,
    unique_keys,
};

verus! {

/// A write to one table entry.
#[derive(Clone, Copy)]
pub enum MapUpdate<V> {
    Put(V),
    Delete,
}

/// The writes that installing a policy makes to the entries of one subject.
#[derive(Clone, Copy)]
pub struct Update<V> {
    pub key: u64,
    pub allowed: MapUpdate<V>,
    pub denied: MapUpdate<V>,
}

/// A table after a write to its entry `key`.
pub open spec fn apply_entry<V>(m: Map<u64, V>, key: u64, u: MapUpdate<V>) -> Map<u64, V> {
    match u {
        MapUpdate::Put(v) => m.insert(key, v),
        MapUpdate::Delete => m.remove(key),
    }
}

/// A write that leaves the entry `e`, or no entry.
pub open spec fn put_or_delete<V>(e: Option<V>) -> MapUpdate<V> {
    match e {
        Some(v) => MapUpdate::Put(v),
        None => MapUpdate::Delete,
    }
}

fn to_map_update<V>(e: Option<V>) -> (r: MapUpdate<V>)
    ensures
        r == put_or_delete(e),
{
    match e {
        Some(v) => MapUpdate::Put(v),
        None => MapUpdate::Delete,
    }
}

/// The table key of a subject whose binary has inode `inode`; none for a
/// binary at inode 0, which is reserved.
pub open spec fn subject_key(s: PolicySubject, inode: u64) -> Option<u64> {
    match s {
        PolicySubject::All => Some(INODE_WILDCARD),
        PolicySubject::Binary(_) => if inode == 0 {
            None
        } else {
            Some(inode)
        },
    }
}

/// The resolver's paths after `s` was resolved to `inode`.
pub open spec fn remember(m: Map<u64, Seq<char>>, s: PolicySubject, inode: u64) -> Map<u64, Seq<char>> {
    match s {
        PolicySubject::All => m,
        PolicySubject::Binary(p) => m.insert(inode, p@),
    }
}

/// The error that encoding a port set gives, if any.
pub open spec fn ports_error(p: Ports) -> Option<EbpfguardError> {
    match p {
        Ports::All => None,
        Ports::Ports(v) => if v@.len() > MAX_PORTS {
            Some(EbpfguardError::TooManyEntries)
        } else if v@.contains(0u16) {
            Some(EbpfguardError::ReservedValue)
        } else {
            None
        },
    }
}

/// The write that installs the port set `p`.
pub open spec fn ports_written(p: Ports, u: MapUpdate<records::Ports>) -> bool {
    match p {
        Ports::All => u is Put && forall|i: int| 0 <= i < MAX_PORTS ==> u->Put_0.ports@[i] == 0,
        Ports::Ports(v) => if v@.len() == 0 {
            u is Delete
        } else {
            u is Put && filled(u->Put_0.ports@, v@, 0u16)
        },
    }
}

/// The error that encoding a path set with inodes `inodes` gives, if any.
pub open spec fn paths_error(p: Paths, inodes: Seq<u64>) -> Option<EbpfguardError> {
    match p {
        Paths::All => None,
        Paths::Paths(_) => if inodes.len() > MAX_PATHS {
            Some(EbpfguardError::TooManyEntries)
        } else if inodes.contains(0u64) {
            Some(EbpfguardError::ReservedInode)
        } else {
            None
        },
    }
}

/// The write that installs the path set `p`, whose paths have inodes `inodes`.
pub open spec fn paths_written(p: Paths, inodes: Seq<u64>, u: MapUpdate<records::Paths>) -> bool {
    match p {
        Paths::All => u is Put && forall|i: int| 0 <= i < MAX_PATHS ==> u->Put_0.paths@[i] == 0,
        Paths::Paths(_) => if inodes.len() == 0 {
            u is Delete
        } else {
            u is Put && filled(u->Put_0.paths@, inodes, 0u64)
        },
    }
}

/// The error that encoding an address set gives, if any.
pub open spec fn addrs_error(p: Addresses) -> Option<EbpfguardError> {
    match p {
        Addresses::All => None,
        Addresses::Addresses(v) => if v4_addrs(v@).len() > MAX_IPV4ADDRS || v6_addrs(v@).len()
            > MAX_IPV6ADDRS {
            Some(EbpfguardError::TooManyEntries)
        } else if has_reserved_addr(v@) {
            Some(EbpfguardError::ReservedValue)
        } else {
            None
        },
    }
}

/// The writes that install the address set `p` in the IPv4 and IPv6 tables.
pub open spec fn addrs_written(
    p: Addresses,
    u4: MapUpdate<records::Ipv4Addrs>,
    u6: MapUpdate<records::Ipv6Addrs>,
) -> bool {
    match p {
        Addresses::All => u4 is Put && u6 is Put && (forall|i: int|
            0 <= i < MAX_IPV4ADDRS ==> u4->Put_0.addrs@[i] == 0) && (forall|i: int|
            0 <= i < MAX_IPV6ADDRS ==> u6->Put_0.addrs@[i]@ =~= records::zero_v6()),
        Addresses::Addresses(v) => {
            &&& (u4 is Put <==> v4_addrs(v@).len() > 0)
            &&& (u4 is Put ==> filled(u4->Put_0.addrs@, v4_addrs(v@), 0u32))
            &&& (u6 is Put <==> v6_addrs(v@).len() > 0)
            &&& (u6 is Put ==> u6->Put_0.addrs@ == v6_addrs(v@))
        },
    }
}

/// Resolves the subject and assembles the writes, once both sets are encoded.
fn install<V>(
    resolver: &mut InodeSubjectMap,
    subject: &PolicySubject,
    inode: u64,
    allow: Option<V>,
    deny: Option<V>,
) -> (r: Result<Update<V>, EbpfguardError>)
    ensures
        subject_key(*subject, inode) is None ==> r == Err::<Update<V>, EbpfguardError>(
            EbpfguardError::ReservedInode,
        ) && final(resolver)@ == old(resolver)@,
        subject_key(*subject, inode) is Some ==> r == Ok::<Update<V>, EbpfguardError>(
            Update {
                key: subject_key(*subject, inode)->0,
                allowed: put_or_delete(allow),
                denied: put_or_delete(deny),
            },
        ) && final(resolver)@ == remember(old(resolver)@, *subject, inode),
{
    match resolver.resolve_path(subject, inode) {
        Ok(key) => Ok(Update { key, allowed: to_map_update(allow), denied: to_map_update(deny) }),
        Err(e) => Err(e),
    }
}

/// What installing a socket-bind policy returns and does to the resolver:
/// errors in the allowed set first, then in the denied set, then in the
/// subject; else the writes of both sets under the subject's key.
pub open spec fn bind_installed(
    p: SocketBind,
    inode: u64,
    before: Map<u64, Seq<char>>,
    r: Result<Update<records::Ports>, EbpfguardError>,
    after: Map<u64, Seq<char>>,
) -> bool {
    if ports_error(p.allow) is Some {
        r == Err::<Update<records::Ports>, EbpfguardError>(ports_error(p.allow)->0) && after
            == before
    } else if ports_error(p.deny) is Some {
        r == Err::<Update<records::Ports>, EbpfguardError>(ports_error(p.deny)->0) && after
            == before
    } else if subject_key(p.subject, inode) is None {
        r == Err::<Update<records::Ports>, EbpfguardError>(EbpfguardError::ReservedInode)
            && after == before
    } else {
        &&& r is Ok
        &&& r->Ok_0.key == subject_key(p.subject, inode)->0
        &&& ports_written(p.allow, r->Ok_0.allowed)
        &&& ports_written(p.deny, r->Ok_0.denied)
        &&& after == remember(before, p.subject, inode)
    }
}

impl SocketBind {
    /// The writes that install this policy, whose binary has inode `inode`
    /// (ignored for every executable).
    pub fn to_update(&self, resolver: &mut InodeSubjectMap, inode: u64) -> (r: Result<
        Update<records::Ports>,
        EbpfguardError,
    >)
        ensures
            bind_installed(*self, inode, old(resolver)@, r, final(resolver)@),
    {
        let allow = match self.allow.to_entry() {
            Ok(e) => e,
            Err(e) => return Err(e),
        };
        let deny = match self.deny.to_entry() {
            Ok(e) => e,
            Err(e) => return Err(e),
        };
        install(resolver, &self.subject, inode, allow, deny)
    }
}

/// What installing a file-open policy returns and does to the resolver, given
/// the inodes of the listed paths.
pub open spec fn file_open_installed(
    p: FileOpen,
    inode: u64,
    allow_inodes: Seq<u64>,
    deny_inodes: Seq<u64>,
    before: Map<u64, Seq<char>>,
    r: Result<Update<records::Paths>, EbpfguardError>,
    after: Map<u64, Seq<char>>,
) -> bool {
    if paths_error(p.allow, allow_inodes) is Some {
        r == Err::<Update<records::Paths>, EbpfguardError>(
            paths_error(p.allow, allow_inodes)->0,
        ) && after == before
    } else if paths_error(p.deny, deny_inodes) is Some {
        r == Err::<Update<records::Paths>, EbpfguardError>(paths_error(p.deny, deny_inodes)->0)
            && after == before
    } else if subject_key(p.subject, inode) is None {
        r == Err::<Update<records::Paths>, EbpfguardError>(EbpfguardError::ReservedInode)
            && after == before
    } else {
        &&& r is Ok
        &&& r->Ok_0.key == subject_key(p.subject, inode)->0
        &&& paths_written(p.allow, allow_inodes, r->Ok_0.allowed)
        &&& paths_written(p.deny, deny_inodes, r->Ok_0.denied)
        &&& after == remember(before, p.subject, inode)
    }
}

impl FileOpen {
    /// The writes that install this policy, given the inode of its binary and
    /// the inodes of the paths in each list, in order.
    pub fn to_update(
        &self,
        resolver: &mut InodeSubjectMap,
        inode: u64,
        allow_inodes: &Vec<u64>,
        deny_inodes: &Vec<u64>,
    ) -> (r: Result<Update<records::Paths>, EbpfguardError>)
        requires
            self.allow is Paths ==> allow_inodes@.len() == self.allow->Paths_0@.len(),
            self.deny is Paths ==> deny_inodes@.len() == self.deny->Paths_0@.len(),
        ensures
            file_open_installed(
                *self,
                inode,
                allow_inodes@,
                deny_inodes@,
                old(resolver)@,
                r,
                final(resolver)@,
            ),
    {
        let allow = match self.allow.to_entry(allow_inodes) {
            Ok(e) => e,
            Err(e) => return Err(e),
        };
        let deny = match self.deny.to_entry(deny_inodes) {
            Ok(e) => e,
            Err(e) => return Err(e),
        };
        install(resolver, &self.subject, inode, allow, deny)
    }
}

/// What installing a socket-connect policy returns and does to the resolver.
pub open spec fn connect_installed(
    p: SocketConnect,
    inode: u64,
    before: Map<u64, Seq<char>>,
    r: Result<(Update<records::Ipv4Addrs>, Update<records::Ipv6Addrs>), EbpfguardError>,
    after: Map<u64, Seq<char>>,
) -> bool {
    if addrs_error(p.allow) is Some {
        r == Err::<(Update<records::Ipv4Addrs>, Update<records::Ipv6Addrs>), EbpfguardError>(
            addrs_error(p.allow)->0,
        ) && after == before
    } else if addrs_error(p.deny) is Some {
        r == Err::<(Update<records::Ipv4Addrs>, Update<records::Ipv6Addrs>), EbpfguardError>(
            addrs_error(p.deny)->0,
        ) && after == before
    } else if subject_key(p.subject, inode) is None {
        r == Err::<(Update<records::Ipv4Addrs>, Update<records::Ipv6Addrs>), EbpfguardError>(
            EbpfguardError::ReservedInode,
        ) && after == before
    } else {
        &&& r is Ok
        &&& r->Ok_0.0.key == subject_key(p.subject, inode)->0
        &&& r->Ok_0.1.key == subject_key(p.subject, inode)->0
        &&& addrs_written(p.allow, r->Ok_0.0.allowed, r->Ok_0.1.allowed)
        &&& addrs_written(p.deny, r->Ok_0.0.denied, r->Ok_0.1.denied)
        &&& after == remember(before, p.subject, inode)
    }
}

impl SocketConnect {
    /// The writes that install this policy in the IPv4 and the IPv6 tables.
    pub fn to_update(&self, resolver: &mut InodeSubjectMap, inode: u64) -> (r: Result<
        (Update<records::Ipv4Addrs>, Update<records::Ipv6Addrs>),
        EbpfguardError,
    >)
        ensures
            connect_installed(*self, inode, old(resolver)@, r, final(resolver)@),
    {
        let (allow4, allow6) = match self.allow.into_ebpf() {
            Ok(e) => e,
            Err(e) => return Err(e),
        };
        let (deny4, deny6) = match self.deny.into_ebpf() {
            Ok(e) => e,
            Err(e) => return Err(e),
        };
        match resolver.resolve_path(&self.subject, inode) {
            Ok(key) => Ok(
                (
                    Update {
                        key,
                        allowed: to_map_update(allow4),
                        denied: to_map_update(deny4),
                    },
                    Update {
                        key,
                        allowed: to_map_update(allow6),
                        denied: to_map_update(deny6),
                    },
                ),
            ),
            Err(e) => Err(e),
        }
    }
}

/// The writes of a boolean policy: `allow` puts the subject in ALLOWED and
/// takes it out of DENIED; else the reverse.
pub open spec fn flag_written(allow: bool, u: Update<u8>) -> bool {
    if allow {
        u.allowed == MapUpdate::Put(0u8) && u.denied == MapUpdate::<u8>::Delete
    } else {
        u.allowed == MapUpdate::<u8>::Delete && u.denied == MapUpdate::Put(0u8)
    }
}

/// The writes that install a boolean policy (mount, remount, unmount,
/// setuid) for `subject`, whose binary has inode `inode`.
pub fn flag_update(resolver: &mut InodeSubjectMap, subject: &PolicySubject, allow: bool, inode: u64) -> (r:
    Result<Update<u8>, EbpfguardError>)
    ensures
        subject_key(*subject, inode) is None ==> r == Err::<Update<u8>, EbpfguardError>(
            EbpfguardError::ReservedInode,
        ) && final(resolver)@ == old(resolver)@,
        subject_key(*subject, inode) is Some ==> r is Ok && r->Ok_0.key == subject_key(
            *subject,
            inode,
        )->0 && flag_written(allow, r->Ok_0) && final(resolver)@ == remember(
            old(resolver)@,
            *subject,
            inode,
        ),
{
    if allow {
        install(resolver, subject, inode, Some(0u8), None)
    } else {
        install(resolver, subject, inode, None, Some(0u8))
    }
}

impl SbMount {
    /// The writes that install this policy, whose binary has inode `inode`.
    pub fn to_update(&self, resolver: &mut InodeSubjectMap, inode: u64) -> (r: Result<
        Update<u8>,
        EbpfguardError,
    >)
        ensures
            subject_key(self.subject, inode) is None ==> r == Err::<Update<u8>, EbpfguardError>(
                EbpfguardError::ReservedInode,
            ) && final(resolver)@ == old(resolver)@,
            subject_key(self.subject, inode) is Some ==> r is Ok && r->Ok_0.key == subject_key(
                self.subject,
                inode,
            )->0 && flag_written(self.allow, r->Ok_0) && final(resolver)@ == remember(
                old(resolver)@,
                self.subject,
                inode,
            ),
    {
        flag_update(resolver, &self.subject, self.allow, inode)
    }
}

impl SbRemount {
    /// The writes that install this policy, whose binary has inode `inode`.
    pub fn to_update(&self, resolver: &mut InodeSubjectMap, inode: u64) -> (r: Result<
        Update<u8>,
        EbpfguardError,
    >)
        ensures
            subject_key(self.subject, inode) is None ==> r == Err::<Update<u8>, EbpfguardError>(
                EbpfguardError::ReservedInode,
            ) && final(resolver)@ == old(resolver)@,
            subject_key(self.subject, inode) is Some ==> r is Ok && r->Ok_0.key == subject_key(
                self.subject,
                inode,
            )->0 && flag_written(self.allow, r->Ok_0) && final(resolver)@ == remember(
                old(resolver)@,
                self.subject,
                inode,
            ),
    {
        flag_update(resolver, &self.subject, self.allow, inode)
    }
}

impl SbUmount {
    /// The writes that install this policy, whose binary has inode `inode`.
    pub fn to_update(&self, resolver: &mut InodeSubjectMap, inode: u64) -> (r: Result<
        Update<u8>,
        EbpfguardError,
    >)
        ensures
            subject_key(self.subject, inode) is None ==> r == Err::<Update<u8>, EbpfguardError>(
                EbpfguardError::ReservedInode,
            ) && final(resolver)@ == old(resolver)@,
            subject_key(self.subject, inode) is Some ==> r is Ok && r->Ok_0.key == subject_key(
                self.subject,
                inode,
            )->0 && flag_written(self.allow, r->Ok_0) && final(resolver)@ == remember(
                old(resolver)@,
                self.subject,
                inode,
            ),
    {
        flag_update(resolver, &self.subject, self.allow, inode)
    }
}

impl TaskFixSetuid {
    /// The writes that install this policy, whose binary has inode `inode`.
    pub fn to_update(&self, resolver: &mut InodeSubjectMap, inode: u64) -> (r: Result<
        Update<u8>,
        EbpfguardError,
    >)
        ensures
            subject_key(self.subject, inode) is None ==> r == Err::<Update<u8>, EbpfguardError>(
                EbpfguardError::ReservedInode,
            ) && final(resolver)@ == old(resolver)@,
            subject_key(self.subject, inode) is Some ==> r is Ok && r->Ok_0.key == subject_key(
                self.subject,
                inode,
            )->0 && flag_written(self.allow, r->Ok_0) && final(resolver)@ == remember(
                old(resolver)@,
                self.subject,
                inode,
            ),
    {
        flag_update(resolver, &self.subject, self.allow, inode)
    }
}

/// `p` is what the port-set entry `e` reads back as.
pub open spec fn ports_read(e: Option<records::Ports>, p: Ports) -> bool {
    match e {
        None => p is Ports && p->Ports_0@.len() == 0,
        Some(v) => if v.spec_all() {
            p is All
        } else {
            p is Ports && leading_nonzero(v.ports@, 0u16, p->Ports_0@)
        },
    }
}

fn read_ports(e: &Option<records::Ports>) -> (r: Ports)
    ensures
        ports_read(*e, r),
{
    match e {
        Some(v) => Ports::from_entry(v),
        None => Ports::Ports(Vec::new()),
    }
}

/// `p` is what the path-set entry `e` reads back as, with the resolver's
/// paths `known`.
pub open spec fn paths_read(known: Map<u64, Seq<char>>, e: Option<records::Paths>, p: Paths) -> bool {
    match e {
        None => p is Paths && p->Paths_0@.len() == 0,
        Some(v) => if v.spec_all() {
            p is All
        } else {
            p is Paths && resolved_paths(known, v.paths@, p->Paths_0@)
        },
    }
}

fn read_paths(e: &Option<records::Paths>, resolver: &InodeSubjectMap) -> (r: Paths)
    ensures
        paths_read(resolver@, *e, r),
{
    match e {
        Some(v) => Paths::from_entry(v, resolver),
        None => Paths::Paths(Vec::new()),
    }
}

/// `p` is what the IPv4 entry `e4` and the IPv6 entry `e6` read back as.
pub open spec fn addrs_read(e4: Option<records::Ipv4Addrs>, e6: Option<records::Ipv6Addrs>, p: Addresses) -> bool {
    if e4 is Some && IpAddrs::<u32>::spec_all(&e4->0) && e6 is Some && IpAddrs::<[u8; 16]>::spec_all(
        &e6->0,
    ) {
        p is All
    } else {
        p is Addresses && joined_addrs(
            match e4 {
                Some(e) => e.addrs@,
                None => Seq::empty(),
            },
            match e6 {
                Some(e) => e.addrs@,
                None => Seq::empty(),
            },
            p->Addresses_0@,
        )
    }
}

/// `r` lists one socket-bind policy for each pair of `pairs`: its subject
/// resolved, its sets read back.
pub open spec fn bind_listed(
    a: Map<u64, records::Ports>,
    d: Map<u64, records::Ports>,
    known: Map<u64, Seq<char>>,
    pairs: Seq<(u64, Option<records::Ports>, Option<records::Ports>)>,
    r: Seq<SocketBind>,
) -> bool {
    &&& paired(a, d, pairs)
    &&& r.len() == pairs.len()
    &&& forall|i: int|
        0 <= i < r.len() ==> subject_view(#[trigger] r[i].subject) == subject_of(known, pairs[i].0)
            && ports_read(pairs[i].1, r[i].allow) && ports_read(pairs[i].2, r[i].deny)
}

/// Lists the socket-bind policies of the tables whose entries are `allowed`
/// and `denied`: one per subject of either table.
pub fn list_socket_bind(
    allowed: &Vec<(u64, records::Ports)>,
    denied: &Vec<(u64, records::Ports)>,
    resolver: &InodeSubjectMap,
) -> (r: Vec<SocketBind>)
    requires
        unique_keys(allowed@),
        unique_keys(denied@),
    ensures
        exists|pairs: Seq<(u64, Option<records::Ports>, Option<records::Ports>)>|
            bind_listed(table_view(allowed@), table_view(denied@), resolver@, pairs, r@),
{
    let pairs = pair_entries(allowed, denied);
    let mut r: Vec<SocketBind> = Vec::new();
    let mut i: usize = 0;
    while i < pairs.len()
        invariant
            0 <= i <= pairs@.len(),
            r@.len() == i,
            forall|j: int|
                0 <= j < i ==> subject_view(#[trigger] r@[j].subject) == subject_of(
                    resolver@,
                    pairs@[j].0,
                ) && ports_read(pairs@[j].1, r@[j].allow) && ports_read(pairs@[j].2, r@[j].deny),
        decreases pairs@.len() - i,
    {
        let (key, allow, deny) = &pairs[i];
        let p = SocketBind {
            subject: resolver.resolve_inode(*key),
            allow: read_ports(allow),
            deny: read_ports(deny),
        };
        r.push(p);
        i = i + 1;
    }
    assert(bind_listed(table_view(allowed@), table_view(denied@), resolver@, pairs@, r@));
    r
}

/// `r` lists one file-open policy for each pair of `pairs`.
pub open spec fn file_open_listed(
    a: Map<u64, records::Paths>,
    d: Map<u64, records::Paths>,
    known: Map<u64, Seq<char>>,
    pairs: Seq<(u64, Option<records::Paths>, Option<records::Paths>)>,
    r: Seq<FileOpen>,
) -> bool {
    &&& paired(a, d, pairs)
    &&& r.len() == pairs.len()
    &&& forall|i: int|
        0 <= i < r.len() ==> subject_view(#[trigger] r[i].subject) == subject_of(known, pairs[i].0)
            && paths_read(known, pairs[i].1, r[i].allow) && paths_read(known, pairs[i].2, r[i].deny)
}

/// Lists the file-open policies of the tables whose entries are `allowed`
/// and `denied`: one per subject of either table.
pub fn list_file_open(
    allowed: &Vec<(u64, records::Paths)>,
    denied: &Vec<(u64, records::Paths)>,
    resolver: &InodeSubjectMap,
) -> (r: Vec<FileOpen>)
    requires
        unique_keys(allowed@),
        unique_keys(denied@),
    ensures
        exists|pairs: Seq<(u64, Option<records::Paths>, Option<records::Paths>)>|
            file_open_listed(table_view(allowed@), table_view(denied@), resolver@, pairs, r@),
{
    let pairs = pair_entries(allowed, denied);
    let mut r: Vec<FileOpen> = Vec::new();
    let mut i: usize = 0;
    while i < pairs.len()
        invariant
            0 <= i <= pairs@.len(),
            r@.len() == i,
            forall|j: int|
                0 <= j < i ==> subject_view(#[trigger] r@[j].subject) == subject_of(
                    resolver@,
                    pairs@[j].0,
                ) && paths_read(resolver@, pairs@[j].1, r@[j].allow) && paths_read(
                    resolver@,
                    pairs@[j].2,
                    r@[j].deny,
                ),
        decreases pairs@.len() - i,
    {
        let (key, allow, deny) = &pairs[i];
        let p = FileOpen {
            subject: resolver.resolve_inode(*key),
            allow: read_paths(allow, resolver),
            deny: read_paths(deny, resolver),
        };
        r.push(p);
        i = i + 1;
    }
    assert(file_open_listed(table_view(allowed@), table_view(denied@), resolver@, pairs@, r@));
    r
}

/// A key of any of the four tables of socket connect.
pub open spec fn in_connect_tables(
    a4: Map<u64, records::Ipv4Addrs>,
    d4: Map<u64, records::Ipv4Addrs>,
    a6: Map<u64, records::Ipv6Addrs>,
    d6: Map<u64, records::Ipv6Addrs>,
    k: u64,
) -> bool {
    a4.dom().contains(k) || d4.dom().contains(k) || a6.dom().contains(k) || d6.dom().contains(k)
}

/// `r` lists one socket-connect policy for each key of `ks`, and `ks` holds,
/// once each, the keys of the four tables.
pub open spec fn connect_listed(
    a4: Map<u64, records::Ipv4Addrs>,
    d4: Map<u64, records::Ipv4Addrs>,
    a6: Map<u64, records::Ipv6Addrs>,
    d6: Map<u64, records::Ipv6Addrs>,
    known: Map<u64, Seq<char>>,
    ks: Seq<u64>,
    r: Seq<SocketConnect>,
) -> bool {
    &&& distinct(ks)
    &&& forall|k: u64| ks.contains(k) <==> in_connect_tables(a4, d4, a6, d6, k)
    &&& r.len() == ks.len()
    &&& forall|i: int|
        0 <= i < r.len() ==> subject_view(#[trigger] r[i].subject) == subject_of(known, ks[i])
            && addrs_read(entry(a4, ks[i]), entry(a6, ks[i]), r[i].allow) && addrs_read(
            entry(d4, ks[i]),
            entry(d6, ks[i]),
            r[i].deny,
        )
}

/// Lists the socket-connect policies of the IPv4 and IPv6 tables: one per
/// subject of any of them, with both families' addresses joined.
pub fn list_socket_connect(
    allowed_v4: &Vec<(u64, records::Ipv4Addrs)>,
    denied_v4: &Vec<(u64, records::Ipv4Addrs)>,
    allowed_v6: &Vec<(u64, records::Ipv6Addrs)>,
    denied_v6: &Vec<(u64, records::Ipv6Addrs)>,
    resolver: &InodeSubjectMap,
) -> (r: Vec<SocketConnect>)
    requires
        unique_keys(allowed_v4@),
        unique_keys(denied_v4@),
        unique_keys(allowed_v6@),
        unique_keys(denied_v6@),
    ensures
        exists|ks: Seq<u64>|
            connect_listed(
                table_view(allowed_v4@),
                table_view(denied_v4@),
                table_view(allowed_v6@),
                table_view(denied_v6@),
                resolver@,
                ks,
                r@,
            ),
{
    let ka4 = keys(allowed_v4);
    let kd4 = keys(denied_v4);
    let ka6 = keys(allowed_v6);
    let kd6 = keys(denied_v6);
    proof {
        lemma_keys_distinct(allowed_v4@, ka4@);
        lemma_keys_distinct(denied_v4@, kd4@);
        lemma_keys_distinct(allowed_v6@, ka6@);
        lemma_keys_distinct(denied_v6@, kd6@);
    }
    let k4 = union_keys(&ka4, &kd4);
    let k6 = union_keys(&ka6, &kd6);
    let ks = union_keys(&k4, &k6);
    let ghost a4 = table_view(allowed_v4@);
    let ghost d4 = table_view(denied_v4@);
    let ghost a6 = table_view(allowed_v6@);
    let ghost d6 = table_view(denied_v6@);
    let mut r: Vec<SocketConnect> = Vec::new();
    let mut i: usize = 0;
    while i < ks.len()
        invariant
            0 <= i <= ks@.len(),
            unique_keys(allowed_v4@),
            unique_keys(denied_v4@),
            unique_keys(allowed_v6@),
            unique_keys(denied_v6@),
            a4 == table_view(allowed_v4@),
            d4 == table_view(denied_v4@),
            a6 == table_view(allowed_v6@),
            d6 == table_view(denied_v6@),
            r@.len() == i,
            forall|j: int|
                0 <= j < i ==> subject_view(#[trigger] r@[j].subject) == subject_of(
                    resolver@,
                    ks@[j],
                ) && addrs_read(entry(a4, ks@[j]), entry(a6, ks@[j]), r@[j].allow) && addrs_read(
                    entry(d4, ks@[j]),
                    entry(d6, ks@[j]),
                    r@[j].deny,
                ),
        decreases ks@.len() - i,
    {
        let key = ks[i];
        let p = SocketConnect {
            subject: resolver.resolve_inode(key),
            allow: Addresses::from_entries(&find(allowed_v4, key), &find(allowed_v6, key)),
            deny: Addresses::from_entries(&find(denied_v4, key), &find(denied_v6, key)),
        };
        r.push(p);
        i = i + 1;
    }
    assert(connect_listed(a4, d4, a6, d6, resolver@, ks@, r@));
    r
}

/// Lists the boolean policies of a pair of tables (mount, remount, unmount or
/// setuid): each subject of ALLOWED as allowed, then each subject of DENIED
/// as denied.
pub fn list_flags(
    allowed: &Vec<(u64, u8)>,
    denied: &Vec<(u64, u8)>,
    resolver: &InodeSubjectMap,
) -> (r: Vec<(PolicySubject, bool)>)
    ensures
        r@.len() == allowed@.len() + denied@.len(),
        forall|i: int|
            0 <= i < allowed@.len() ==> subject_view(#[trigger] r@[i].0) == subject_of(
                resolver@,
                allowed@[i].0,
            ) && r@[i].1,
        forall|i: int|
            0 <= i < denied@.len() ==> subject_view(#[trigger] r@[allowed@.len() + i].0)
                == subject_of(resolver@, denied@[i].0) && !r@[allowed@.len() + i].1,
{
    let mut r: Vec<(PolicySubject, bool)> = Vec::new();
    let mut i: usize = 0;
    while i < allowed.len()
        invariant
            0 <= i <= allowed@.len(),
            r@.len() == i,
            forall|j: int|
                0 <= j < i ==> subject_view(#[trigger] r@[j].0) == subject_of(
                    resolver@,
                    allowed@[j].0,
                ) && r@[j].1,
        decreases allowed@.len() - i,
    {
        r.push((resolver.resolve_inode(allowed[i].0), true));
        i = i + 1;
    }
    let n: usize = allowed.len();
    let mut i: usize = 0;
    while i < denied.len()
        invariant
            0 <= i <= denied@.len(),
            n == allowed@.len(),
            r@.len() == n + i,
            forall|j: int|
                0 <= j < n ==> subject_view(#[trigger] r@[j].0) == subject_of(
                    resolver@,
                    allowed@[j].0,
                ) && r@[j].1,
            forall|j: int|
                0 <= j < i ==> subject_view(#[trigger] r@[n + j].0) == subject_of(
                    resolver@,
                    denied@[j].0,
                ) && !r@[n + j].1,
        decreases denied@.len() - i,
    {
        r.push((resolver.resolve_inode(denied[i].0), false));
        i = i + 1;
    }
    r
}

} // verus!
