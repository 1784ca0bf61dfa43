//! What holds of the decision engine and of installing and listing policies,
//! for every hook kind and every input.
use vstd::prelude::*;
use crate::controller::{
    MapUpdate, Update, addrs_error, addrs_read, addrs_written, apply_entry, bind_installed,
    connect_installed, file_open_installed, flag_written, paths_error, paths_read, paths_written,
    ports_error, ports_read, ports_written, remember, subject_key,
};
use crate::engine::{
    Action, FileTarget, INODE_WILDCARD, Lookup, MAX_DIR_DEPTH, PolicySet, decide, entry, lookup_of,
    paths_match, walk_reaches,
};
use crate::hooks::{SocketAddress, bind_action, connect_action};
use crate::inode::{subject_of, subject_view};
use crate::policy::{
    Addresses, IpAddress, Paths, Ports, SocketBind, filled, joined_addrs, leading_nonzero,
    resolved_paths, split_at_counts, v4_addrs, v6_addrs,
};
use crate::records::{self, HONORED_SLOTS, Ipv4Addrs, Ipv6Addrs, listed};

verus! {

/// The entry that a write leaves.
pub open spec fn written_entry<V>(u: MapUpdate<V>) -> Option<V> {
    match u {
        MapUpdate::Put(v) => Some(v),
        MapUpdate::Delete => None,
    }
}

/// With no policy installed, every hook allows every executable's every
/// operation (and so emits no alert).
pub proof fn lemma_no_policy_allows<A, V: PolicySet<A>>(image: u64, arg: A)
    ensures
        decide(lookup_of(Map::<u64, V>::empty(), Map::<u64, V>::empty(), image), arg)
            == Action::Allow,
{
}

/// Writing "all" both as the wildcard's ALLOWED and as its DENIED entry is a
/// contradiction, which denies every operation of every executable, whatever
/// else the tables hold.
pub proof fn lemma_contradiction_denies<A, V: PolicySet<A>>(
    allowed: Map<u64, V>,
    denied: Map<u64, V>,
    u: Update<V>,
    image: u64,
    arg: A,
)
    requires
        u.key == INODE_WILDCARD,
        u.allowed is Put && u.allowed->Put_0.covers_all(),
        u.denied is Put && u.denied->Put_0.covers_all(),
    ensures
        decide(
            lookup_of(apply_entry(allowed, u.key, u.allowed), apply_entry(denied, u.key, u.denied), image),
            arg,
        ) == Action::Deny,
{
}

/// On empty tables, a wildcard policy that allows all and denies nothing
/// allows every operation of every executable.
pub proof fn lemma_allow_all_allows<A, V: PolicySet<A>>(u: Update<V>, image: u64, arg: A)
    requires
        u.key == INODE_WILDCARD,
        u.allowed is Put && u.allowed->Put_0.covers_all(),
        u.denied is Delete,
    ensures
        decide(
            lookup_of(
                apply_entry(Map::<u64, V>::empty(), u.key, u.allowed),
                apply_entry(Map::<u64, V>::empty(), u.key, u.denied),
                image,
            ),
            arg,
        ) == Action::Allow,
{
    let d = apply_entry(Map::<u64, V>::empty(), u.key, u.denied);
    assert(!d.dom().contains(image));
}

/// On empty tables, a wildcard policy that denies all and allows nothing
/// denies every operation of every executable (that the hook's early exits
/// let through).
pub proof fn lemma_deny_all_denies<A, V: PolicySet<A>>(u: Update<V>, image: u64, arg: A)
    requires
        u.key == INODE_WILDCARD,
        u.allowed is Delete,
        u.denied is Put && u.denied->Put_0.covers_all(),
    ensures
        decide(
            lookup_of(
                apply_entry(Map::<u64, V>::empty(), u.key, u.allowed),
                apply_entry(Map::<u64, V>::empty(), u.key, u.denied),
                image,
            ),
            arg,
        ) == Action::Deny,
{
    let a = apply_entry(Map::<u64, V>::empty(), u.key, u.allowed);
    assert(!a.dom().contains(image));
    assert(!a.dom().contains(INODE_WILDCARD));
}

/// A path set that lists an ancestor directory that the walk reaches matches
/// the file: under a denylist whose wildcard DENIED entry is that set, opening
/// the file is denied.
pub proof fn lemma_ancestor_matches(lk: Lookup<records::Paths>, target: FileTarget, i: int)
    requires
        lk.allowed_wild is Some && lk.allowed_wild->0.spec_all(),
        lk.denied_wild is Some,
        walk_reaches(target.inode, target.ancestors@, i),
        lk.denied_wild->0.spec_lists(target.ancestors@[i]),
    ensures
        paths_match(lk.denied_wild->0, target.inode, target.ancestors@),
        decide(lk, target) == Action::Deny,
{
}

/// A bind on port 0, or in a family other than IPv4 and IPv6, is allowed
/// whatever the tables hold; so is a connect in another family.
pub proof fn lemma_bind_connect_early_exits(
    lk: Lookup<records::Ports>,
    v4: Lookup<Ipv4Addrs>,
    v6: Lookup<Ipv6Addrs>,
    family: u16,
    port: u16,
    image: Option<u64>,
)
    ensures
        bind_action(lk, family, 0, image) == Action::Allow,
        family != crate::engine::AF_INET && family != crate::engine::AF_INET6 ==> bind_action(
            lk,
            family,
            port,
            image,
        ) == Action::Allow,
        connect_action(v4, v6, SocketAddress::Other { family }, image) == Action::Allow,
{
}

/// The walk up the directories reads at most `MAX_DIR_DEPTH` ancestors: what
/// lies beyond, a cycle included, does not change the outcome.
pub proof fn lemma_walk_bounded(paths: records::Paths, inode: u64, ancestors: Seq<u64>)
    ensures
        paths_match(paths, inode, ancestors) == paths_match(
            paths,
            inode,
            ancestors.take(
                if ancestors.len() < MAX_DIR_DEPTH {
                    ancestors.len() as int
                } else {
                    MAX_DIR_DEPTH as int
                },
            ),
        ),
{
    let n: int = if ancestors.len() < MAX_DIR_DEPTH {
        ancestors.len() as int
    } else {
        MAX_DIR_DEPTH as int
    };
    let t = ancestors.take(n);
    assert forall|i: int| walk_reaches(inode, ancestors, i) <==> walk_reaches(inode, t, i) by {
        if 0 <= i < n {
            assert forall|j: int| 0 <= j <= i implies t[j] == ancestors[j] && crate::engine::previous(
                inode,
                t,
                j,
            ) == crate::engine::previous(inode, ancestors, j) by {}
        }
    }
    if paths_match(paths, inode, ancestors) && !paths.spec_lists(inode) {
        let i = choose|i: int|
            walk_reaches(inode, ancestors, i) && #[trigger] paths.spec_lists(ancestors[i]);
        assert(t[i] == ancestors[i]);
    }
    if paths_match(paths, inode, t) && !paths.spec_lists(inode) {
        let i = choose|i: int| walk_reaches(inode, t, i) && #[trigger] paths.spec_lists(t[i]);
        assert(t[i] == ancestors[i]);
    }
}

/// A port list of at most `HONORED_SLOTS` ports is honored whole: once
/// installed, the entry matches exactly the listed ports (port 0 is the
/// sentinel, never a listed port).
pub proof fn lemma_ports_honored(p: Ports, u: MapUpdate<records::Ports>, port: u16)
    requires
        p is Ports,
        ports_error(p) is None,
        ports_written(p, u),
        p->Ports_0@.len() <= HONORED_SLOTS,
        u is Put,
        port != 0,
    ensures
        !u->Put_0.spec_all(),
        u->Put_0.spec_lists(port) <==> p->Ports_0@.contains(port),
{
    let v = p->Ports_0@;
    let e = u->Put_0;
    assert(v[0] != 0);
    if e.spec_lists(port) {
        let i = choose|i: int| 0 <= i < HONORED_SLOTS && i < e.ports@.len() && e.ports@[i] == port;
        if i >= v.len() {
            assert(e.ports@[i] == 0);
        }
        assert(v[i] == port);
    }
    if v.contains(port) {
        let i = choose|i: int| 0 <= i < v.len() && v[i] == port;
        assert(e.ports@[i] == port);
    }
}

/// A path list of at most `HONORED_SLOTS` paths is honored whole: once
/// installed, the entry lists exactly the inodes of the listed paths (inode 0
/// is the sentinel, never a listed path's).
pub proof fn lemma_paths_honored(p: Paths, inodes: Seq<u64>, u: MapUpdate<records::Paths>, inode: u64)
    requires
        p is Paths,
        paths_error(p, inodes) is None,
        paths_written(p, inodes, u),
        inodes.len() <= HONORED_SLOTS,
        u is Put,
        inode != 0,
    ensures
        !u->Put_0.spec_all(),
        u->Put_0.spec_lists(inode) <==> inodes.contains(inode),
{
    let e = u->Put_0;
    assert(inodes[0] != 0);
    if e.spec_lists(inode) {
        let i = choose|i: int| 0 <= i < HONORED_SLOTS && i < e.paths@.len() && e.paths@[i] == inode;
        if i >= inodes.len() {
            assert(e.paths@[i] == 0);
        }
        assert(inodes[i] == inode);
    }
    if inodes.contains(inode) {
        let i = choose|i: int| 0 <= i < inodes.len() && inodes[i] == inode;
        assert(e.paths@[i] == inode);
    }
}

/// A port set as a list of ports, or `None` for all ports.
pub open spec fn ports_view(p: Ports) -> Option<Seq<u16>> {
    match p {
        Ports::All => None,
        Ports::Ports(v) => Some(v@),
    }
}

proof fn lemma_ports_side_round_trip(p: Ports, u: MapUpdate<records::Ports>, q: Ports)
    requires
        ports_error(p) is None,
        ports_written(p, u),
        ports_read(written_entry(u), q),
    ensures
        ports_view(q) == ports_view(p),
{
    match p {
        Ports::All => {},
        Ports::Ports(v) => {
            if v@.len() > 0 {
                let e = u->Put_0;
                let out = q->Ports_0@;
                assert(e.ports@[0] != 0);
                assert(!e.spec_all());
                if out.len() < v@.len() {
                    assert(e.ports@[out.len() as int] == v@[out.len() as int]);
                    assert(v@.contains(0u16));
                } else if out.len() > v@.len() {
                    assert(e.ports@[v@.len() as int] == 0);
                }
                assert(out =~= v@);
            } else {
                assert(q->Ports_0@ =~= v@);
            }
        },
    }
}

/// Installing a socket-bind policy and reading back the entries of its key,
/// as listing does, gives the policy back: the subject by the resolver's
/// paths, and both port sets as they were.
pub proof fn lemma_socket_bind_round_trip(
    p: SocketBind,
    inode: u64,
    before: Map<u64, Seq<char>>,
    u: Update<records::Ports>,
    after: Map<u64, Seq<char>>,
    allowed: Map<u64, records::Ports>,
    denied: Map<u64, records::Ports>,
    q: SocketBind,
)
    requires
        bind_installed(p, inode, before, Ok(u), after),
        subject_view(q.subject) == subject_of(after, u.key),
        ports_read(entry(apply_entry(allowed, u.key, u.allowed), u.key), q.allow),
        ports_read(entry(apply_entry(denied, u.key, u.denied), u.key), q.deny),
    ensures
        subject_view(q.subject) == subject_view(p.subject),
        ports_view(q.allow) == ports_view(p.allow),
        ports_view(q.deny) == ports_view(p.deny),
{
    assert(entry(apply_entry(allowed, u.key, u.allowed), u.key) == written_entry(u.allowed));
    assert(entry(apply_entry(denied, u.key, u.denied), u.key) == written_entry(u.denied));
    lemma_ports_side_round_trip(p.allow, u.allowed, q.allow);
    lemma_ports_side_round_trip(p.deny, u.denied, q.deny);
}

/// Installing the same socket-bind policy twice is installing it once: the
/// second call makes the same writes, which change nothing more, and leaves
/// the resolver as the first left it.
pub proof fn lemma_socket_bind_idempotent(
    p: SocketBind,
    inode: u64,
    m0: Map<u64, Seq<char>>,
    u1: Update<records::Ports>,
    m1: Map<u64, Seq<char>>,
    u2: Update<records::Ports>,
    m2: Map<u64, Seq<char>>,
    allowed: Map<u64, records::Ports>,
    denied: Map<u64, records::Ports>,
)
    requires
        bind_installed(p, inode, m0, Ok(u1), m1),
        bind_installed(p, inode, m1, Ok(u2), m2),
    ensures
        u2 == u1,
        m2 == m1,
        apply_entry(apply_entry(allowed, u1.key, u1.allowed), u2.key, u2.allowed) == apply_entry(
            allowed,
            u1.key,
            u1.allowed,
        ),
        apply_entry(apply_entry(denied, u1.key, u1.denied), u2.key, u2.denied) == apply_entry(
            denied,
            u1.key,
            u1.denied,
        ),
{
    lemma_ports_written_unique(p.allow, u1.allowed, u2.allowed);
    lemma_ports_written_unique(p.deny, u1.denied, u2.denied);
    match p.subject {
        crate::policy::PolicySubject::All => {},
        crate::policy::PolicySubject::Binary(path) => {
            assert(m2 =~= m1);
        },
    }
    assert(apply_entry(apply_entry(allowed, u1.key, u1.allowed), u2.key, u2.allowed) =~= apply_entry(
        allowed,
        u1.key,
        u1.allowed,
    ));
    assert(apply_entry(apply_entry(denied, u1.key, u1.denied), u2.key, u2.denied) =~= apply_entry(
        denied,
        u1.key,
        u1.denied,
    ));
}

proof fn lemma_ports_written_unique(p: Ports, u1: MapUpdate<records::Ports>, u2: MapUpdate<records::Ports>)
    requires
        ports_written(p, u1),
        ports_written(p, u2),
    ensures
        u1 == u2,
{
    if u1 is Put {
        let a = u1->Put_0.ports;
        let b = u2->Put_0.ports;
        assert(a =~= b);
        assert(u1->Put_0 == u2->Put_0);
    }
}

/// Writing the same entry twice leaves the table as writing it once; so does
/// remembering the same subject twice in the resolver.
pub proof fn lemma_write_idempotent<V>(
    m: Map<u64, V>,
    key: u64,
    u: MapUpdate<V>,
    known: Map<u64, Seq<char>>,
    subject: crate::policy::PolicySubject,
    inode: u64,
)
    ensures
        apply_entry(apply_entry(m, key, u), key, u) == apply_entry(m, key, u),
        remember(remember(known, subject, inode), subject, inode) == remember(known, subject, inode),
{
    assert(apply_entry(apply_entry(m, key, u), key, u) =~= apply_entry(m, key, u));
    assert(remember(remember(known, subject, inode), subject, inode) =~= remember(
        known,
        subject,
        inode,
    ));
}

/// Installing a boolean policy and reading the tables back, as listing
/// does, gives it back: its subject is in ALLOWED exactly when the policy
/// allows and in DENIED exactly when it denies, and resolves to itself.
pub proof fn lemma_flag_round_trip(
    subject: crate::policy::PolicySubject,
    allow: bool,
    inode: u64,
    before: Map<u64, Seq<char>>,
    u: Update<u8>,
    allowed: Map<u64, u8>,
    denied: Map<u64, u8>,
)
    requires
        subject_key(subject, inode) is Some,
        u.key == subject_key(subject, inode)->0,
        flag_written(allow, u),
    ensures
        apply_entry(allowed, u.key, u.allowed).dom().contains(u.key) == allow,
        apply_entry(denied, u.key, u.denied).dom().contains(u.key) == !allow,
        subject_of(remember(before, subject, inode), u.key) == subject_view(subject),
{
}

/// `q` reads back the path set `p`, whose paths have inodes `inodes`, up to
/// the resolution of those inodes to paths by `known`.
pub open spec fn paths_resolved_as(q: Paths, p: Paths, inodes: Seq<u64>, known: Map<u64, Seq<char>>) -> bool {
    match p {
        Paths::All => q is All,
        Paths::Paths(_) => q is Paths && q->Paths_0@.len() == inodes.len() && forall|j: int|
            0 <= j < inodes.len() ==> subject_of(known, inodes[j]) == Some(
                (#[trigger] q->Paths_0@[j])@,
            ),
    }
}

proof fn lemma_paths_side_round_trip(
    p: Paths,
    inodes: Seq<u64>,
    u: MapUpdate<records::Paths>,
    known: Map<u64, Seq<char>>,
    q: Paths,
)
    requires
        paths_error(p, inodes) is None,
        paths_written(p, inodes, u),
        paths_read(known, written_entry(u), q),
    ensures
        paths_resolved_as(q, p, inodes, known),
{
    match p {
        Paths::All => {
            assert(u->Put_0.paths@[0] == 0);
        },
        Paths::Paths(_) => {
            if inodes.len() > 0 {
                let e = u->Put_0;
                let out = q->Paths_0@;
                assert(e.paths@[0] != 0);
                if out.len() < inodes.len() {
                    assert(e.paths@[out.len() as int] == inodes[out.len() as int]);
                    assert(inodes.contains(0u64));
                } else if out.len() > inodes.len() {
                    assert(e.paths@[inodes.len() as int] == 0);
                    assert(subject_of(known, e.paths@[inodes.len() as int]) == Some(
                        out[inodes.len() as int]@,
                    ));
                }
                assert forall|j: int| 0 <= j < inodes.len() implies subject_of(known, inodes[j]) == Some(
                    (#[trigger] out[j])@,
                ) by {
                    assert(e.paths@[j] == inodes[j]);
                }
            }
        },
    }
}

/// Installing a file-open policy and reading back the entries of its key, as
/// listing does, gives the policy back up to path resolution: the subject,
/// "all" where it said all, and for each listed path the path that the
/// resolver gives for its inode.
pub proof fn lemma_file_open_round_trip(
    p: crate::policy::FileOpen,
    inode: u64,
    allow_inodes: Seq<u64>,
    deny_inodes: Seq<u64>,
    before: Map<u64, Seq<char>>,
    u: Update<records::Paths>,
    after: Map<u64, Seq<char>>,
    allowed: Map<u64, records::Paths>,
    denied: Map<u64, records::Paths>,
    q: crate::policy::FileOpen,
)
    requires
        file_open_installed(p, inode, allow_inodes, deny_inodes, before, Ok(u), after),
        subject_view(q.subject) == subject_of(after, u.key),
        paths_read(after, entry(apply_entry(allowed, u.key, u.allowed), u.key), q.allow),
        paths_read(after, entry(apply_entry(denied, u.key, u.denied), u.key), q.deny),
    ensures
        subject_view(q.subject) == subject_view(p.subject),
        paths_resolved_as(q.allow, p.allow, allow_inodes, after),
        paths_resolved_as(q.deny, p.deny, deny_inodes, after),
{
    assert(entry(apply_entry(allowed, u.key, u.allowed), u.key) == written_entry(u.allowed));
    assert(entry(apply_entry(denied, u.key, u.denied), u.key) == written_entry(u.denied));
    lemma_paths_side_round_trip(p.allow, allow_inodes, u.allowed, after, q.allow);
    lemma_paths_side_round_trip(p.deny, deny_inodes, u.denied, after, q.deny);
}

/// An address list with its IPv4 addresses first, then its IPv6 addresses,
/// each family in order.
pub open spec fn grouped(v: Seq<IpAddress>) -> Seq<IpAddress> {
    v4_addrs(v).map_values(|a: u32| IpAddress::V4(a)) + v6_addrs(v).map_values(
        |a: [u8; 16]| IpAddress::V6(a),
    )
}

/// An address set as the addresses it lists, or `None` for all addresses.
pub open spec fn addrs_view(p: Addresses) -> Option<Seq<IpAddress>> {
    match p {
        Addresses::All => None,
        Addresses::Addresses(v) => Some(v@),
    }
}

/// An address set as the addresses it lists grouped by family, or `None` for
/// all addresses.
pub open spec fn grouped_view(p: Addresses) -> Option<Seq<IpAddress>> {
    match p {
        Addresses::All => None,
        Addresses::Addresses(v) => Some(grouped(v@)),
    }
}

proof fn lemma_addrs_side_round_trip(
    p: Addresses,
    u4: MapUpdate<Ipv4Addrs>,
    u6: MapUpdate<Ipv6Addrs>,
    q: Addresses,
)
    requires
        addrs_error(p) is None,
        addrs_written(p, u4, u6),
        addrs_read(written_entry(u4), written_entry(u6), q),
    ensures
        addrs_view(q) == grouped_view(p),
{
    match p {
        Addresses::All => {
            let e4 = u4->Put_0;
            let e6 = u6->Put_0;
            assert(e4.addrs@[0] == 0);
            assert(e6.addrs@[0]@ =~= records::zero_v6());
            assert(crate::records::IpAddrs::<u32>::spec_all(&e4));
            assert(crate::records::IpAddrs::<[u8; 16]>::spec_all(&e6));
        },
        Addresses::Addresses(v) => {
            let s4 = v4_addrs(v@);
            let s6 = v6_addrs(v@);
            let w4: Seq<u32> = match written_entry(u4) {
                Some(e) => e.addrs@,
                None => Seq::empty(),
            };
            let w6: Seq<[u8; 16]> = match written_entry(u6) {
                Some(e) => e.addrs@,
                None => Seq::empty(),
            };
            if s6.len() > 0 {
                assert(!(s6[0]@ =~= records::zero_v6()));
                assert(!(w6[0]@ =~= records::zero_v6()));
            }
            if s4.len() > 0 {
                assert(s4.contains(s4[0]));
                assert(w4[0] != 0);
            }
            let out = q->Addresses_0@;
            let (n4, n6) = choose|n4: int, n6: int| split_at_counts(w4, w6, out, n4, n6);
            assert(w4.len() == s4.len());
            if n4 < s4.len() {
                assert(w4[n4] == s4[n4]);
                assert(s4.contains(s4[n4]));
            }
            assert(n4 == s4.len());
            if n6 < s6.len() {
                assert(w6[n6] == s6[n6]);
            }
            assert(n6 == s6.len());
            assert(out =~= grouped(v@));
        },
    }
}

/// Installing a socket-connect policy and reading back the entries of its key
/// in the IPv4 and IPv6 tables, as listing does, gives the policy back, its
/// addresses grouped by family.
pub proof fn lemma_socket_connect_round_trip(
    p: crate::policy::SocketConnect,
    inode: u64,
    before: Map<u64, Seq<char>>,
    u: (Update<Ipv4Addrs>, Update<Ipv6Addrs>),
    after: Map<u64, Seq<char>>,
    allowed_v4: Map<u64, Ipv4Addrs>,
    denied_v4: Map<u64, Ipv4Addrs>,
    allowed_v6: Map<u64, Ipv6Addrs>,
    denied_v6: Map<u64, Ipv6Addrs>,
    q: crate::policy::SocketConnect,
)
    requires
        connect_installed(p, inode, before, Ok(u), after),
        subject_view(q.subject) == subject_of(after, u.0.key),
        addrs_read(
            entry(apply_entry(allowed_v4, u.0.key, u.0.allowed), u.0.key),
            entry(apply_entry(allowed_v6, u.1.key, u.1.allowed), u.1.key),
            q.allow,
        ),
        addrs_read(
            entry(apply_entry(denied_v4, u.0.key, u.0.denied), u.0.key),
            entry(apply_entry(denied_v6, u.1.key, u.1.denied), u.1.key),
            q.deny,
        ),
    ensures
        subject_view(q.subject) == subject_view(p.subject),
        addrs_view(q.allow) == grouped_view(p.allow),
        addrs_view(q.deny) == grouped_view(p.deny),
{
    assert(entry(apply_entry(allowed_v4, u.0.key, u.0.allowed), u.0.key) == written_entry(
        u.0.allowed,
    ));
    assert(entry(apply_entry(allowed_v6, u.1.key, u.1.allowed), u.1.key) == written_entry(
        u.1.allowed,
    ));
    assert(entry(apply_entry(denied_v4, u.0.key, u.0.denied), u.0.key) == written_entry(u.0.denied));
    assert(entry(apply_entry(denied_v6, u.1.key, u.1.denied), u.1.key) == written_entry(u.1.denied));
    lemma_addrs_side_round_trip(p.allow, u.0.allowed, u.1.allowed, q.allow);
    lemma_addrs_side_round_trip(p.deny, u.0.denied, u.1.denied, q.deny);
}

/// Installing the socket-bind policy "every executable: allow all, deny
/// all" denies every bind of every executable on a non-zero port in either
/// family, whatever the tables held before.
pub proof fn lemma_socket_bind_contradiction(
    p: SocketBind,
    before: Map<u64, Seq<char>>,
    u: Update<records::Ports>,
    after: Map<u64, Seq<char>>,
    allowed: Map<u64, records::Ports>,
    denied: Map<u64, records::Ports>,
    family: u16,
    port: u16,
    image: u64,
)
    requires
        p.subject is All,
        p.allow is All,
        p.deny is All,
        bind_installed(p, 0, before, Ok(u), after),
        family == crate::engine::AF_INET || family == crate::engine::AF_INET6,
        port != 0,
    ensures
        bind_action(
            lookup_of(apply_entry(allowed, u.key, u.allowed), apply_entry(denied, u.key, u.denied), image),
            family,
            port,
            Some(image),
        ) == Action::Deny,
{
    assert(u.allowed->Put_0.ports@[0] == 0);
    assert(u.denied->Put_0.ports@[0] == 0);
    lemma_contradiction_denies(allowed, denied, u, image, port);
}

} // verus!
