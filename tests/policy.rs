use ebpfguard::controller::{
    flag_update, list_file_open, list_flags, list_socket_bind, list_socket_connect, MapUpdate,
    Update,
};
use ebpfguard::engine::{Action, FileTarget, Lookup, AF_INET};
use ebpfguard::error::EbpfguardError;
use ebpfguard::hooks::{file_open, socket_bind, socket_connect, task_fix_setuid, SocketAddress};
use ebpfguard::inode::{decimal_string, InodeSubjectMap};
use ebpfguard::policy::{
    Addresses, FileOpen, IpAddress, Paths, PolicySubject, Ports, SocketBind, SocketConnect,
};
use ebpfguard::records;

/// A table as the entries read from it.
fn apply<V: Copy>(table: &mut Vec<(u64, V)>, key: u64, u: MapUpdate<V>) {
    table.retain(|(k, _)| *k != key);
    if let MapUpdate::Put(v) = u {
        table.push((key, v));
    }
}

fn install<V: Copy>(allowed: &mut Vec<(u64, V)>, denied: &mut Vec<(u64, V)>, u: Update<V>) {
    apply(allowed, u.key, u.allowed);
    apply(denied, u.key, u.denied);
}

fn get<V: Copy>(table: &[(u64, V)], key: u64) -> Option<V> {
    table.iter().find(|(k, _)| *k == key).map(|(_, v)| *v)
}

fn lookup<V: Copy>(allowed: &[(u64, V)], denied: &[(u64, V)], image: u64) -> Lookup<V> {
    Lookup {
        allowed_wild: get(allowed, 0),
        denied_wild: get(denied, 0),
        allowed_image: get(allowed, image),
        denied_image: get(denied, image),
    }
}

fn binary(path: &str) -> PolicySubject {
    PolicySubject::Binary(path.to_string())
}

fn ipv4(a: u8, b: u8, c: u8, d: u8) -> u32 {
    u32::from_be_bytes([a, b, c, d])
}

#[test]
fn deny_bind_on_port_8000_for_all() {
    let mut resolver = InodeSubjectMap::new();
    let (mut allowed, mut denied) = (Vec::new(), Vec::new());
    let p = SocketBind { subject: PolicySubject::All, allow: Ports::All, deny: Ports::Ports(vec![8000]) };
    install(&mut allowed, &mut denied, p.to_update(&mut resolver, 0).unwrap());
    let v = socket_bind(&lookup(&allowed, &denied, 555), AF_INET, 8000, 31, Some(555));
    assert_eq!(v.action, Action::Deny);
    let a = v.alert.unwrap();
    assert_eq!((a.pid, a.binprm_inode, a.port), (31, 555, 8000));
    let v = socket_bind(&lookup(&allowed, &denied, 555), AF_INET, 8001, 31, Some(555));
    assert_eq!(v.action, Action::Allow);
    assert!(v.alert.is_none());
}

#[test]
fn deny_setuid_except_for_one_binary() {
    let mut resolver = InodeSubjectMap::new();
    let (mut allowed, mut denied) = (Vec::new(), Vec::new());
    install(&mut allowed, &mut denied, flag_update(&mut resolver, &PolicySubject::All, false, 0).unwrap());
    install(&mut allowed, &mut denied, flag_update(&mut resolver, &binary("/usr/bin/sudo"), true, 1234).unwrap());
    let v = task_fix_setuid(&lookup(&allowed, &denied, 1234), 1000, 1000, 0, 0, 7, Some(1234));
    assert_eq!(v.action, Action::Allow);
    let v = task_fix_setuid(&lookup(&allowed, &denied, 999), 1000, 1000, 0, 0, 8, Some(999));
    assert_eq!(v.action, Action::Deny);
    let a = v.alert.unwrap();
    assert_eq!((a.new_uid, a.new_gid, a.binprm_inode), (0, 0, 999));
}

#[test]
fn deny_file_open_under_directory_for_all() {
    let mut resolver = InodeSubjectMap::new();
    let (mut allowed, mut denied) = (Vec::new(), Vec::new());
    let p = FileOpen { subject: PolicySubject::All, allow: Paths::All, deny: Paths::Paths(vec!["/tmp/test".to_string()]) };
    let u = p.to_update(&mut resolver, 0, &vec![], &vec![700]).unwrap();
    install(&mut allowed, &mut denied, u);
    let lk = lookup(&allowed, &denied, 9);
    // /tmp is 600, / is 2; /tmp/test is 700, /tmp/test/sub is 710.
    let denied_targets = [
        FileTarget { inode: 700, ancestors: vec![600, 2] },
        FileTarget { inode: 701, ancestors: vec![700, 600, 2] },
        FileTarget { inode: 711, ancestors: vec![710, 700, 600, 2] },
    ];
    for t in denied_targets.iter() {
        assert_eq!(file_open(&lk, t, 1, Some(9)).action, Action::Deny);
    }
    let other = FileTarget { inode: 800, ancestors: vec![600, 2] };
    assert_eq!(file_open(&lk, &other, 1, Some(9)).action, Action::Allow);
}

#[test]
fn deny_connect_to_one_address_for_all() {
    let mut resolver = InodeSubjectMap::new();
    let (mut a4, mut d4, mut a6, mut d6) = (Vec::new(), Vec::new(), Vec::new(), Vec::new());
    let p = SocketConnect {
        subject: PolicySubject::All,
        allow: Addresses::All,
        deny: Addresses::Addresses(vec![IpAddress::V4(ipv4(127, 1, 2, 3))]),
    };
    let (u4, u6) = p.to_update(&mut resolver, 0).unwrap();
    install(&mut a4, &mut d4, u4);
    install(&mut a6, &mut d6, u6);
    let v = socket_connect(
        &lookup(&a4, &d4, 9),
        &lookup(&a6, &d6, 9),
        &SocketAddress::V4 { addr: ipv4(127, 1, 2, 3), port: 8080 },
        1,
        Some(9),
    );
    assert_eq!(v.action, Action::Deny);
    let a = v.alert.unwrap();
    assert_eq!((a.addr_v4, a.port), (ipv4(127, 1, 2, 3), 8080));
    let v = socket_connect(
        &lookup(&a4, &d4, 9),
        &lookup(&a6, &d6, 9),
        &SocketAddress::V4 { addr: ipv4(127, 1, 2, 4), port: 8080 },
        1,
        Some(9),
    );
    assert_eq!(v.action, Action::Allow);
    let v = socket_connect(
        &lookup(&a4, &d4, 9),
        &lookup(&a6, &d6, 9),
        &SocketAddress::V6 { addr: [1; 16], port: 8080 },
        1,
        Some(9),
    );
    assert_eq!(v.action, Action::Allow);
}

#[test]
fn contradiction_on_bind() {
    let mut resolver = InodeSubjectMap::new();
    let (mut allowed, mut denied) = (Vec::new(), Vec::new());
    let p = SocketBind { subject: PolicySubject::All, allow: Ports::All, deny: Ports::All };
    install(&mut allowed, &mut denied, p.to_update(&mut resolver, 0).unwrap());
    let v = socket_bind(&lookup(&allowed, &denied, 3), AF_INET, 8000, 1, Some(3));
    assert_eq!(v.action, Action::Deny);
    assert!(v.alert.is_some());
    let v = socket_bind(&lookup(&allowed, &denied, 3), AF_INET, 0, 1, Some(3));
    assert_eq!(v.action, Action::Allow);
    assert!(v.alert.is_none());
}

#[test]
fn listing_survives_a_new_resolver() {
    let mut resolver = InodeSubjectMap::new();
    let (mut allowed, mut denied) = (Vec::new(), Vec::new());
    let p = SocketBind { subject: binary("/usr/bin/nginx"), allow: Ports::Ports(vec![80, 443]), deny: Ports::All };
    install(&mut allowed, &mut denied, p.to_update(&mut resolver, 4242).unwrap());
    let listed = list_socket_bind(&allowed, &denied, &resolver);
    assert_eq!(listed, vec![p.clone()]);
    // A restarted controller has not seen the path: the subject reads back as its inode.
    let fresh = InodeSubjectMap::new();
    let listed = list_socket_bind(&allowed, &denied, &fresh);
    assert_eq!(listed.len(), 1);
    assert_eq!(listed[0].subject, binary("4242"));
    assert_eq!(listed[0].allow, p.allow);
    assert_eq!(listed[0].deny, p.deny);
    // Once the path is resolved again, listing gives the policy back.
    let mut again = InodeSubjectMap::new();
    assert_eq!(again.resolve_path(&binary("/usr/bin/nginx"), 4242), Ok(4242));
    assert_eq!(list_socket_bind(&allowed, &denied, &again), vec![p]);
}

#[test]
fn socket_bind_round_trip() {
    let mut resolver = InodeSubjectMap::new();
    let (mut allowed, mut denied) = (Vec::new(), Vec::new());
    let policies = vec![
        SocketBind { subject: PolicySubject::All, allow: Ports::All, deny: Ports::Ports(vec![22]) },
        SocketBind { subject: binary("/usr/bin/python"), allow: Ports::Ports(vec![8080]), deny: Ports::All },
        SocketBind { subject: binary("/usr/bin/nc"), allow: Ports::Ports(vec![]), deny: Ports::Ports(vec![1, 2, 3, 4]) },
    ];
    let inodes = [0u64, 11, 12];
    for (p, i) in policies.iter().zip(inodes.iter()) {
        install(&mut allowed, &mut denied, p.to_update(&mut resolver, *i).unwrap());
    }
    let listed = list_socket_bind(&allowed, &denied, &resolver);
    assert_eq!(listed.len(), 3);
    for p in policies.iter() {
        assert!(listed.contains(p));
    }
}

#[test]
fn file_open_round_trip() {
    let mut resolver = InodeSubjectMap::new();
    let (mut allowed, mut denied) = (Vec::new(), Vec::new());
    let p = FileOpen {
        subject: binary("/usr/bin/myapp"),
        allow: Paths::Paths(vec!["/etc/myapp".to_string()]),
        deny: Paths::All,
    };
    install(&mut allowed, &mut denied, p.to_update(&mut resolver, 50, &vec![60], &vec![]).unwrap());
    let listed = list_file_open(&allowed, &denied, &resolver);
    assert_eq!(listed.len(), 1);
    assert_eq!(listed[0].subject, p.subject);
    assert_eq!(listed[0].deny, Paths::All);
    // The listed path was never resolved by name: it reads back as its inode.
    assert_eq!(listed[0].allow, Paths::Paths(vec!["60".to_string()]));
    assert_eq!(resolver.resolve_path(&binary("/etc/myapp"), 60), Ok(60));
    let listed = list_file_open(&allowed, &denied, &resolver);
    assert_eq!(listed, vec![p]);
}

#[test]
fn socket_connect_round_trip() {
    let mut resolver = InodeSubjectMap::new();
    let (mut a4, mut d4, mut a6, mut d6) = (Vec::new(), Vec::new(), Vec::new(), Vec::new());
    let v6 = [0x20, 0x01, 0x0d, 0xb8, 0x33, 0x33, 0x44, 0x44, 0x55, 0x55, 0x66, 0x66, 0x77, 0x77, 0x88, 0x88];
    let p = SocketConnect {
        subject: binary("/usr/bin/nginx"),
        allow: Addresses::Addresses(vec![IpAddress::V4(ipv4(10, 0, 0, 1)), IpAddress::V6(v6)]),
        deny: Addresses::All,
    };
    let (u4, u6) = p.to_update(&mut resolver, 77).unwrap();
    install(&mut a4, &mut d4, u4);
    install(&mut a6, &mut d6, u6);
    assert_eq!(list_socket_connect(&a4, &d4, &a6, &d6, &resolver), vec![p]);
    // Only IPv6 addresses allowed: the IPv4 entry is absent, the subject still listed once.
    let q = SocketConnect {
        subject: binary("/usr/bin/tomcat"),
        allow: Addresses::Addresses(vec![IpAddress::V6(v6)]),
        deny: Addresses::Addresses(vec![]),
    };
    let (u4, u6) = q.to_update(&mut resolver, 78).unwrap();
    install(&mut a4, &mut d4, u4);
    install(&mut a6, &mut d6, u6);
    let listed = list_socket_connect(&a4, &d4, &a6, &d6, &resolver);
    assert_eq!(listed.len(), 2);
    assert!(listed.contains(&q));
}

#[test]
fn flags_round_trip() {
    let mut resolver = InodeSubjectMap::new();
    let (mut allowed, mut denied) = (Vec::new(), Vec::new());
    install(&mut allowed, &mut denied, flag_update(&mut resolver, &PolicySubject::All, false, 0).unwrap());
    install(&mut allowed, &mut denied, flag_update(&mut resolver, &binary("/usr/bin/mount"), true, 31).unwrap());
    let listed = list_flags(&allowed, &denied, &resolver);
    assert_eq!(listed, vec![(binary("/usr/bin/mount"), true), (PolicySubject::All, false)]);
    // Allowing the wildcard afterwards takes it out of the denied table.
    install(&mut allowed, &mut denied, flag_update(&mut resolver, &PolicySubject::All, true, 0).unwrap());
    let listed = list_flags(&allowed, &denied, &resolver);
    assert_eq!(listed, vec![(binary("/usr/bin/mount"), true), (PolicySubject::All, true)]);
}

#[test]
fn add_policy_is_idempotent() {
    let mut resolver = InodeSubjectMap::new();
    let (mut allowed, mut denied) = (Vec::new(), Vec::new());
    let p = SocketBind { subject: binary("/usr/bin/nginx"), allow: Ports::Ports(vec![80]), deny: Ports::All };
    let u1 = p.to_update(&mut resolver, 9).unwrap();
    install(&mut allowed, &mut denied, u1);
    let once_a: Vec<(u64, [u16; 4])> = allowed.iter().map(|(k, v)| (*k, v.ports)).collect();
    let once_d: Vec<(u64, [u16; 4])> = denied.iter().map(|(k, v)| (*k, v.ports)).collect();
    let u2 = p.to_update(&mut resolver, 9).unwrap();
    install(&mut allowed, &mut denied, u2);
    let twice_a: Vec<(u64, [u16; 4])> = allowed.iter().map(|(k, v)| (*k, v.ports)).collect();
    let twice_d: Vec<(u64, [u16; 4])> = denied.iter().map(|(k, v)| (*k, v.ports)).collect();
    assert_eq!(once_a, twice_a);
    assert_eq!(once_d, twice_d);
    assert_eq!(list_socket_bind(&allowed, &denied, &resolver), vec![p]);
}

#[test]
fn translation_errors() {
    let mut resolver = InodeSubjectMap::new();
    let too_many = SocketBind { subject: PolicySubject::All, allow: Ports::Ports(vec![1, 2, 3, 4, 5]), deny: Ports::All };
    assert_eq!(too_many.to_update(&mut resolver, 0).err(), Some(EbpfguardError::TooManyEntries));
    let zero = SocketBind { subject: PolicySubject::All, allow: Ports::All, deny: Ports::Ports(vec![80, 0]) };
    assert_eq!(zero.to_update(&mut resolver, 0).err(), Some(EbpfguardError::ReservedValue));
    let bad_subject = SocketBind { subject: binary("/x"), allow: Ports::All, deny: Ports::All };
    assert_eq!(bad_subject.to_update(&mut resolver, 0).err(), Some(EbpfguardError::ReservedInode));
    assert_eq!(flag_update(&mut resolver, &binary("/x"), true, 0).err(), Some(EbpfguardError::ReservedInode));
    let two_v4 = SocketConnect {
        subject: PolicySubject::All,
        allow: Addresses::Addresses(vec![IpAddress::V4(1), IpAddress::V4(2)]),
        deny: Addresses::All,
    };
    assert_eq!(two_v4.to_update(&mut resolver, 0).err(), Some(EbpfguardError::TooManyEntries));
    let zero_v6 = SocketConnect {
        subject: PolicySubject::All,
        allow: Addresses::All,
        deny: Addresses::Addresses(vec![IpAddress::V6([0; 16])]),
    };
    assert_eq!(zero_v6.to_update(&mut resolver, 0).err(), Some(EbpfguardError::ReservedValue));
    let zero_path = FileOpen { subject: PolicySubject::All, allow: Paths::Paths(vec!["/a".to_string()]), deny: Paths::All };
    assert_eq!(zero_path.to_update(&mut resolver, 0, &vec![0], &vec![]).err(), Some(EbpfguardError::ReservedInode));
    // Nothing was remembered by the failed installs.
    assert_eq!(resolver.resolve_inode(5), binary("5"));
}

#[test]
fn ports_entries() {
    assert!(Ports::All.to_entry().unwrap().unwrap().all());
    assert_eq!(Ports::Ports(vec![80, 443]).to_entry().unwrap().unwrap().ports, [80, 443, 0, 0]);
    assert!(Ports::Ports(vec![]).to_entry().unwrap().is_none());
    assert_eq!(Ports::from_entry(&records::Ports::new([5, 6, 0, 7])), Ports::Ports(vec![5, 6]));
    assert_eq!(Ports::from_entry(&records::Ports::new_all()), Ports::All);
}

#[test]
fn address_entries() {
    let (e4, e6) = Addresses::All.into_ebpf().unwrap();
    assert_eq!(e4.unwrap().addrs, [0]);
    assert_eq!(e6.unwrap().addrs, [[0; 16]]);
    let (e4, e6) = Addresses::Addresses(vec![IpAddress::V6([9; 16]), IpAddress::V4(7)]).into_ebpf().unwrap();
    assert_eq!(e4.unwrap().addrs, [7]);
    assert_eq!(e6.unwrap().addrs, [[9; 16]]);
    let back = Addresses::from_entries(&e4, &e6);
    assert_eq!(back, Addresses::Addresses(vec![IpAddress::V4(7), IpAddress::V6([9; 16])]));
    assert_eq!(Addresses::from_entries(&None, &None), Addresses::Addresses(vec![]));
}

#[test]
fn resolver_bindings() {
    let mut r = InodeSubjectMap::new();
    assert_eq!(r.resolve_path(&PolicySubject::All, 99), Ok(0));
    assert_eq!(r.resolve_inode(0), PolicySubject::All);
    assert_eq!(r.resolve_path(&binary("/usr/bin/sudo"), 123), Ok(123));
    assert_eq!(r.resolve_inode(123), binary("/usr/bin/sudo"));
    assert_eq!(r.resolve_path(&binary("/usr/local/bin/sudo"), 123), Ok(123));
    assert_eq!(r.resolve_inode(123), binary("/usr/local/bin/sudo"));
    assert_eq!(r.resolve_inode(18446744073709551615), binary("18446744073709551615"));
}

#[test]
fn decimal_notation() {
    assert_eq!(decimal_string(0), "0");
    assert_eq!(decimal_string(7), "7");
    assert_eq!(decimal_string(10), "10");
    assert_eq!(decimal_string(4242), "4242");
    assert_eq!(decimal_string(u64::MAX), u64::MAX.to_string());
}
