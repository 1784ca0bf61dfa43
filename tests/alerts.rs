use ebpfguard::alerts;
use ebpfguard::events;
use ebpfguard::inode::InodeSubjectMap;
use ebpfguard::lsm::{bpf_lsm_enabled, is_backend};
use ebpfguard::policy::{IpAddress, PolicySubject};

#[test]
fn backend_detection() {
    assert!(bpf_lsm_enabled("lockdown,capability,landlock,yama,apparmor,bpf"));
    assert!(bpf_lsm_enabled("bpf"));
    assert!(bpf_lsm_enabled("capability,BPF,yama"));
    assert!(bpf_lsm_enabled("Bpf,capability"));
    assert!(!bpf_lsm_enabled("lockdown,capability,yama"));
    assert!(!bpf_lsm_enabled("bpfx,xbpf"));
    assert!(!bpf_lsm_enabled(""));
    assert!(is_backend("bpf"));
    assert!(!is_backend("BPF"));
}

#[test]
fn alert_records_are_zero_padded() {
    let a = alerts::SocketBind::new(1, 2, 3);
    assert_eq!((a.pid, a._padding1, a.binprm_inode, a.port, a._padding2), (1, 0, 2, 3, [0, 0, 0]));
    let c = alerts::SocketConnect::new_ipv4(1, 2, 0x7f000001, 80);
    assert_eq!((c.addr_v4, c.addr_v6, c.port), (0x7f000001, [0; 16], 80));
    let c = alerts::SocketConnect::new_ipv6(1, 2, [7; 16], 443);
    assert_eq!((c.addr_v4, c.addr_v6, c.port), (0, [7; 16], 443));
    let s = alerts::TaskFixSetuid::new(5, 6, 7, 8, 9, 10);
    assert_eq!((s.pid, s._padding, s.binprm_inode, s.old_uid, s.old_gid, s.new_uid, s.new_gid), (5, 0, 6, 7, 8, 9, 10));
    let r = alerts::SbRemount::new(4, 5);
    assert_eq!((r.pid, r.binprm_inode), (4, 5));
    let u = alerts::SbUmount::new(4, 6);
    assert_eq!((u.pid, u.binprm_inode), (4, 6));
}

#[test]
fn typed_alerts() {
    let mut resolver = InodeSubjectMap::new();
    resolver.resolve_path(&PolicySubject::Binary("/usr/bin/nc".to_string()), 900).unwrap();
    let e = events::SocketConnect::from_record(&alerts::SocketConnect::new_ipv4(3, 900, 0x7f010203, 8080), &resolver);
    assert_eq!(e, events::SocketConnect {
        pid: 3,
        subject: PolicySubject::Binary("/usr/bin/nc".to_string()),
        addr: IpAddress::V4(0x7f010203),
        port: 8080,
    });
    let e = events::SocketConnect::from_record(&alerts::SocketConnect::new_ipv6(3, 901, [1; 16], 22), &resolver);
    assert_eq!(e.addr, IpAddress::V6([1; 16]));
    assert_eq!(e.subject, PolicySubject::Binary("901".to_string()));
    let f = events::FileOpen::from_record(&alerts::FileOpen::new(4, 900, 1234), &resolver);
    assert_eq!(f.path, PolicySubject::Binary("1234".to_string()));
    let s = events::TaskFixSetuid::from_record(&alerts::TaskFixSetuid::new(5, 900, 1000, 1000, 0, 0), &resolver);
    assert_eq!((s.new_uid, s.new_gid), (0, 0));
    let b = events::SocketBind::from_record(&alerts::SocketBind::new(6, 900, 8000), &resolver);
    assert_eq!(b.port, 8000);
    let m = events::SbMount::from_record(&alerts::SbMount::new(7, 900), &resolver);
    assert_eq!(m.subject, PolicySubject::Binary("/usr/bin/nc".to_string()));
    let x = events::BprmCheckSecurity::from_record(&alerts::BprmCheckSecurity::new(8, 0), &resolver);
    assert_eq!(x.subject, PolicySubject::All);
}

#[test]
fn records_from_bytes() {
    let mut b = vec![0u8; 24];
    b[0..4].copy_from_slice(&0x01020304u32.to_le_bytes());
    b[8..16].copy_from_slice(&0x1122334455667788u64.to_le_bytes());
    b[16..18].copy_from_slice(&8000u16.to_le_bytes());
    let r = alerts::SocketBind::from_bytes(&b).unwrap();
    assert_eq!((r.pid, r.binprm_inode, r.port), (0x01020304, 0x1122334455667788, 8000));
    assert!(alerts::SocketBind::from_bytes(&b[..23]).is_none());
    let f = alerts::FileOpen::from_bytes(&b).unwrap();
    assert_eq!(f.inode, 8000);
    let mut c = vec![0u8; 48];
    c[16..20].copy_from_slice(&0x7f010203u32.to_le_bytes());
    c[24..40].copy_from_slice(&[9u8; 16]);
    c[40..42].copy_from_slice(&443u16.to_le_bytes());
    let r = alerts::SocketConnect::from_bytes(&c).unwrap();
    assert_eq!((r.addr_v4, r.addr_v6, r.port), (0x7f010203, [9u8; 16], 443));
    let mut s = vec![0u8; 32];
    s[28..32].copy_from_slice(&77u32.to_le_bytes());
    assert_eq!(alerts::TaskFixSetuid::from_bytes(&s).unwrap().new_gid, 77);
    assert_eq!(alerts::SbMount::from_bytes(&s[..16]).unwrap().pid, 0);
    assert!(alerts::BprmCheckSecurity::from_bytes(&s[..15]).is_none());
    assert_eq!(alerts::SbRemount::SIZE, 16);
    assert_eq!(alerts::SbUmount::from_bytes(&s).unwrap().binprm_inode, 0);
}
