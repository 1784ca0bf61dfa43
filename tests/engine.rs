use ebpfguard::engine::{evaluate, Action, FileTarget, Lookup, Mode, AF_INET, AF_INET6, check_entry};
use ebpfguard::hooks::{
    bprm_check_security, file_open, sb_mount, sb_remount, sb_umount, socket_bind, socket_connect,
    task_fix_setuid, SocketAddress,
};
use ebpfguard::records::{Ipv4Addrs, Ipv6Addrs, Paths, Ports};

fn none<V>() -> Lookup<V> {
    Lookup { allowed_wild: None, denied_wild: None, allowed_image: None, denied_image: None }
}

fn ports(list: [u16; 4]) -> Option<Ports> {
    Some(Ports::new(list))
}

fn target(inode: u64, ancestors: Vec<u64>) -> FileTarget {
    FileTarget { inode, ancestors }
}

#[test]
fn no_policy_allows_every_hook() {
    let v = socket_bind(&none(), AF_INET, 8000, 1, Some(42));
    assert_eq!(v.action, Action::Allow);
    assert!(v.alert.is_none());
    let v = file_open(&none(), &target(5, vec![4, 3]), 1, Some(42));
    assert_eq!(v.action, Action::Allow);
    assert!(v.alert.is_none());
    let v = socket_connect(&none(), &none(), &SocketAddress::V4 { addr: 0x7f010203, port: 80 }, 1, Some(42));
    assert_eq!(v.action, Action::Allow);
    assert!(v.alert.is_none());
    let v = task_fix_setuid(&none(), 0, 0, 1000, 1000, 1, Some(42));
    assert_eq!(v.action, Action::Allow);
    assert!(sb_mount(&none(), 1, Some(42)).alert.is_none());
    assert!(sb_remount(&none(), 1, Some(42)).alert.is_none());
    assert!(sb_umount(&none(), 1, Some(42)).alert.is_none());
}

#[test]
fn contradiction_denies_with_alert() {
    let lk = Lookup {
        allowed_wild: Some(Ports::new_all()),
        denied_wild: Some(Ports::new_all()),
        allowed_image: None,
        denied_image: None,
    };
    let v = socket_bind(&lk, AF_INET, 8080, 77, Some(42));
    assert_eq!(v.action, Action::Deny);
    let alert = v.alert.unwrap();
    assert_eq!(alert.pid, 77);
    assert_eq!(alert.binprm_inode, 42);
    assert_eq!(alert.port, 8080);
    // Port 0 is allowed before any table is consulted.
    let v = socket_bind(&lk, AF_INET, 0, 77, Some(42));
    assert_eq!(v.action, Action::Allow);
    assert!(v.alert.is_none());
}

#[test]
fn flag_contradiction_denies() {
    let lk: Lookup<u8> = Lookup {
        allowed_wild: Some(0),
        denied_wild: Some(0),
        allowed_image: None,
        denied_image: None,
    };
    let v = task_fix_setuid(&lk, 1, 2, 3, 4, 9, Some(42));
    assert_eq!(v.action, Action::Deny);
    let a = v.alert.unwrap();
    assert_eq!((a.old_uid, a.old_gid, a.new_uid, a.new_gid), (1, 2, 3, 4));
}

#[test]
fn allow_all_allows_every_argument() {
    let lk = Lookup { allowed_wild: Some(Ports::new_all()), denied_wild: None, allowed_image: None, denied_image: None };
    for port in [1u16, 80, 443, 8000, 65535] {
        assert_eq!(socket_bind(&lk, AF_INET, port, 1, Some(9)).action, Action::Allow);
    }
}

#[test]
fn deny_all_denies_every_argument() {
    let lk = Lookup { allowed_wild: None, denied_wild: Some(Ports::new_all()), allowed_image: None, denied_image: None };
    for port in [1u16, 80, 443, 8000, 65535] {
        assert_eq!(socket_bind(&lk, AF_INET6, port, 1, Some(9)).action, Action::Deny);
    }
    let lk: Lookup<u8> = Lookup { allowed_wild: None, denied_wild: Some(0), allowed_image: None, denied_image: None };
    assert_eq!(sb_mount(&lk, 1, Some(9)).action, Action::Deny);
    assert_eq!(sb_remount(&lk, 1, Some(9)).action, Action::Deny);
    assert_eq!(sb_umount(&lk, 1, Some(9)).action, Action::Deny);
}

#[test]
fn file_open_ancestor_matches() {
    let lk = Lookup {
        allowed_wild: Some(Paths::new_all()),
        denied_wild: Some(Paths::new([100, 0, 0, 0])),
        allowed_image: None,
        denied_image: None,
    };
    assert_eq!(file_open(&lk, &target(100, vec![2]), 1, Some(9)).action, Action::Deny);
    assert_eq!(file_open(&lk, &target(300, vec![100, 2]), 1, Some(9)).action, Action::Deny);
    assert_eq!(file_open(&lk, &target(400, vec![300, 100, 2]), 1, Some(9)).action, Action::Deny);
    let v = file_open(&lk, &target(500, vec![200, 2]), 1, Some(9));
    assert_eq!(v.action, Action::Allow);
    assert!(v.alert.is_none());
    let v = file_open(&lk, &target(400, vec![300, 100, 2]), 5, Some(9));
    assert_eq!(v.alert.unwrap().inode, 400);
}

#[test]
fn walk_stops_at_self_loop_and_depth() {
    let lk = Lookup {
        allowed_wild: Some(Paths::new_all()),
        denied_wild: Some(Paths::new([100, 0, 0, 0])),
        allowed_image: None,
        denied_image: None,
    };
    // A self-loop ends the walk before the listed directory.
    assert_eq!(file_open(&lk, &target(7, vec![8, 8, 100]), 1, Some(9)).action, Action::Allow);
    // The sixteenth ancestor is still consulted, the seventeenth is not.
    let mut within: Vec<u64> = (1000..1015).collect();
    within.push(100);
    assert_eq!(within.len(), 16);
    assert_eq!(file_open(&lk, &target(7, within), 1, Some(9)).action, Action::Deny);
    let mut beyond: Vec<u64> = (1000..1016).collect();
    beyond.push(100);
    assert_eq!(file_open(&lk, &target(7, beyond), 1, Some(9)).action, Action::Allow);
}

#[test]
fn bind_and_connect_early_exits() {
    let lk = Lookup { allowed_wild: None, denied_wild: Some(Ports::new_all()), allowed_image: None, denied_image: None };
    assert_eq!(socket_bind(&lk, AF_INET, 0, 1, Some(9)).action, Action::Allow);
    assert_eq!(socket_bind(&lk, 1, 8000, 1, Some(9)).action, Action::Allow);
    let v4 = Lookup { allowed_wild: None, denied_wild: Some(Ipv4Addrs::new_all()), allowed_image: None, denied_image: None };
    let v6 = Lookup { allowed_wild: None, denied_wild: Some(Ipv6Addrs::new_all()), allowed_image: None, denied_image: None };
    assert_eq!(socket_connect(&v4, &v6, &SocketAddress::Other { family: 1 }, 1, Some(9)).action, Action::Allow);
    assert_eq!(socket_connect(&v4, &v6, &SocketAddress::V6 { addr: [1; 16], port: 1 }, 1, Some(9)).action, Action::Deny);
}

#[test]
fn unreadable_image_fails_open() {
    let lk = Lookup { allowed_wild: None, denied_wild: Some(Ports::new_all()), allowed_image: None, denied_image: None };
    let v = socket_bind(&lk, AF_INET, 8000, 1, None);
    assert_eq!(v.action, Action::Allow);
    assert!(v.alert.is_none());
    assert_eq!(bprm_check_security(0, 1, None).action, Action::Allow);
}

#[test]
fn exec_without_arguments_is_denied() {
    let v = bprm_check_security(0, 12, Some(34));
    assert_eq!(v.action, Action::Deny);
    let a = v.alert.unwrap();
    assert_eq!((a.pid, a.binprm_inode), (12, 34));
    let v = bprm_check_security(1, 12, Some(34));
    assert_eq!(v.action, Action::Allow);
    assert!(v.alert.is_none());
}

#[test]
fn image_entry_carves_out_of_allowlist() {
    let lk = Lookup {
        allowed_wild: None,
        denied_wild: Some(Ports::new_all()),
        allowed_image: ports([80, 443, 0, 0]),
        denied_image: None,
    };
    assert_eq!(socket_bind(&lk, AF_INET, 443, 1, Some(9)).action, Action::Allow);
    assert_eq!(socket_bind(&lk, AF_INET, 8080, 1, Some(9)).action, Action::Deny);
}

#[test]
fn honored_slots() {
    let p = Ports::new([1, 2, 3, 4]);
    assert!(p.lists(1) && p.lists(2) && p.lists(3));
    assert!(!p.lists(4));
    assert!(!p.all());
    assert!(Ports::new_all().all());
    let lk = Lookup { allowed_wild: Some(Ports::new_all()), denied_wild: Some(p), allowed_image: None, denied_image: None };
    assert_eq!(socket_bind(&lk, AF_INET, 3, 1, Some(9)).action, Action::Deny);
    assert_eq!(socket_bind(&lk, AF_INET, 4, 1, Some(9)).action, Action::Allow);
}

#[test]
fn action_codes() {
    assert_eq!(i32::from(Action::Allow), 0);
    assert_eq!(i32::from(Action::Deny), -1);
}

#[test]
fn check_entry_by_mode() {
    let e = ports([22, 0, 0, 0]);
    assert_eq!(check_entry(&e, &22u16, Mode::Denylist), Some(Action::Deny));
    assert_eq!(check_entry(&e, &22u16, Mode::Allowlist), Some(Action::Allow));
    assert_eq!(check_entry(&e, &23u16, Mode::Allowlist), None);
    assert_eq!(check_entry::<u16, Ports>(&None, &22u16, Mode::Allowlist), None);
    let lk = Lookup { allowed_wild: None, denied_wild: Some(Ports::new_all()), allowed_image: None, denied_image: None };
    assert_eq!(evaluate(&lk, &22u16), Action::Deny);
}
