//! Hook entry points: the early exits of each hook, the two-table evaluation,
//! and the alert that a denial emits.
//!
//! Each takes what the hook read: the table entries, the hook's argument, the
//! caller's pid and the inode of its executable image, or `None` where that
//! inode could not be read (the hook then fails open).
use vstd::prelude::*;
use crate::alerts;
use crate::engine::{
    Action, AF_INET, AF_INET6, FileTarget, Lookup, PolicySet, decide, evaluate,
};
use crate::records::{Ipv4Addrs, Ipv6Addrs, Paths, Ports};

verus! {

/// A verdict and the alert it emits: one exactly when it denies.
pub struct Verdict<T> {
    pub action: Action,
    pub alert: Option<T>,
}

/// The address of a socket operation, as its family gives it.
pub enum SocketAddress {
    V4 { addr: u32, port: u16 },
    V6 { addr: [u8; 16], port: u16 },
    /// Any other family.
    Other { family: u16 },
}

/// The verdict of a governed hook once the image inode is known; allow when
/// it could not be read.
pub open spec fn hook_action<A, V: PolicySet<A>>(lk: Lookup<V>, arg: A, image: Option<u64>) -> Action {
    match image {
        None => Action::Allow,
        Some(_) => decide(lk, arg),
    }
}

fn governed<A, V: PolicySet<A>>(lk: &Lookup<V>, arg: &A, image: Option<u64>) -> (r: Action)
    ensures
        r == hook_action(*lk, *arg, image),
{
    match image {
        None => Action::Allow,
        Some(_) => evaluate(lk, arg),
    }
}

/// Decides a file open of `target`, where any ancestor directory listed in the
/// consulted set counts as the file itself.
pub fn file_open(lk: &Lookup<Paths>, target: &FileTarget, pid: u32, image: Option<u64>) -> (r:
    Verdict<alerts::FileOpen>)
    ensures
        r.action == hook_action(*lk, *target, image),
        r.alert is Some <==> r.action == Action::Deny,
        r.alert is Some ==> r.alert->0.pid == pid && Some(r.alert->0.binprm_inode) == image
            && r.alert->0.inode == target.inode,
{
    let action = governed(lk, target, image);
    match (action, image) {
        (Action::Deny, Some(inode)) => Verdict {
            action,
            alert: Some(alerts::FileOpen::new(pid, inode, target.inode)),
        },
        _ => Verdict { action, alert: None },
    }
}

/// The verdict of a bind: families other than IPv4 and IPv6, and port 0, are
/// allowed before any table is consulted.
pub open spec fn bind_action(lk: Lookup<Ports>, family: u16, port: u16, image: Option<u64>) -> Action {
    if (family != AF_INET && family != AF_INET6) || port == 0 {
        Action::Allow
    } else {
        hook_action(lk, port, image)
    }
}

/// Decides a socket bind on `port` (host byte order) for address `family`.
pub fn socket_bind(lk: &Lookup<Ports>, family: u16, port: u16, pid: u32, image: Option<u64>) -> (r:
    Verdict<alerts::SocketBind>)
    ensures
        r.action == bind_action(*lk, family, port, image),
        r.alert is Some <==> r.action == Action::Deny,
        r.alert is Some ==> r.alert->0.pid == pid && Some(r.alert->0.binprm_inode) == image
            && r.alert->0.port == port,
{
    if family != AF_INET && family != AF_INET6 {
        return Verdict { action: Action::Allow, alert: None };
    }
    if port == 0 {
        return Verdict { action: Action::Allow, alert: None };
    }
    let action = governed(lk, &port, image);
    match (action, image) {
        (Action::Deny, Some(inode)) => Verdict {
            action,
            alert: Some(alerts::SocketBind::new(pid, inode, port)),
        },
        _ => Verdict { action, alert: None },
    }
}

/// The verdict of a connect: IPv4 addresses go by the IPv4 tables, IPv6
/// addresses by the IPv6 tables, other families are allowed.
pub open spec fn connect_action(
    v4: Lookup<Ipv4Addrs>,
    v6: Lookup<Ipv6Addrs>,
    addr: SocketAddress,
    image: Option<u64>,
) -> Action {
    match addr {
        SocketAddress::V4 { addr, port } => hook_action(v4, addr, image),
        SocketAddress::V6 { addr, port } => hook_action(v6, addr, image),
        SocketAddress::Other { family } => Action::Allow,
    }
}

/// Decides a socket connect to `addr`.
pub fn socket_connect(
    v4: &Lookup<Ipv4Addrs>,
    v6: &Lookup<Ipv6Addrs>,
    addr: &SocketAddress,
    pid: u32,
    image: Option<u64>,
) -> (r: Verdict<alerts::SocketConnect>)
    ensures
        r.action == connect_action(*v4, *v6, *addr, image),
        r.alert is Some <==> r.action == Action::Deny,
        r.alert is Some ==> r.alert->0.pid == pid && Some(r.alert->0.binprm_inode) == image,
        r.alert is Some && addr is V4 ==> r.alert->0.addr_v4 == addr->V4_addr
            && r.alert->0.port == addr->V4_port,
        r.alert is Some && addr is V6 ==> r.alert->0.addr_v6 == addr->V6_addr
            && r.alert->0.addr_v4 == 0 && r.alert->0.port == addr->V6_port,
{
    match addr {
        SocketAddress::V4 { addr, port } => {
            let action = governed(v4, addr, image);
            match (action, image) {
                (Action::Deny, Some(inode)) => Verdict {
                    action,
                    alert: Some(alerts::SocketConnect::new_ipv4(pid, inode, *addr, *port)),
                },
                _ => Verdict { action, alert: None },
            }
        },
        SocketAddress::V6 { addr, port } => {
            let action = governed(v6, addr, image);
            match (action, image) {
                (Action::Deny, Some(inode)) => Verdict {
                    action,
                    alert: Some(alerts::SocketConnect::new_ipv6(pid, inode, *addr, *port)),
                },
                _ => Verdict { action, alert: None },
            }
        },
        SocketAddress::Other { .. } => Verdict { action: Action::Allow, alert: None },
    }
}

/// Decides a credential change from `old_uid`/`old_gid` to
/// `new_uid`/`new_gid`, by the boolean setuid tables.
pub fn task_fix_setuid(
    lk: &Lookup<u8>,
    old_uid: u32,
    old_gid: u32,
    new_uid: u32,
    new_gid: u32,
    pid: u32,
    image: Option<u64>,
) -> (r: Verdict<alerts::TaskFixSetuid>)
    ensures
        r.action == hook_action(*lk, (), image),
        r.alert is Some <==> r.action == Action::Deny,
        r.alert is Some ==> r.alert->0.pid == pid && Some(r.alert->0.binprm_inode) == image
            && r.alert->0.old_uid == old_uid && r.alert->0.old_gid == old_gid
            && r.alert->0.new_uid == new_uid && r.alert->0.new_gid == new_gid,
{
    let action = governed(lk, &(), image);
    match (action, image) {
        (Action::Deny, Some(inode)) => Verdict {
            action,
            alert: Some(
                alerts::TaskFixSetuid::new(pid, inode, old_uid, old_gid, new_uid, new_gid),
            ),
        },
        _ => Verdict { action, alert: None },
    }
}

/// Decides a filesystem mount by the boolean mount tables.
pub fn sb_mount(lk: &Lookup<u8>, pid: u32, image: Option<u64>) -> (r: Verdict<alerts::SbMount>)
    ensures
        r.action == hook_action(*lk, (), image),
        r.alert is Some <==> r.action == Action::Deny,
        r.alert is Some ==> r.alert->0.pid == pid && Some(r.alert->0.binprm_inode) == image,
{
    let action = governed(lk, &(), image);
    match (action, image) {
        (Action::Deny, Some(inode)) => Verdict {
            action,
            alert: Some(alerts::SbMount::new(pid, inode)),
        },
        _ => Verdict { action, alert: None },
    }
}

/// Decides a filesystem remount by the boolean remount tables.
pub fn sb_remount(lk: &Lookup<u8>, pid: u32, image: Option<u64>) -> (r: Verdict<alerts::SbRemount>)
    ensures
        r.action == hook_action(*lk, (), image),
        r.alert is Some <==> r.action == Action::Deny,
        r.alert is Some ==> r.alert->0.pid == pid && Some(r.alert->0.binprm_inode) == image,
{
    let action = governed(lk, &(), image);
    match (action, image) {
        (Action::Deny, Some(inode)) => Verdict {
            action,
            alert: Some(alerts::SbRemount::new(pid, inode)),
        },
        _ => Verdict { action, alert: None },
    }
}

/// Decides a filesystem unmount by the boolean unmount tables.
pub fn sb_umount(lk: &Lookup<u8>, pid: u32, image: Option<u64>) -> (r: Verdict<alerts::SbUmount>)
    ensures
        r.action == hook_action(*lk, (), image),
        r.alert is Some <==> r.action == Action::Deny,
        r.alert is Some ==> r.alert->0.pid == pid && Some(r.alert->0.binprm_inode) == image,
{
    let action = governed(lk, &(), image);
    match (action, image) {
        (Action::Deny, Some(inode)) => Verdict {
            action,
            alert: Some(alerts::SbUmount::new(pid, inode)),
        },
        _ => Verdict { action, alert: None },
    }
}

/// Decides a program execution: one with no arguments at all is denied.
pub fn bprm_check_security(argc: i32, pid: u32, image: Option<u64>) -> (r: Verdict<
    alerts::BprmCheckSecurity,
>)
    ensures
        r.action == (if image is Some && argc < 1 {
            Action::Deny
        } else {
            Action::Allow
        }),
        r.alert is Some <==> r.action == Action::Deny,
        r.alert is Some ==> r.alert->0.pid == pid && Some(r.alert->0.binprm_inode) == image,
{
    match image {
        Some(inode) => {
            if argc < 1 {
                Verdict {
                    action: Action::Deny,
                    alert: Some(alerts::BprmCheckSecurity::new(pid, inode)),
                }
            } else {
                Verdict { action: Action::Allow, alert: None }
            }
        },
        None => Verdict { action: Action::Allow, alert: None },
    }
}

} // verus!
