//! Typed alerts for user space, built from the records that the hooks
//! emit: the executable and the file stand as subjects and paths.
use vstd::prelude::*;
use crate::alerts;
use crate::inode::{InodeSubjectMap, subject_of, subject_view};
use crate::policy::{IpAddress, PolicySubject};

verus! {

/// Marker for the typed alerts.
pub trait Alert {}

#[derive(Debug, PartialEq, Eq, Clone)]
pub struct BprmCheckSecurity {
    pub pid: u32,
    pub subject: PolicySubject,
}

#[derive(Debug, PartialEq, Eq, Clone)]
pub struct FileOpen {
    pub pid: u32,
    pub subject: PolicySubject,
    pub path: PolicySubject,
}

#[derive(Debug, PartialEq, Eq, Clone)]
pub struct TaskFixSetuid {
    pub pid: u32,
    pub subject: PolicySubject,
    pub old_uid: u32,
    pub old_gid: u32,
    pub new_uid: u32,
    pub new_gid: u32,
}

#[derive(Debug, PartialEq, Eq, Clone)]
pub struct SbMount {
    pub pid: u32,
    pub subject: PolicySubject,
}

#[derive(Debug, PartialEq, Eq, Clone)]
pub struct SbRemount {
    pub pid: u32,
    pub subject: PolicySubject,
}

#[derive(Debug, PartialEq, Eq, Clone)]
pub struct SbUmount {
    pub pid: u32,
    pub subject: PolicySubject,
}

#[derive(Debug, PartialEq, Eq, Clone)]
pub struct SocketBind {
    pub pid: u32,
    pub subject: PolicySubject,
    pub port: u16,
}

#[derive(Debug, PartialEq, Eq, Clone)]
pub struct SocketConnect {
    pub pid: u32,
    pub subject: PolicySubject,
    pub addr: IpAddress,
    pub port: u16,
}

impl Alert for BprmCheckSecurity {}

impl Alert for FileOpen {}

impl Alert for TaskFixSetuid {}

impl Alert for SbMount {}

impl Alert for SbRemount {}

impl Alert for SbUmount {}

impl Alert for SocketBind {}

impl Alert for SocketConnect {}

/// The address that a connect alert carries: IPv4 where its IPv4 field is
/// set, else IPv6.
pub open spec fn connect_addr(a: alerts::SocketConnect) -> IpAddress {
    if a.addr_v4 != 0 {
        IpAddress::V4(a.addr_v4)
    } else {
        IpAddress::V6(a.addr_v6)
    }
}

impl BprmCheckSecurity {
    pub fn from_record(a: &alerts::BprmCheckSecurity, resolver: &InodeSubjectMap) -> (r: Self)
        ensures
            r.pid == a.pid,
            subject_view(r.subject) == subject_of(resolver@, a.binprm_inode),
    {
        BprmCheckSecurity { pid: a.pid, subject: resolver.resolve_inode(a.binprm_inode) }
    }
}

impl FileOpen {
    pub fn from_record(a: &alerts::FileOpen, resolver: &InodeSubjectMap) -> (r: Self)
        ensures
            r.pid == a.pid,
            subject_view(r.subject) == subject_of(resolver@, a.binprm_inode),
            subject_view(r.path) == subject_of(resolver@, a.inode),
    {
        FileOpen {
            pid: a.pid,
            subject: resolver.resolve_inode(a.binprm_inode),
            path: resolver.resolve_inode(a.inode),
        }
    }
}

impl TaskFixSetuid {
    pub fn from_record(a: &alerts::TaskFixSetuid, resolver: &InodeSubjectMap) -> (r: Self)
        ensures
            r.pid == a.pid,
            subject_view(r.subject) == subject_of(resolver@, a.binprm_inode),
            r.old_uid == a.old_uid && r.old_gid == a.old_gid,
            r.new_uid == a.new_uid && r.new_gid == a.new_gid,
    {
        TaskFixSetuid {
            pid: a.pid,
            subject: resolver.resolve_inode(a.binprm_inode),
            old_uid: a.old_uid,
            old_gid: a.old_gid,
            new_uid: a.new_uid,
            new_gid: a.new_gid,
        }
    }
}

impl SbMount {
    pub fn from_record(a: &alerts::SbMount, resolver: &InodeSubjectMap) -> (r: Self)
        ensures
            r.pid == a.pid,
            subject_view(r.subject) == subject_of(resolver@, a.binprm_inode),
    {
        SbMount { pid: a.pid, subject: resolver.resolve_inode(a.binprm_inode) }
    }
}

impl SbRemount {
    pub fn from_record(a: &alerts::SbRemount, resolver: &InodeSubjectMap) -> (r: Self)
        ensures
            r.pid == a.pid,
            subject_view(r.subject) == subject_of(resolver@, a.binprm_inode),
    {
        SbRemount { pid: a.pid, subject: resolver.resolve_inode(a.binprm_inode) }
    }
}

impl SbUmount {
    pub fn from_record(a: &alerts::SbUmount, resolver: &InodeSubjectMap) -> (r: Self)
        ensures
            r.pid == a.pid,
            subject_view(r.subject) == subject_of(resolver@, a.binprm_inode),
    {
        SbUmount { pid: a.pid, subject: resolver.resolve_inode(a.binprm_inode) }
    }
}

impl SocketBind {
    pub fn from_record(a: &alerts::SocketBind, resolver: &InodeSubjectMap) -> (r: Self)
        ensures
            r.pid == a.pid,
            subject_view(r.subject) == subject_of(resolver@, a.binprm_inode),
            r.port == a.port,
    {
        SocketBind { pid: a.pid, subject: resolver.resolve_inode(a.binprm_inode), port: a.port }
    }
}

impl SocketConnect {
    pub fn from_record(a: &alerts::SocketConnect, resolver: &InodeSubjectMap) -> (r: Self)
        ensures
            r.pid == a.pid,
            subject_view(r.subject) == subject_of(resolver@, a.binprm_inode),
            r.addr == connect_addr(*a),
            r.port == a.port,
    {
        let addr = if a.addr_v4 != 0 {
            IpAddress::V4(a.addr_v4)
        } else {
            IpAddress::V6(a.addr_v6)
        };
        SocketConnect {
            pid: a.pid,
            subject: resolver.resolve_inode(a.binprm_inode),
            addr,
            port: a.port,
        }
    }
}

} // verus!
