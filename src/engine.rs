//! The decision each hook takes for one event.
//!
//! A hook looks up four entries: the wildcard subject and the calling
//! executable's image inode, in the ALLOWED and in the DENIED table. The
//! wildcard entries fix the mode; the opposing table then decides.
use vstd::prelude::*;
use crate::alerts;
use crate::records::{IpAddrs, Ipv4Addrs, Ipv6Addrs, Paths, Ports};

verus! {

/// Table key that stands for every executable.
pub const INODE_WILDCARD: u64 = 0;

/// Deepest ancestor directory that a file-open check consults.
pub const MAX_DIR_DEPTH: usize = 16;

/// Address family of IPv4 socket addresses.
pub const AF_INET: u16 = 2;

/// Address family of IPv6 socket addresses.
pub const AF_INET6: u16 = 10;

/// Effective mode of a governed hook.
#[derive(PartialEq, Eq, Structural, Clone, Copy, Debug)]
pub enum Mode {
    /// Everything is denied but what the ALLOWED table carves out.
    Allowlist,
    /// Everything is allowed but what the DENIED table carves out.
    Denylist,
}

/// Verdict on one operation.
#[derive(PartialEq, Eq, Structural, Clone, Copy, Debug)]
pub enum Action {
    Allow,
    Deny,
}

/// Return code of a hook program for a verdict.
pub open spec fn action_code(action: Action) -> i32 {
    match action {
        Action::Allow => 0i32,
        Action::Deny => -1i32,
    }
}

impl From<Action> for i32 {
    fn from(action: Action) -> (r: i32) {
        match action {
            Action::Allow => 0,
            Action::Deny => -1,
        }
    }
}

impl vstd::std_specs::convert::FromSpecImpl<Action> for i32 {
    open spec fn obeys_from_spec() -> bool {
        true
    }

    open spec fn from_spec(action: Action) -> i32 {
        action_code(action)
    }
}

/// A set value of a policy table, tested against the argument of a hook.
pub trait PolicySet<A> {
    /// The value holds the "all" sentinel.
    spec fn covers_all(&self) -> bool;

    /// The argument is a member of the value's bounded set.
    spec fn matches(&self, arg: A) -> bool;

    fn is_all(&self) -> (r: bool)
        ensures
            r == self.covers_all(),
    ;

    fn contains(&self, arg: &A) -> (r: bool)
        ensures
            r == self.matches(*arg),
    ;
}

/// What a file-open check reads of the opened file: its inode and the
/// inodes of its ancestor directories, nearest first, as far as parent links
/// lead.
pub struct FileTarget {
    pub inode: u64,
    pub ancestors: Vec<u64>,
}

/// The inode that the `i`-th ancestor is compared with to detect a
/// self-loop: the file itself for the first, else the ancestor before.
pub open spec fn previous(inode: u64, ancestors: Seq<u64>, i: int) -> u64 {
    if i == 0 {
        inode
    } else {
        ancestors[i - 1]
    }
}

/// The walk up the parent links reaches the `i`-th ancestor: within the
/// depth bound, before the end of the chain, and with no self-loop up to it.
pub open spec fn walk_reaches(inode: u64, ancestors: Seq<u64>, i: int) -> bool {
    &&& 0 <= i < MAX_DIR_DEPTH
    &&& i < ancestors.len()
    &&& forall|j: int| 0 <= j <= i ==> ancestors[j] != previous(inode, ancestors, j)
}

/// A path set matches a file when it lists the file or one of the ancestors
/// that the walk reaches.
pub open spec fn paths_match(paths: Paths, inode: u64, ancestors: Seq<u64>) -> bool {
    paths.spec_lists(inode) || exists|i: int|
        walk_reaches(inode, ancestors, i) && #[trigger] paths.spec_lists(ancestors[i])
}

impl PolicySet<FileTarget> for Paths {
    open spec fn covers_all(&self) -> bool {
        self.spec_all()
    }

    open spec fn matches(&self, arg: FileTarget) -> bool {
        paths_match(*self, arg.inode, arg.ancestors@)
    }

    fn is_all(&self) -> (r: bool) {
        self.all()
    }

    fn contains(&self, arg: &FileTarget) -> (r: bool) {
        if self.lists(arg.inode) {
            return true;
        }
        check_parents(self, arg)
    }
}

/// Walks the ancestors of the file, at most `MAX_DIR_DEPTH` of them, and
/// stops at the end of the chain or at a self-loop.
fn check_parents(paths: &Paths, target: &FileTarget) -> (r: bool)
    ensures
        r == exists|i: int|
            walk_reaches(target.inode, target.ancestors@, i) && #[trigger] paths.spec_lists(
                target.ancestors@[i],
            ),
{
    let ghost anc = target.ancestors@;
    let mut previous_inode: u64 = target.inode;
    let mut i: usize = 0;
    while i < MAX_DIR_DEPTH && i < target.ancestors.len()
        invariant
            0 <= i <= MAX_DIR_DEPTH,
            i <= anc.len(),
            anc == target.ancestors@,
            previous_inode == previous(target.inode, anc, i as int),
            forall|j: int| 0 <= j < i ==> anc[j] != previous(target.inode, anc, j),
            forall|j: int| 0 <= j < i ==> !#[trigger] paths.spec_lists(anc[j]),
        decreases MAX_DIR_DEPTH - i,
    {
        let inode = target.ancestors[i];
        if inode == previous_inode {
            assert forall|k: int| walk_reaches(target.inode, anc, k) implies !#[trigger] paths.spec_lists(anc[k]) by {
                if k >= i {
                    assert(anc[i as int] == previous(target.inode, anc, i as int));
                }
            }
            return false;
        }
        if paths.lists(inode) {
            assert(walk_reaches(target.inode, anc, i as int));
            return true;
        }
        previous_inode = inode;
        i = i + 1;
    }
    false
}

impl PolicySet<u16> for Ports {
    open spec fn covers_all(&self) -> bool {
        self.spec_all()
    }

    open spec fn matches(&self, arg: u16) -> bool {
        self.spec_lists(arg)
    }

    fn is_all(&self) -> (r: bool) {
        self.all()
    }

    fn contains(&self, arg: &u16) -> (r: bool) {
        self.lists(*arg)
    }
}

impl PolicySet<u32> for Ipv4Addrs {
    open spec fn covers_all(&self) -> bool {
        IpAddrs::<u32>::spec_all(self)
    }

    open spec fn matches(&self, arg: u32) -> bool {
        IpAddrs::<u32>::spec_lists(self, arg)
    }

    fn is_all(&self) -> (r: bool) {
        IpAddrs::<u32>::all(self)
    }

    fn contains(&self, arg: &u32) -> (r: bool) {
        IpAddrs::<u32>::lists(self, arg)
    }
}

impl PolicySet<[u8; 16]> for Ipv6Addrs {
    open spec fn covers_all(&self) -> bool {
        IpAddrs::<[u8; 16]>::spec_all(self)
    }

    open spec fn matches(&self, arg: [u8; 16]) -> bool {
        IpAddrs::<[u8; 16]>::spec_lists(self, arg)
    }

    fn is_all(&self) -> (r: bool) {
        IpAddrs::<[u8; 16]>::all(self)
    }

    fn contains(&self, arg: &[u8; 16]) -> (r: bool) {
        IpAddrs::<[u8; 16]>::lists(self, arg)
    }
}

/// The value of a boolean table: the presence of the key is the statement,
/// and it always means "all"; the byte itself is padding.
impl PolicySet<()> for u8 {
    open spec fn covers_all(&self) -> bool {
        true
    }

    open spec fn matches(&self, arg: ()) -> bool {
        false
    }

    fn is_all(&self) -> (r: bool) {
        true
    }

    fn contains(&self, arg: &()) -> (r: bool) {
        false
    }
}

/// The four entries that one hook invocation consults.
pub struct Lookup<V> {
    pub allowed_wild: Option<V>,
    pub denied_wild: Option<V>,
    pub allowed_image: Option<V>,
    pub denied_image: Option<V>,
}

/// The entry of `m` at key `k`, if any.
pub open spec fn entry<V>(m: Map<u64, V>, k: u64) -> Option<V> {
    if m.dom().contains(k) {
        Some(m[k])
    } else {
        None
    }
}

/// What a hook reads from the tables `allowed` and `denied` for the
/// executable with image inode `image`.
pub open spec fn lookup_of<V>(allowed: Map<u64, V>, denied: Map<u64, V>, image: u64) -> Lookup<V> {
    Lookup {
        allowed_wild: entry(allowed, INODE_WILDCARD),
        denied_wild: entry(denied, INODE_WILDCARD),
        allowed_image: entry(allowed, image),
        denied_image: entry(denied, image),
    }
}

/// An entry holds the "all" sentinel.
pub open spec fn entry_all<A, V: PolicySet<A>>(e: Option<V>) -> bool {
    e is Some && e->0.covers_all()
}

/// An entry decides for the argument: it holds "all" or lists the argument.
pub open spec fn entry_hit<A, V: PolicySet<A>>(e: Option<V>, arg: A) -> bool {
    e is Some && (e->0.covers_all() || e->0.matches(arg))
}

/// The mode that the wildcard entries establish, or none when the hook is not
/// governed.
pub open spec fn mode_of<A, V: PolicySet<A>>(lk: Lookup<V>) -> Option<Mode> {
    if entry_all::<A, V>(lk.allowed_wild) {
        Some(Mode::Denylist)
    } else if entry_all::<A, V>(lk.denied_wild) {
        Some(Mode::Allowlist)
    } else {
        None
    }
}

/// The verdict of the two-table evaluation.
pub open spec fn decide<A, V: PolicySet<A>>(lk: Lookup<V>, arg: A) -> Action {
    match mode_of::<A, V>(lk) {
        None => Action::Allow,
        Some(Mode::Denylist) => if entry_hit(lk.denied_wild, arg) || entry_hit(
            lk.denied_image,
            arg,
        ) {
            Action::Deny
        } else {
            Action::Allow
        },
        Some(Mode::Allowlist) => if entry_hit(lk.allowed_wild, arg) || entry_hit(
            lk.allowed_image,
            arg,
        ) {
            Action::Allow
        } else {
            Action::Deny
        },
    }
}

/// The verdict that a hit in the opposing table gives in `mode`.
pub open spec fn hit_action(mode: Mode) -> Action {
    match mode {
        Mode::Allowlist => Action::Allow,
        Mode::Denylist => Action::Deny,
    }
}

/// The verdict when no entry of the opposing table decides.
pub open spec fn default_action(mode: Mode) -> Action {
    match mode {
        Mode::Allowlist => Action::Deny,
        Mode::Denylist => Action::Allow,
    }
}

/// Tests one entry of the opposing table: a verdict when it decides.
pub fn check_entry<A, V: PolicySet<A>>(e: &Option<V>, arg: &A, mode: Mode) -> (r: Option<Action>)
    ensures
        r == (if entry_hit(*e, *arg) {
            Some(hit_action(mode))
        } else {
            None::<Action>
        }),
{
    match e {
        Some(v) => {
            if v.is_all() || v.contains(arg) {
                Some(match mode {
                    Mode::Allowlist => Action::Allow,
                    Mode::Denylist => Action::Deny,
                })
            } else {
                None
            }
        },
        None => None,
    }
}

/// Evaluates the opposing table in `mode`: its wildcard entry, then the entry
/// of the image inode, then the mode's default.
pub fn check_conditions<A, V: PolicySet<A>>(
    wild: &Option<V>,
    image: &Option<V>,
    arg: &A,
    mode: Mode,
) -> (r: Action)
    ensures
        r == (if entry_hit(*wild, *arg) || entry_hit(*image, *arg) {
            hit_action(mode)
        } else {
            default_action(mode)
        }),
{
    if let Some(action) = check_entry(wild, arg, mode) {
        return action;
    }
    if let Some(action) = check_entry(image, arg, mode) {
        return action;
    }
    match mode {
        Mode::Allowlist => Action::Deny,
        Mode::Denylist => Action::Allow,
    }
}

/// Determines the mode from the wildcard entries, then evaluates the
/// opposing table.
pub fn evaluate<A, V: PolicySet<A>>(lk: &Lookup<V>, arg: &A) -> (r: Action)
    ensures
        r == decide(*lk, *arg),
{
    if let Some(v) = &lk.allowed_wild {
        if v.is_all() {
            return check_conditions(&lk.denied_wild, &lk.denied_image, arg, Mode::Denylist);
        }
    }
    if let Some(v) = &lk.denied_wild {
        if v.is_all() {
            return check_conditions(&lk.allowed_wild, &lk.allowed_image, arg, Mode::Allowlist);
        }
    }
    Action::Allow
}

} // verus!
