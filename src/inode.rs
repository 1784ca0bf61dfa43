//! The mapping between executable paths and the inodes that the tables are
//! keyed by.
use vstd::prelude::*;
use std::collections::HashMap;
use vstd::std_specs::hash::group_hash_axioms;
use crate::engine::INODE_WILDCARD;
use crate::error::EbpfguardError;
use crate::policy::PolicySubject;

verus! {

broadcast use group_hash_axioms;

/// The character of decimal digit `d`.
pub open spec fn digit_char(d: nat) -> char {
    if d == 0 {
        '0'
    } else if d == 1 {
        '1'
    } else if d == 2 {
        '2'
    } else if d == 3 {
        '3'
    } else if d == 4 {
        '4'
    } else if d == 5 {
        '5'
    } else if d == 6 {
        '6'
    } else if d == 7 {
        '7'
    } else if d == 8 {
        '8'
    } else {
        '9'
    }
}

/// The decimal notation of `n`, with no leading zeros.
pub open spec fn decimal(n: nat) -> Seq<char>
    decreases n,
{
    if n < 10 {
        seq![digit_char(n)]
    } else {
        decimal(n / 10).push(digit_char(n % 10))
    }
}

fn digit_str(d: u64) -> (r: &'static str)
    requires
        d < 10,
    ensures
        r@ == seq![digit_char(d as nat)],
{
    proof {
        reveal_strlit("0");
        reveal_strlit("1");
        reveal_strlit("2");
        reveal_strlit("3");
        reveal_strlit("4");
        reveal_strlit("5");
        reveal_strlit("6");
        reveal_strlit("7");
        reveal_strlit("8");
        reveal_strlit("9");
    }
    if d == 0 {
        "0"
    } else if d == 1 {
        "1"
    } else if d == 2 {
        "2"
    } else if d == 3 {
        "3"
    } else if d == 4 {
        "4"
    } else if d == 5 {
        "5"
    } else if d == 6 {
        "6"
    } else if d == 7 {
        "7"
    } else if d == 8 {
        "8"
    } else {
        "9"
    }
}

/// Writes `n` in decimal.
pub fn decimal_string(n: u64) -> (r: String)
    ensures
        r@ == decimal(n as nat),
    decreases n,
{
    if n < 10 {
        digit_str(n).to_owned()
    } else {
        let mut s = decimal_string(n / 10);
        s.append(digit_str(n % 10));
        s
    }
}

/// Remembers, for each inode that a policy named, the path it was named by.
pub struct InodeSubjectMap {
    map: HashMap<u64, String>,
}

/// The subject that an inode stands for, given the remembered paths `known`:
/// the wildcard for inode 0, else the remembered path, else the inode's
/// decimal notation.
pub open spec fn subject_of(known: Map<u64, Seq<char>>, inode: u64) -> Option<Seq<char>> {
    if inode == INODE_WILDCARD {
        None
    } else if known.dom().contains(inode) {
        Some(known[inode])
    } else {
        Some(decimal(inode as nat))
    }
}

/// A subject as its path, or `None` for the wildcard.
pub open spec fn subject_view(s: PolicySubject) -> Option<Seq<char>> {
    match s {
        PolicySubject::Binary(p) => Some(p@),
        PolicySubject::All => None,
    }
}

impl InodeSubjectMap {
    /// The remembered path of each inode.
    pub closed spec fn view(&self) -> Map<u64, Seq<char>> {
        self.map@.map_values(|p: String| p@)
    }

    pub fn new() -> (r: Self)
        ensures
            r@ == Map::<u64, Seq<char>>::empty(),
    {
        let r = InodeSubjectMap { map: HashMap::new() };
        assert(r@ =~= Map::<u64, Seq<char>>::empty());
        r
    }

    /// The table key of `subject`: 0 for every executable, else `inode`, the
    /// inode that the filesystem gives for the binary's path, which is then
    /// remembered. Inode 0 for a binary is refused: it is the wildcard key.
    pub fn resolve_path(&mut self, subject: &PolicySubject, inode: u64) -> (r: Result<
        u64,
        EbpfguardError,
    >)
        ensures
            subject is All ==> r == Ok::<u64, EbpfguardError>(INODE_WILDCARD) && final(self)@
                == old(self)@,
            subject is Binary && inode == 0 ==> r == Err::<u64, EbpfguardError>(
                EbpfguardError::ReservedInode,
            ) && final(self)@ == old(self)@,
            subject is Binary && inode != 0 ==> r == Ok::<u64, EbpfguardError>(inode)
                && final(self)@ == old(self)@.insert(inode, subject->Binary_0@),
    {
        match subject {
            PolicySubject::All => Ok(INODE_WILDCARD),
            PolicySubject::Binary(path) => {
                if inode == 0 {
                    return Err(EbpfguardError::ReservedInode);
                }
                let ghost before = self.map@;
                self.map.insert(inode, path.clone());
                assert(self@ =~= before.map_values(|p: String| p@).insert(inode, path@));
                Ok(inode)
            },
        }
    }

    /// The path that a non-wildcard `inode` stands for: the one it was last
    /// registered with, else its decimal notation.
    pub fn path_of(&self, inode: u64) -> (r: String)
        requires
            inode != INODE_WILDCARD,
        ensures
            subject_of(self@, inode) == Some(r@),
    {
        match self.map.get(&inode) {
            Some(path) => path.clone(),
            None => decimal_string(inode),
        }
    }

    /// The subject that `inode` stands for: every executable for 0, else the
    /// path it was last registered with, else its decimal notation.
    pub fn resolve_inode(&self, inode: u64) -> (r: PolicySubject)
        ensures
            subject_view(r) == subject_of(self@, inode),
    {
        if inode == INODE_WILDCARD {
            return PolicySubject::All;
        }
        PolicySubject::Binary(self.path_of(inode))
    }
}

impl Default for InodeSubjectMap {
    fn default() -> (r: Self)
        ensures
            r@ == Map::<u64, Seq<char>>::empty(),
    {
        InodeSubjectMap::new()
    }
}

} // verus!
