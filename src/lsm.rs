//! Detection of the programmable security-module backend from the list of
//! active security modules that the kernel publishes.
use vstd::prelude::*;

verus! {

/// The lowercase form of a string, as `str::to_lowercase` gives it.
pub uninterp spec fn lower_of(s: Seq<char>) -> Seq<char>;

/// Relies on `str::to_lowercase`: the lowercase form depends on the
/// characters alone.
#[verifier::external_body]
fn lowercase(s: &str) -> (r: String)
    ensures
        r@ == lower_of(s@),
{
    s.to_lowercase()
}

/// `s[i..j]` is one of the comma-separated names of `s`.
pub open spec fn is_name(s: Seq<char>, i: int, j: int) -> bool {
    &&& 0 <= i <= j <= s.len()
    &&& i == 0 || s[i - 1] == ','
    &&& j == s.len() || s[j] == ','
    &&& forall|k: int| i <= k < j ==> s[k] != ','
}

/// The name of the programmable backend, in lowercase.
pub open spec fn backend_name() -> Seq<char> {
    seq!['b', 'p', 'f']
}

/// The list names the programmable backend, in any case.
pub open spec fn names_backend(s: Seq<char>) -> bool {
    exists|i: int, j: int| is_name(s, i, j) && lower_of(#[trigger] s.subrange(i, j)) == backend_name()
}

/// Whether a lowercased name is the programmable backend's.
pub fn is_backend(lowered: &str) -> (r: bool)
    ensures
        r == (lowered@ == backend_name()),
{
    let backend = "bpf";
    proof {
        reveal_strlit("bpf");
    }
    assert(backend@ =~= backend_name());
    let lowered = lowered.to_owned();
    let backend = backend.to_owned();
    lowered == backend
}

/// Whether the comma-separated list of active security modules `lsm`
/// names the programmable backend, in any case.
pub fn bpf_lsm_enabled(lsm: &str) -> (r: bool)
    ensures
        r == names_backend(lsm@),
{
    let ghost s = lsm@;
    let n = lsm.unicode_len();
    let mut start: usize = 0;
    let mut pos: usize = 0;
    while pos <= n
        invariant
            n == s.len(),
            s == lsm@,
            start <= pos <= n,
            start == 0 || s[start - 1] == ',',
            forall|k: int| start <= k < pos && k < n ==> s[k] != ',',
            forall|i: int, j: int|
                is_name(s, i, j) && j < start ==> lower_of(#[trigger] s.subrange(i, j))
                    != backend_name(),
        decreases n + 1 - pos,
    {
        if pos == n || lsm.get_char(pos) == ',' {
            let name = lsm.substring_char(start, pos);
            let lower = lowercase(name);
            if is_backend(lower.as_str()) {
                assert(is_name(s, start as int, pos as int));
                return true;
            }
            proof {
                assert forall|i: int, j: int|
                    is_name(s, i, j) && j < pos + 1 implies lower_of(#[trigger] s.subrange(i, j))
                    != backend_name() by {
                    if j >= start {
                        assert(j == pos) by {
                            if j < pos {
                                assert(s[j] == ',');
                            }
                        }
                        if i < start {
                            assert(s[start - 1] == ',');
                        } else if i > start {
                            assert(s[i - 1] == ',');
                        }
                    }
                }
            }
            start = if pos < n { pos + 1 } else { n };
            if pos == n {
                assert forall|i: int, j: int|
                    is_name(s, i, j) implies lower_of(#[trigger] s.subrange(i, j))
                    != backend_name() by {}
                return false;
            }
        }
        pos = pos + 1;
    }
    false
}

} // verus!
