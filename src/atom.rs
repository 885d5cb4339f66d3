use vstd::prelude::*;

verus! {

/// Symbol names as the host spells them.
pub open spec fn sym_none() -> Seq<char> {
    seq!['n', 'o', 'n', 'e']
}

pub open spec fn sym_gzip() -> Seq<char> {
    seq!['g', 'z', 'i', 'p']
}

pub open spec fn sym_snappy() -> Seq<char> {
    seq!['s', 'n', 'a', 'p', 'p', 'y']
}

pub open spec fn sym_lz4() -> Seq<char> {
    seq!['l', 'z', '4']
}

pub open spec fn sym_from_beginning() -> Seq<char> {
    seq!['f', 'r', 'o', 'm', '_', 'b', 'e', 'g', 'i', 'n', 'n', 'i', 'n', 'g']
}

pub open spec fn sym_from_end() -> Seq<char> {
    seq!['f', 'r', 'o', 'm', '_', 'e', 'n', 'd']
}

pub open spec fn sym_absolute() -> Seq<char> {
    seq!['a', 'b', 's', 'o', 'l', 'u', 't', 'e']
}

pub open spec fn sym_aggregate() -> Seq<char> {
    seq!['a', 'g', 'g', 'r', 'e', 'g', 'a', 't', 'e']
}

/// Compares two symbols character by character.
pub fn symbol_eq(a: &str, b: &str) -> (r: bool)
    ensures
        r == (a@ == b@),
{
    let n = a.unicode_len();
    if n != b.unicode_len() {
        return false;
    }
    let mut i: usize = 0;
    while i < n
        invariant
            n == a@.len(),
            n == b@.len(),
            i <= n,
            a@.subrange(0, i as int) == b@.subrange(0, i as int),
        decreases n - i,
    {
        if a.get_char(i) != b.get_char(i) {
            return false;
        }
        assert(a@.subrange(0, i + 1) =~= a@.subrange(0, i as int).push(a@[i as int]));
        assert(b@.subrange(0, i + 1) =~= b@.subrange(0, i as int).push(b@[i as int]));
        i = i + 1;
    }
    assert(a@ =~= a@.subrange(0, n as int));
    assert(b@ =~= b@.subrange(0, n as int));
    true
}

} // verus!
