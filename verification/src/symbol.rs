//! The marker's name, and the null-terminated form in which a symbol lookup
//! takes it.

use vstd::prelude::*;
use vstd::string::*;

verus! {

/// The name under which the marker is exported and by which it is looked up.
/// The two must agree byte for byte, so the name carries no mangling.
pub const MARKER_SYMBOL: &'static str = "___paranoia_present";

/// The bytes of [`MARKER_SYMBOL`].
pub open spec fn marker_name() -> Seq<u8> {
    Seq::new(MARKER_SYMBOL@.len(), |i: int| MARKER_SYMBOL@[i] as u8)
}

/// Whether `bytes` holds a NUL anywhere.
pub open spec fn has_nul(bytes: Seq<u8>) -> bool {
    exists|i: int| 0 <= i < bytes.len() && bytes[i] == 0
}

/// `name` with the terminating NUL behind it.
pub open spec fn terminated(name: Seq<u8>) -> Seq<u8> {
    name.push(0u8)
}

/// Whether `bytes` is a C string: it ends in a NUL and holds no other.
pub open spec fn is_c_string(bytes: Seq<u8>) -> bool {
    &&& bytes.len() > 0
    &&& bytes.last() == 0
    &&& !has_nul(bytes.drop_last())
}

/// A name without a NUL, once terminated, is a C string.
pub proof fn lemma_terminated_is_c_string(name: Seq<u8>)
    requires
        !has_nul(name),
    ensures
        is_c_string(terminated(name)),
{
    assert(terminated(name).drop_last() =~= name);
}

/// The marker's name has nineteen bytes, none of them a NUL.
pub proof fn lemma_marker_name_has_no_nul()
    ensures
        marker_name().len() == 19,
        !has_nul(marker_name()),
{
    reveal_strlit("___paranoia_present");
}

/// Puts the terminating NUL behind `name`, as a symbol lookup wants it.
/// A name that already holds a NUL has no such form: the lookup would stop at
/// the first one and look for another name.
pub fn terminate(name: &[u8]) -> (out: Option<Vec<u8>>)
    ensures
        out is None <==> has_nul(name@),
        out matches Some(bytes) ==> bytes@ == terminated(name@) && is_c_string(bytes@),
{
    let mut bytes: Vec<u8> = Vec::new();
    let mut i: usize = 0;
    while i < name.len()
        invariant
            i <= name.len(),
            bytes@ == name@.take(i as int),
            !has_nul(name@.take(i as int)),
        decreases name.len() - i,
    {
        let byte: u8 = name[i];
        if byte == 0 {
            return None;
        }
        bytes.push(byte);
        i += 1;
        assert(name@.take(i as int) =~= name@.take(i - 1).push(byte));
    }
    assert(name@.take(i as int) =~= name@);
    bytes.push(0);
    proof {
        lemma_terminated_is_c_string(name@);
    }
    Some(bytes)
}

/// The marker's name in the form a symbol lookup takes.
pub fn marker_symbol() -> (symbol: Vec<u8>)
    ensures
        symbol@ == terminated(marker_name()),
        is_c_string(symbol@),
{
    let name: &[u8] = MARKER_SYMBOL.as_bytes();
    proof {
        reveal_strlit("___paranoia_present");
        assert(is_ascii(MARKER_SYMBOL));
        is_ascii_spec_bytes(MARKER_SYMBOL);
        assert(name@ =~= marker_name());
        lemma_marker_name_has_no_nul();
    }
    terminate(name).unwrap()
}

} // verus!
