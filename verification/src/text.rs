//! Byte-level text utilities: identifier validation, camel-case conversion,
//! and the byte constants for the recognized annotation keys.

use vstd::prelude::*;

verus! {

// ---------------------------------------------------------------------------
// Identifier validation
// ---------------------------------------------------------------------------

/// A byte that may start an identifier: `_`, `a`-`z` or `A`-`Z`.
pub open spec fn is_name_start(b: u8) -> bool {
    b == '_' as u8 || ('a' as u8 <= b && b <= 'z' as u8) || ('A' as u8 <= b && b <= 'Z' as u8)
}

/// A byte that may continue an identifier: a start byte or `0`-`9`.
pub open spec fn is_name_cont(b: u8) -> bool {
    is_name_start(b) || ('0' as u8 <= b && b <= '9' as u8)
}

/// The identifier grammar `^[_a-zA-Z][_a-zA-Z0-9]*$` over bytes.
pub open spec fn is_valid_name_spec(s: Seq<u8>) -> bool {
    &&& s.len() > 0
    &&& is_name_start(s[0])
    &&& forall|i: int| 1 <= i < s.len() ==> is_name_cont(#[trigger] s[i])
}

fn name_start_byte(b: u8) -> (r: bool)
    ensures
        r == is_name_start(b),
{
    b == '_' as u8 || ('a' as u8 <= b && b <= 'z' as u8) || ('A' as u8 <= b && b <= 'Z' as u8)
}

fn name_cont_byte(b: u8) -> (r: bool)
    ensures
        r == is_name_cont(b),
{
    name_start_byte(b) || ('0' as u8 <= b && b <= '9' as u8)
}

/// True iff `s` matches the identifier grammar `^[_a-zA-Z][_a-zA-Z0-9]*$`.
/// Gates every user-supplied name override.
pub fn is_valid_name(s: &Vec<u8>) -> (r: bool)
    ensures
        r == is_valid_name_spec(s@),
{
    if s.len() == 0 {
        return false;
    }
    if !name_start_byte(s[0]) {
        return false;
    }
    let mut i: usize = 1;
    while i < s.len()
        invariant
            1 <= i <= s@.len(),
            is_name_start(s@[0]),
            forall|j: int| 1 <= j < i ==> is_name_cont(#[trigger] s@[j]),
        decreases s@.len() - i,
    {
        if !name_cont_byte(s[i]) {
            return false;
        }
        i = i + 1;
    }
    true
}

// ---------------------------------------------------------------------------
// Camel-case conversion
// ---------------------------------------------------------------------------

/// The upper-case form of an ASCII letter byte; other bytes are unchanged.
pub open spec fn upper_byte(b: u8) -> u8 {
    if 'a' as u8 <= b && b <= 'z' as u8 {
        (b - 32) as u8
    } else {
        b
    }
}

/// One left-to-right pass of camel-case conversion: an underscore is dropped
/// and makes the next letter upper case.
pub open spec fn camel_step(s: Seq<u8>, cap: bool) -> Seq<u8>
    decreases s.len(),
{
    if s.len() == 0 {
        Seq::empty()
    } else if s[0] == '_' as u8 {
        camel_step(s.drop_first(), true)
    } else if cap {
        seq![upper_byte(s[0])] + camel_step(s.drop_first(), false)
    } else {
        seq![s[0]] + camel_step(s.drop_first(), false)
    }
}

/// Lower-camel-case form of an underscore-separated identifier: the first
/// segment is kept verbatim, every later segment loses its leading
/// underscores and has its first byte upper-cased.
pub open spec fn to_camel_case_spec(s: Seq<u8>) -> Seq<u8> {
    camel_step(s, false)
}

/// Converts a snake-case identifier to lowerCamelCase, the default exposure
/// name of a field without an explicit override.
pub fn to_camel_case(s: &Vec<u8>) -> (r: Vec<u8>)
    ensures
        r@ == to_camel_case_spec(s@),
{
    let mut out: Vec<u8> = Vec::new();
    let mut cap: bool = false;
    let mut i: usize = 0;
    proof {
        assert(s@.skip(0) =~= s@);
        assert(Seq::<u8>::empty() + camel_step(s@, false) =~= camel_step(s@, false));
    }
    while i < s.len()
        invariant
            0 <= i <= s@.len(),
            to_camel_case_spec(s@) == out@ + camel_step(s@.skip(i as int), cap),
        decreases s@.len() - i,
    {
        proof {
            assert(s@.skip(i as int)[0] == s@[i as int]);
            assert(s@.skip(i as int).drop_first() =~= s@.skip(i as int + 1));
        }
        let ghost pre = out@;
        let b = s[i];
        if b == '_' as u8 {
            cap = true;
        } else if cap {
            let ub = if 'a' as u8 <= b && b <= 'z' as u8 {
                b - 32
            } else {
                b
            };
            out.push(ub);
            cap = false;
            proof {
                assert(out@ + camel_step(s@.skip(i as int + 1), false) =~= pre + (seq![
                    upper_byte(b),
                ] + camel_step(s@.skip(i as int + 1), false)));
            }
        } else {
            out.push(b);
            proof {
                assert(out@ + camel_step(s@.skip(i as int + 1), false) =~= pre + (seq![b]
                    + camel_step(s@.skip(i as int + 1), false)));
            }
        }
        i = i + 1;
    }
    proof {
        assert(s@.skip(s@.len() as int) =~= Seq::<u8>::empty());
        assert(out@ + Seq::<u8>::empty() =~= out@);
    }
    out
}

// ---------------------------------------------------------------------------
// Byte-vector helpers
// ---------------------------------------------------------------------------

/// Byte-for-byte equality of two byte vectors.
pub fn bytes_eq(a: &Vec<u8>, b: &Vec<u8>) -> (r: bool)
    ensures
        r == (a@ == b@),
{
    if a.len() != b.len() {
        return false;
    }
    let mut i: usize = 0;
    while i < a.len()
        invariant
            0 <= i <= a@.len(),
            a@.len() == b@.len(),
            forall|j: int| 0 <= j < i ==> a@[j] == b@[j],
        decreases a@.len() - i,
    {
        if a[i] != b[i] {
            return false;
        }
        i = i + 1;
    }
    proof {
        assert(a@ =~= b@);
    }
    true
}

/// A fresh byte vector with the same contents as `v`.
pub fn clone_bytes(v: &Vec<u8>) -> (r: Vec<u8>)
    ensures
        r@ == v@,
{
    let mut out: Vec<u8> = Vec::new();
    append_bytes(&mut out, v);
    proof {
        assert(Seq::<u8>::empty() + v@ =~= v@);
    }
    out
}

/// Appends `s` to `out`.
pub fn append_bytes(out: &mut Vec<u8>, s: &Vec<u8>)
    ensures
        final(out)@ == old(out)@ + s@,
{
    let mut i: usize = 0;
    while i < s.len()
        invariant
            0 <= i <= s@.len(),
            out@ == old(out)@ + s@.take(i as int),
        decreases s@.len() - i,
    {
        out.push(s[i]);
        proof {
            assert(old(out)@ + s@.take(i as int) + seq![s@[i as int]] =~= old(out)@ + s@.take(
                i as int + 1,
            ));
        }
        i = i + 1;
    }
    proof {
        assert(s@.take(s@.len() as int) =~= s@);
    }
}

// ---------------------------------------------------------------------------
// Recognized annotation keys
// ---------------------------------------------------------------------------

/// The key of a name override: `name`.
pub open spec fn key_name() -> Seq<u8> {
    seq!['n' as u8, 'a' as u8, 'm' as u8, 'e' as u8]
}

/// The key of an explicit description: `description`.
pub open spec fn key_description() -> Seq<u8> {
    seq![
        'd' as u8,
        'e' as u8,
        's' as u8,
        'c' as u8,
        'r' as u8,
        'i' as u8,
        'p' as u8,
        't' as u8,
        'i' as u8,
        'o' as u8,
        'n' as u8,
    ]
}

/// The key and bare flag of a field default: `default`.
pub open spec fn key_default() -> Seq<u8> {
    seq!['d' as u8, 'e' as u8, 'f' as u8, 'a' as u8, 'u' as u8, 'l' as u8, 't' as u8]
}

/// The bare structure-level internal-visibility flag: `_internal`.
pub open spec fn word_internal() -> Seq<u8> {
    seq![
        '_' as u8,
        'i' as u8,
        'n' as u8,
        't' as u8,
        'e' as u8,
        'r' as u8,
        'n' as u8,
        'a' as u8,
        'l' as u8,
    ]
}

/// A fresh vector holding the key `name`.
pub fn key_name_vec() -> (r: Vec<u8>)
    ensures
        r@ == key_name(),
{
    let mut k: Vec<u8> = Vec::new();
    k.push('n' as u8);
    k.push('a' as u8);
    k.push('m' as u8);
    k.push('e' as u8);
    proof {
        assert(k@ =~= key_name());
    }
    k
}

/// A fresh vector holding the key `description`.
pub fn key_description_vec() -> (r: Vec<u8>)
    ensures
        r@ == key_description(),
{
    let mut k: Vec<u8> = Vec::new();
    k.push('d' as u8);
    k.push('e' as u8);
    k.push('s' as u8);
    k.push('c' as u8);
    k.push('r' as u8);
    k.push('i' as u8);
    k.push('p' as u8);
    k.push('t' as u8);
    k.push('i' as u8);
    k.push('o' as u8);
    k.push('n' as u8);
    proof {
        assert(k@ =~= key_description());
    }
    k
}

/// A fresh vector holding the key `default`.
pub fn key_default_vec() -> (r: Vec<u8>)
    ensures
        r@ == key_default(),
{
    let mut k: Vec<u8> = Vec::new();
    k.push('d' as u8);
    k.push('e' as u8);
    k.push('f' as u8);
    k.push('a' as u8);
    k.push('u' as u8);
    k.push('l' as u8);
    k.push('t' as u8);
    proof {
        assert(k@ =~= key_default());
    }
    k
}

/// A fresh vector holding the flag word `_internal`.
pub fn word_internal_vec() -> (r: Vec<u8>)
    ensures
        r@ == word_internal(),
{
    let mut k: Vec<u8> = Vec::new();
    k.push('_' as u8);
    k.push('i' as u8);
    k.push('n' as u8);
    k.push('t' as u8);
    k.push('e' as u8);
    k.push('r' as u8);
    k.push('n' as u8);
    k.push('a' as u8);
    k.push('l' as u8);
    proof {
        assert(k@ =~= word_internal());
    }
    k
}

} // verus!
