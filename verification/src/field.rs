//! Syntax of header fields: which bytes a value may hold, which characters a
//! name may hold, and under which key a name is stored.

use vstd::prelude::*;

verus! {

/// The library writes to a header only while it holds fewer distinct names
/// than this.
pub const MAX_NAMES: usize = 4096;

/// Whether `b` may occur in a header value: any byte from 32 up except 127,
/// or a horizontal tab.
pub open spec fn value_byte(b: u8) -> bool {
    (b >= 32 && b != 127) || b == 9
}

/// Whether `v` is a legal header value: every byte of it is a value byte.
pub open spec fn valid_value(v: Seq<u8>) -> bool {
    forall|i: int| 0 <= i < v.len() ==> value_byte(#[trigger] v[i])
}

/// Whether `c` may occur in a header name: a letter, a digit, or one of
/// ``! # $ % & ' * + - . ^ _ ` | ~``.
pub open spec fn name_char(c: char) -> bool {
    ||| 'a' <= c <= 'z'
    ||| 'A' <= c <= 'Z'
    ||| '0' <= c <= '9'
    ||| c == '!'
    ||| c == '#'
    ||| c == '$'
    ||| c == '%'
    ||| c == '&'
    ||| c == '\''
    ||| c == '*'
    ||| c == '+'
    ||| c == '-'
    ||| c == '.'
    ||| c == '^'
    ||| c == '_'
    ||| c == '`'
    ||| c == '|'
    ||| c == '~'
}

/// Whether `n` is a legal header name: between 1 and 65535 name characters.
pub open spec fn valid_name(n: Seq<char>) -> bool {
    &&& 1 <= n.len() <= 65535
    &&& forall|i: int| 0 <= i < n.len() ==> name_char(#[trigger] n[i])
}

/// The bytes that stand for `text` in a header: its UTF-8 encoding.
pub open spec fn bytes_of(text: Seq<char>) -> Seq<u8> {
    vstd::utf8::encode_utf8(text)
}

/// The lower-case form of an ASCII letter; any other character unchanged.
pub open spec fn lower(c: char) -> char {
    if 'A' <= c <= 'Z' {
        ((c as u8 + 32) as u8) as char
    } else {
        c
    }
}

/// The key under which a header map stores the name `n`: names differing
/// only in the case of their letters share one key.
pub open spec fn field_key(n: Seq<char>) -> Seq<char> {
    Seq::new(n.len(), |i: int| lower(n[i]))
}

/// Tests whether every byte of `v` may stand in a header value.
pub fn is_valid_value(v: &[u8]) -> (ok: bool)
    ensures
        ok == valid_value(v@),
{
    let mut i: usize = 0;
    while i < v.len()
        invariant
            i <= v.len(),
            forall|j: int| 0 <= j < i ==> value_byte(#[trigger] v@[j]),
        decreases v.len() - i,
    {
        let b: u8 = v[i];
        if !((b >= 32 && b != 127) || b == 9) {
            return false;
        }
        i += 1;
    }
    true
}

/// Tests whether two texts are the same.
pub fn same_text(a: &str, b: &str) -> (same: bool)
    ensures
        same == (a@ == b@),
{
    let x = a.as_bytes();
    let y = b.as_bytes();
    proof {
        vstd::utf8::encode_utf8_decode_utf8(a@);
        vstd::utf8::encode_utf8_decode_utf8(b@);
    }
    if x.len() != y.len() {
        return false;
    }
    let mut i: usize = 0;
    while i < x.len()
        invariant
            i <= x.len(),
            x.len() == y.len(),
            x@ == bytes_of(a@),
            y@ == bytes_of(b@),
            forall|j: int| 0 <= j < i ==> x@[j] == y@[j],
        decreases x.len() - i,
    {
        if x[i] != y[i] {
            return false;
        }
        i += 1;
    }
    assert(x@ =~= y@);
    true
}

/// Adds the bytes of `bytes` behind those of `out`.
pub fn append_bytes(out: &mut Vec<u8>, bytes: &[u8])
    ensures
        final(out)@ == old(out)@ + bytes@,
{
    let mut i: usize = 0;
    while i < bytes.len()
        invariant
            i <= bytes.len(),
            out@ == old(out)@ + bytes@.take(i as int),
        decreases bytes.len() - i,
    {
        out.push(bytes[i]);
        i += 1;
    }
    proof {
        assert(bytes@.take(i as int) == bytes@);
    }
}

/// Legal values joined end to end make a legal value.
pub proof fn lemma_valid_concat(a: Seq<u8>, b: Seq<u8>)
    ensures
        valid_value(a + b) <==> (valid_value(a) && valid_value(b)),
{
    if valid_value(a + b) {
        assert forall|i: int| 0 <= i < a.len() implies value_byte(#[trigger] a[i]) by {
            assert((a + b)[i] == a[i]);
        }
        assert forall|i: int| 0 <= i < b.len() implies value_byte(#[trigger] b[i]) by {
            assert((a + b)[a.len() + i] == b[i]);
        }
    }
}

} // verus!
