//! Shared string utilities and the transient-buffer holder.

use vstd::prelude::*;
use vstd::string::StrSliceExecFns;
use vstd::string::StringExecFns;
use vstd::utf8::encode_utf8;

verus! {

/// Relies on String::push: appends exactly the given character.
#[verifier::external_body]
pub fn push_char(s: &mut String, c: char)
    ensures
        final(s)@ == old(s)@.push(c),
{
    s.push(c);
}

/// The characters of `s` between `from` and `to`, collected into an owned
/// string.
pub fn chars_to_string(s: &Vec<char>, from: usize, to: usize) -> (r: String)
    requires
        from <= to <= s@.len(),
    ensures
        r@ == s@.subrange(from as int, to as int),
{
    let mut r = String::new();
    let mut k = from;
    while k < to
        invariant
            from <= k <= to <= s@.len(),
            r@ == s@.subrange(from as int, k as int),
        decreases to - k,
    {
        push_char(&mut r, s[k]);
        k = k + 1;
        proof {
            assert(r@ =~= s@.subrange(from as int, k as int));
        }
    }
    r
}

/// An owned null-terminated byte buffer materialized from a string-like
/// value.
///
/// The holder must stay alive from the moment its buffer is handed out until
/// the foreign call that reads the buffer has returned; it is never reused
/// across calls and never escapes the one wrapper invocation that made it.
#[derive(Debug, PartialEq, Eq)]
pub struct CStringHolder {
    bytes: Vec<u8>,
}

impl CStringHolder {
    /// The owned buffer: the encoded bytes of the source string, followed by
    /// exactly one null terminator.
    pub closed spec fn bytes_view(&self) -> Seq<u8> {
        self.bytes@
    }

    /// Materializes the holder for a string value. A string whose encoding
    /// contains a null byte has no null-terminated image and is excluded.
    pub fn new(s: &str) -> (holder: CStringHolder)
        requires
            !encode_utf8(s@).contains(0u8),
        ensures
            holder.bytes_view() == encode_utf8(s@).push(0u8),
            holder.bytes_view().len() == encode_utf8(s@).len() + 1,
            holder.bytes_view().last() == 0u8,
            forall|i: int|
                0 <= i < holder.bytes_view().len() - 1 ==> holder.bytes_view()[i] != 0u8,
    {
        let mut bytes = s.as_bytes_vec();
        bytes.push(0u8);
        CStringHolder { bytes }
    }

    /// The buffer the foreign side reads.
    pub fn as_bytes(&self) -> (r: &Vec<u8>)
        ensures
            r@ == self.bytes_view(),
    {
        &self.bytes
    }
}

/// The uppercase mapping of one character, which may be more than one
/// character long.
pub uninterp spec fn upper_of(c: char) -> Seq<char>;

/// Relies on char::to_uppercase: yields the character's uppercase mapping, a
/// function of the character alone.
#[verifier::external_body]
fn upcase_chars(c: char) -> (r: String)
    ensures
        r@ == upper_of(c),
{
    c.to_uppercase().collect::<String>()
}

/// The concatenated-capitalization image of `s` with `start` telling whether
/// the next character begins a part: separator characters are dropped and
/// each part's first character is replaced by its uppercase mapping.
pub open spec fn pascal_rec(s: Seq<char>, start: bool) -> Seq<char>
    decreases s.len(),
{
    if s.len() == 0 {
        Seq::empty()
    } else if s[0] == '_' {
        pascal_rec(s.skip(1), true)
    } else if start {
        upper_of(s[0]) + pascal_rec(s.skip(1), false)
    } else {
        seq![s[0]] + pascal_rec(s.skip(1), false)
    }
}

/// Splits on underscores, drops empty parts, replaces each part's first
/// character by its uppercase mapping and joins the parts with nothing in
/// between.
pub fn to_pascal_case(s: &str) -> (r: String)
    ensures
        r@ == pascal_rec(s@, true),
{
    let n = s.unicode_len();
    let mut r = String::new();
    let mut start = true;
    let mut i: usize = 0;
    proof {
        assert(s@.skip(0) =~= s@);
        assert(r@ + pascal_rec(s@, true) =~= pascal_rec(s@, true));
    }
    while i < n
        invariant
            n == s@.len(),
            i <= n,
            pascal_rec(s@, true) == r@ + pascal_rec(s@.skip(i as int), start),
        decreases n - i,
    {
        let ghost prev = r@;
        let ghost rest = s@.skip(i as int);
        let c = s.get_char(i);
        proof {
            assert(rest[0] == s@[i as int]);
            assert(rest.skip(1) =~= s@.skip(i + 1 as int));
        }
        if c == '_' {
            start = true;
        } else {
            if start {
                let u = upcase_chars(c);
                r.append(u.as_str());
                proof {
                    assert(prev + (upper_of(c) + pascal_rec(s@.skip(i + 1 as int), false)) =~= (
                    prev + upper_of(c)) + pascal_rec(s@.skip(i + 1 as int), false));
                }
            } else {
                push_char(&mut r, c);
                proof {
                    assert(prev + (seq![c] + pascal_rec(s@.skip(i + 1 as int), false))
                        =~= prev.push(c) + pascal_rec(s@.skip(i + 1 as int), false));
                }
            }
            start = false;
        }
        i = i + 1;
    }
    proof {
        assert(s@.skip(n as int) =~= Seq::<char>::empty());
        assert(r@ + pascal_rec(Seq::<char>::empty(), start) =~= r@);
    }
    r
}

/// The separator-kept capitalization image of `s`: `start` tells whether the
/// next character begins a part, `emitted` whether an earlier part has been
/// written; parts are joined by a single separator.
pub open spec fn snake_rec(s: Seq<char>, start: bool, emitted: bool) -> Seq<char>
    decreases s.len(),
{
    if s.len() == 0 {
        Seq::empty()
    } else if s[0] == '_' {
        snake_rec(s.skip(1), true, emitted)
    } else if start && emitted {
        seq!['_'] + upper_of(s[0]) + snake_rec(s.skip(1), false, true)
    } else if start {
        upper_of(s[0]) + snake_rec(s.skip(1), false, true)
    } else {
        seq![s[0]] + snake_rec(s.skip(1), false, emitted)
    }
}

/// Splits on underscores, drops empty parts, replaces each part's first
/// character by its uppercase mapping and joins the parts with a single
/// underscore.
pub fn to_capitalized_snake(s: &str) -> (r: String)
    ensures
        r@ == snake_rec(s@, true, false),
{
    let n = s.unicode_len();
    let mut r = String::new();
    let mut start = true;
    let mut emitted = false;
    let mut i: usize = 0;
    proof {
        assert(s@.skip(0) =~= s@);
        assert(r@ + snake_rec(s@, true, false) =~= snake_rec(s@, true, false));
    }
    while i < n
        invariant
            n == s@.len(),
            i <= n,
            !start ==> emitted,
            snake_rec(s@, true, false) == r@ + snake_rec(s@.skip(i as int), start, emitted),
        decreases n - i,
    {
        let ghost prev = r@;
        let ghost rest = s@.skip(i as int);
        let c = s.get_char(i);
        proof {
            assert(rest[0] == s@[i as int]);
            assert(rest.skip(1) =~= s@.skip(i + 1 as int));
        }
        if c == '_' {
            start = true;
        } else {
            if start {
                if emitted {
                    push_char(&mut r, '_');
                }
                let u = upcase_chars(c);
                r.append(u.as_str());
                proof {
                    let rest = snake_rec(s@.skip(i + 1 as int), false, true);
                    if emitted {
                        assert(prev + (seq!['_'] + upper_of(c) + rest) =~= (prev.push('_')
                            + upper_of(c)) + rest);
                    } else {
                        assert(prev + (upper_of(c) + rest) =~= (prev + upper_of(c)) + rest);
                    }
                }
            } else {
                push_char(&mut r, c);
                proof {
                    let rest = snake_rec(s@.skip(i + 1 as int), false, emitted);
                    assert(prev + (seq![c] + rest) =~= prev.push(c) + rest);
                }
            }
            start = false;
            emitted = true;
        }
        i = i + 1;
    }
    proof {
        assert(s@.skip(n as int) =~= Seq::<char>::empty());
        assert(r@ + snake_rec(Seq::<char>::empty(), start, emitted) =~= r@);
    }
    r
}

} // verus!
