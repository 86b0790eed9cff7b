//! Escaping of free-text fields inside the tab-separated and `key=value` stores.
//!
//! A backslash, tab, newline and carriage return are written as `\\`, `\t`, `\n` and `\r`;
//! every other character is written as itself.

use vstd::prelude::*;

verus! {

/// The escaped form of one character.
pub open spec fn escape_char(c: char) -> Seq<char> {
    if c == '\\' {
        seq!['\\', '\\']
    } else if c == '\t' {
        seq!['\\', 't']
    } else if c == '\n' {
        seq!['\\', 'n']
    } else if c == '\r' {
        seq!['\\', 'r']
    } else {
        seq![c]
    }
}

/// The escaped form of a whole field.
pub open spec fn encode_field_spec(s: Seq<char>) -> Seq<char>
    decreases s.len(),
{
    if s.len() == 0 {
        Seq::empty()
    } else {
        escape_char(s[0]) + encode_field_spec(s.drop_first())
    }
}

/// The character that an escape letter stands for.
pub open spec fn unescape_char(c: char) -> Option<char> {
    if c == '\\' {
        Some('\\')
    } else if c == 't' {
        Some('\t')
    } else if c == 'n' {
        Some('\n')
    } else if c == 'r' {
        Some('\r')
    } else {
        None
    }
}

pub open spec fn prepend(p: Seq<char>, o: Option<Seq<char>>) -> Option<Seq<char>> {
    match o {
        Some(r) => Some(p + r),
        None => None,
    }
}

/// Decoding of an escaped field: `None` when a backslash is not followed by one of
/// `\`, `t`, `n`, `r`.
pub open spec fn decode_field_spec(s: Seq<char>) -> Option<Seq<char>>
    decreases s.len(),
{
    if s.len() == 0 {
        Some(Seq::empty())
    } else if s[0] != '\\' {
        prepend(seq![s[0]], decode_field_spec(s.drop_first()))
    } else if s.len() < 2 {
        None
    } else {
        match unescape_char(s[1]) {
            Some(d) => prepend(seq![d], decode_field_spec(s.subrange(2, s.len() as int))),
            None => None,
        }
    }
}

/// An encoded field holds no tab, newline or carriage return.
pub open spec fn has_no_separator(s: Seq<char>) -> bool {
    forall|i: int| 0 <= i < s.len() ==> #[trigger] s[i] != '\t' && s[i] != '\n' && s[i] != '\r'
}

pub proof fn lemma_encode_concat(a: Seq<char>, b: Seq<char>)
    ensures
        encode_field_spec(a + b) == encode_field_spec(a) + encode_field_spec(b),
    decreases a.len(),
{
    if a.len() == 0 {
        assert(a + b =~= b);
        assert(encode_field_spec(a) =~= Seq::<char>::empty());
        assert(encode_field_spec(a) + encode_field_spec(b) =~= encode_field_spec(b));
    } else {
        assert((a + b).drop_first() =~= a.drop_first() + b);
        lemma_encode_concat(a.drop_first(), b);
        assert((a + b)[0] == a[0]);
        assert(encode_field_spec(a + b) =~= escape_char(a[0]) + (encode_field_spec(a.drop_first())
            + encode_field_spec(b)));
    }
}

/// Decoding an encoded field gives the field back.
pub proof fn lemma_decode_encode(s: Seq<char>)
    ensures
        decode_field_spec(encode_field_spec(s)) == Some(s),
    decreases s.len(),
{
    if s.len() == 0 {
        assert(encode_field_spec(s) =~= Seq::<char>::empty());
    } else {
        let c = s[0];
        let rest = s.drop_first();
        let e = encode_field_spec(s);
        lemma_decode_encode(rest);
        assert(e == escape_char(c) + encode_field_spec(rest));
        if c == '\\' || c == '\t' || c == '\n' || c == '\r' {
            assert(e[0] == '\\');
            assert(e.subrange(2, e.len() as int) =~= encode_field_spec(rest));
            assert(seq![c] + rest =~= s);
        } else {
            assert(e.drop_first() =~= encode_field_spec(rest));
            assert(seq![c] + rest =~= s);
        }
    }
}

/// An encoded field holds no tab, newline or carriage return.
pub proof fn lemma_encode_no_separator(s: Seq<char>)
    ensures
        has_no_separator(encode_field_spec(s)),
    decreases s.len(),
{
    if s.len() > 0 {
        lemma_encode_no_separator(s.drop_first());
        let e = encode_field_spec(s);
        let h = escape_char(s[0]);
        assert forall|i: int| 0 <= i < e.len() implies #[trigger] e[i] != '\t' && e[i] != '\n'
            && e[i] != '\r' by {
            if i >= h.len() {
                assert(e[i] == encode_field_spec(s.drop_first())[i - h.len()]);
            }
        }
    }
}

proof fn lemma_encode_single(c: char)
    ensures
        encode_field_spec(seq![c]) == escape_char(c),
{
    assert(seq![c].drop_first() =~= Seq::<char>::empty());
    assert(encode_field_spec(Seq::<char>::empty()) =~= Seq::<char>::empty());
    assert(escape_char(c) + Seq::<char>::empty() =~= escape_char(c));
}

fn escape_into(c: char, out: &mut Vec<char>)
    ensures
        final(out)@ == old(out)@ + escape_char(c),
{
    if c == '\\' {
        out.push('\\');
        out.push('\\');
    } else if c == '\t' {
        out.push('\\');
        out.push('t');
    } else if c == '\n' {
        out.push('\\');
        out.push('n');
    } else if c == '\r' {
        out.push('\\');
        out.push('r');
    } else {
        out.push(c);
    }
    assert(out@ =~= old(out)@ + escape_char(c));
}

/// Appends the escaped form of `s` to `out`.
pub fn encode_field_into(s: &[char], out: &mut Vec<char>)
    ensures
        final(out)@ == old(out)@ + encode_field_spec(s@),
{
    let mut i: usize = 0;
    while i < s.len()
        invariant
            i <= s@.len(),
            out@ == old(out)@ + encode_field_spec(s@.take(i as int)),
        decreases s@.len() - i,
    {
        proof {
            assert(s@.take(i + 1) =~= s@.take(i as int) + seq![s@[i as int]]);
            lemma_encode_concat(s@.take(i as int), seq![s@[i as int]]);
            lemma_encode_single(s@[i as int]);
        }
        escape_into(s[i], out);
        i = i + 1;
        assert(out@ =~= old(out)@ + encode_field_spec(s@.take(i as int)));
    }
    assert(s@.take(s@.len() as int) =~= s@);
}

/// Escapes a field so that it can be stored on one line without tabs.
pub fn encode_field(value: &str) -> (r: String)
    ensures
        r@ == encode_field_spec(value@),
{
    let chars = crate::text::chars_of(value);
    let mut out: Vec<char> = Vec::new();
    encode_field_into(&chars, &mut out);
    assert(out@ =~= encode_field_spec(value@));
    crate::text::string_from_chars(&out)
}

/// Decodes an escaped field given as characters.
pub fn decode_field_chars(s: &[char]) -> (r: Option<Vec<char>>)
    ensures
        r matches Some(v) ==> decode_field_spec(s@) == Some(v@),
        r is None ==> decode_field_spec(s@) is None,
{
    let mut out: Vec<char> = Vec::new();
    let mut i: usize = 0;
    proof {
        assert(s@.subrange(0, s@.len() as int) =~= s@);
        match decode_field_spec(s@) {
            Some(r) => {
                assert(out@ + r =~= r);
            },
            None => {},
        }
    }
    while i < s.len()
        invariant
            i <= s@.len(),
            decode_field_spec(s@) == prepend(out@, decode_field_spec(s@.subrange(i as int, s@.len() as int))),
        decreases s@.len() - i,
    {
        let ghost rest = s@.subrange(i as int, s@.len() as int);
        let c = s[i];
        if c != '\\' {
            proof {
                assert(rest.drop_first() =~= s@.subrange(i + 1, s@.len() as int));
                assert(rest[0] == c);
                match decode_field_spec(rest.drop_first()) {
                    Some(r) => {
                        assert(out@ + (seq![c] + r) =~= out@.push(c) + r);
                    },
                    None => {},
                }
            }
            out.push(c);
            i = i + 1;
        } else {
            if i + 1 >= s.len() {
                return None;
            }
            let e = s[i + 1];
            let d: char;
            if e == '\\' {
                d = '\\';
            } else if e == 't' {
                d = '\t';
            } else if e == 'n' {
                d = '\n';
            } else if e == 'r' {
                d = '\r';
            } else {
                assert(rest[1] == e);
                return None;
            }
            proof {
                assert(rest[1] == e);
                assert(rest.subrange(2, rest.len() as int) =~= s@.subrange(i + 2, s@.len() as int));
                match decode_field_spec(rest.subrange(2, rest.len() as int)) {
                    Some(r) => {
                        assert(out@ + (seq![d] + r) =~= out@.push(d) + r);
                    },
                    None => {},
                }
            }
            out.push(d);
            i = i + 2;
        }
    }
    assert(s@.subrange(s@.len() as int, s@.len() as int) =~= Seq::<char>::empty());
    assert(out@ + Seq::<char>::empty() =~= out@);
    Some(out)
}

/// Decodes an escaped field; `Err(())` when an escape sequence is not recognised.
pub fn decode_escaped_field(value: &str) -> (r: Result<String, ()>)
    ensures
        r matches Ok(v) ==> decode_field_spec(value@) == Some(v@),
        r is Err ==> decode_field_spec(value@) is None,
{
    let chars = crate::text::chars_of(value);
    match decode_field_chars(&chars) {
        Some(v) => Ok(crate::text::string_from_chars(&v)),
        None => Err(()),
    }
}

} // verus!

verus! {

/// A field with a visible character keeps a visible character once encoded.
pub proof fn lemma_encode_not_blank(s: Seq<char>)
    requires
        !crate::text::is_blank(s),
    ensures
        !crate::text::is_blank(encode_field_spec(s)),
    decreases s.len(),
{
    let e = encode_field_spec(s);
    let h = escape_char(s[0]);
    assert(e == h + encode_field_spec(s.drop_first()));
    if crate::text::is_ws(s[0]) {
        assert(!crate::text::is_blank(s.drop_first())) by {
            let i = choose|i: int| 0 <= i < s.len() && !crate::text::is_ws(#[trigger] s[i]);
            assert(i > 0);
            assert(s.drop_first()[i - 1] == s[i]);
        }
        lemma_encode_not_blank(s.drop_first());
        let j = choose|j: int|
            0 <= j < encode_field_spec(s.drop_first()).len() && !crate::text::is_ws(
                #[trigger] encode_field_spec(s.drop_first())[j],
            );
        assert(e[h.len() + j] == encode_field_spec(s.drop_first())[j]);
    } else {
        assert(e[0] == h[0]);
    }
}

} // verus!
