//! Application icons for the client: base64 data URLs, with the PNG inside an `.icns`
//! file preferred when there is one.

use vstd::prelude::*;

use crate::input::ascii_lowercase;
use crate::protocol::AppIcon;
use crate::text::{chars_of, extend_chars, string_from_chars};

verus! {

/// The base64 digit for a 6-bit value.
pub open spec fn b64_char(v: nat) -> char {
    if v < 26 {
        (65 + v) as char
    } else if v < 52 {
        (97 + v - 26) as char
    } else if v < 62 {
        (48 + v - 52) as char
    } else if v == 62 {
        '+'
    } else {
        '/'
    }
}

/// Standard base64 with `=` padding.
pub open spec fn base64_spec(b: Seq<u8>) -> Seq<char>
    decreases b.len(),
{
    if b.len() == 0 {
        Seq::empty()
    } else if b.len() == 1 {
        seq![b64_char((b[0] / 4) as nat), b64_char(((b[0] % 4) * 16) as nat), '=', '=']
    } else if b.len() == 2 {
        seq![
            b64_char((b[0] / 4) as nat),
            b64_char(((b[0] % 4) * 16 + b[1] / 16) as nat),
            b64_char(((b[1] % 16) * 4) as nat),
            '=',
        ]
    } else {
        seq![
            b64_char((b[0] / 4) as nat),
            b64_char(((b[0] % 4) * 16 + b[1] / 16) as nat),
            b64_char(((b[1] % 16) * 4 + b[2] / 64) as nat),
            b64_char((b[2] % 64) as nat),
        ] + base64_spec(b.skip(3))
    }
}

fn b64_digit(v: u8) -> (c: char)
    requires
        v < 64,
    ensures
        c == b64_char(v as nat),
{
    if v < 26 {
        (65 + v) as char
    } else if v < 52 {
        (97 + v - 26) as char
    } else if v < 62 {
        (48 + v - 52) as char
    } else if v == 62 {
        '+'
    } else {
        '/'
    }
}

/// Encodes bytes as standard base64 with `=` padding.
pub fn base64_encode(bytes: &[u8]) -> (r: String)
    ensures
        r@ == base64_spec(bytes@),
{
    let mut out: Vec<char> = Vec::new();
    let mut i: usize = 0;
    assert(bytes@.skip(0) =~= bytes@);
    while i < bytes.len()
        invariant
            i <= bytes@.len(),
            base64_spec(bytes@) == out@ + base64_spec(bytes@.skip(i as int)),
        decreases bytes@.len() - i,
    {
        let ghost rest = bytes@.skip(i as int);
        let first = bytes[i];
        let left = bytes.len() - i;
        out.push(b64_digit(first / 4));
        if left == 1 {
            out.push(b64_digit((first % 4) * 16));
            out.push('=');
            out.push('=');
            assert(out@ =~= base64_spec(bytes@));
            i = i + 1;
            assert(bytes@.skip(i as int) =~= Seq::<u8>::empty());
        } else {
            let second = bytes[i + 1];
            out.push(b64_digit((first % 4) * 16 + second / 16));
            if left == 2 {
                out.push(b64_digit((second % 16) * 4));
                out.push('=');
                assert(out@ =~= base64_spec(bytes@));
                i = i + 2;
                assert(bytes@.skip(i as int) =~= Seq::<u8>::empty());
            } else {
                let third = bytes[i + 2];
                out.push(b64_digit((second % 16) * 4 + third / 64));
                out.push(b64_digit(third % 64));
                let ghost before = base64_spec(bytes@);
                assert(rest.skip(3) =~= bytes@.skip(i + 3));
                i = i + 3;
                assert(base64_spec(bytes@) =~= out@ + base64_spec(bytes@.skip(i as int)));
            }
        }
    }
    assert(bytes@.skip(i as int) =~= Seq::<u8>::empty());
    assert(out@ =~= base64_spec(bytes@));
    string_from_chars(out.as_slice())
}

/// The big-endian 32-bit number in `d[i..i + 4]`.
pub open spec fn be_u32_at(d: Seq<u8>, i: int) -> nat {
    (d[i] as nat) * 16777216 + (d[i + 1] as nat) * 65536 + (d[i + 2] as nat) * 256 + (d[i + 3] as nat)
}

/// The eight bytes that open every PNG file.
pub open spec fn png_signature() -> Seq<u8> {
    seq![137u8, 80u8, 78u8, 71u8, 13u8, 10u8, 26u8, 10u8]
}

/// The four bytes that open every `.icns` file.
pub open spec fn icns_magic() -> Seq<u8> {
    seq![105u8, 99u8, 110u8, 115u8]
}

/// Walks the chunks of an `.icns` file from `offset` up to `end` (the declared length),
/// keeping the bounds of the first chunk payload that is a PNG; a chunk whose header does
/// not fit, that is shorter than its header, or that runs past `end` spoils the file.
pub open spec fn icns_walk(b: Seq<u8>, end: int, offset: int, found: Option<(int, int)>) -> Option<
    Option<(int, int)>,
>
    decreases end - offset,
{
    if offset < 0 || offset >= end {
        Some(found)
    } else if end - offset < 8 {
        None
    } else {
        let chunk_len = be_u32_at(b, offset + 4);
        let chunk_end = offset + chunk_len;
        if chunk_len < 8 || chunk_end > end {
            None
        } else {
            let start = offset + 8;
            let payload = b.subrange(start, chunk_end);
            let next = if found is None && payload.len() >= 8 && payload.take(8) == png_signature() {
                Some((start, chunk_end))
            } else {
                found
            };
            icns_walk(b, end, chunk_end, next)
        }
    }
}

/// The PNG payload inside an `.icns` file, if the file is well formed and holds one.
pub open spec fn icns_png_spec(b: Seq<u8>) -> Option<Seq<u8>> {
    if b.len() < 8 || b.take(4) != icns_magic() {
        None
    } else {
        let declared = be_u32_at(b, 4);
        if declared < 8 || declared > b.len() {
            None
        } else {
            match icns_walk(b, declared as int, 8, None) {
                Some(Some((s, e))) => Some(b.subrange(s, e)),
                _ => None,
            }
        }
    }
}

fn be_u32_from(b: &[u8], i: usize) -> (n: usize)
    requires
        i + 4 <= b@.len(),
    ensures
        n == be_u32_at(b@, i as int),
{
    let b0 = b[i] as usize;
    let b1 = b[i + 1] as usize;
    let b2 = b[i + 2] as usize;
    let b3 = b[i + 3] as usize;
    b0 * 16777216 + b1 * 65536 + b2 * 256 + b3
}

fn copy_range(b: &[u8], from: usize, to: usize) -> (r: Vec<u8>)
    requires
        from <= to <= b@.len(),
    ensures
        r@ == b@.subrange(from as int, to as int),
{
    let mut out: Vec<u8> = Vec::new();
    let mut i: usize = from;
    while i < to
        invariant
            from <= i <= to <= b@.len(),
            out@ == b@.subrange(from as int, i as int),
        decreases to - i,
    {
        out.push(b[i]);
        i = i + 1;
        assert(out@ =~= b@.subrange(from as int, i as int));
    }
    out
}

fn starts_with_png(b: &[u8], from: usize, to: usize) -> (r: bool)
    requires
        from <= to <= b@.len(),
    ensures
        r == (b@.subrange(from as int, to as int).len() >= 8 && b@.subrange(
            from as int,
            to as int,
        ).take(8) == png_signature()),
{
    if to - from < 8 {
        return false;
    }
    let r = b[from] == 137 && b[from + 1] == 80 && b[from + 2] == 78 && b[from + 3] == 71
        && b[from + 4] == 13 && b[from + 5] == 10 && b[from + 6] == 26 && b[from + 7] == 10;
    assert(r == (b@.subrange(from as int, to as int).take(8) =~= png_signature()));
    r
}

/// The PNG payload inside an `.icns` file: the first chunk whose payload starts with the
/// PNG signature, if the file and all its chunks are well formed.
pub fn extract_icns_png_payload(bytes: &[u8]) -> (r: Option<Vec<u8>>)
    ensures
        match r {
            Some(v) => icns_png_spec(bytes@) == Some(v@),
            None => icns_png_spec(bytes@) is None,
        },
{
    if bytes.len() < 8 {
        return None;
    }
    let magic = bytes[0] == 105 && bytes[1] == 99 && bytes[2] == 110 && bytes[3] == 115;
    assert(magic == (bytes@.take(4) =~= icns_magic()));
    if !magic {
        return None;
    }
    let declared = be_u32_from(bytes, 4);
    if declared < 8 || declared > bytes.len() {
        return None;
    }
    let mut found: Option<(usize, usize)> = None;
    let mut offset: usize = 8;
    let ghost result = icns_walk(bytes@, declared as int, 8, None);
    while offset < declared
        invariant
            8 <= offset <= declared <= bytes@.len(),
            bytes@.take(4) == icns_magic(),
            declared == be_u32_at(bytes@, 4),
            result == icns_walk(bytes@, declared as int, 8, None),
            result == icns_walk(
                bytes@,
                declared as int,
                offset as int,
                match found {
                    Some((s, e)) => Some((s as int, e as int)),
                    None => None,
                },
            ),
            match found {
                Some((s, e)) => s <= e <= declared,
                None => true,
            },
        decreases declared - offset,
    {
        let ghost fv = match found {
            Some((s, e)) => Some((s as int, e as int)),
            None => None,
        };
        if declared - offset < 8 {
            assert(icns_walk(bytes@, declared as int, offset as int, fv) is None);
            return None;
        }
        let chunk_len = be_u32_from(bytes, offset + 4);
        if chunk_len < 8 || chunk_len > declared - offset {
            assert(icns_walk(bytes@, declared as int, offset as int, fv) is None);
            return None;
        }
        let chunk_end = offset + chunk_len;
        let start = offset + 8;
        if found.is_none() && starts_with_png(bytes, start, chunk_end) {
            found = Some((start, chunk_end));
        }
        offset = chunk_end;
    }
    match found {
        Some((s, e)) => Some(copy_range(bytes, s, e)),
        None => None,
    }
}

/// Whether an icon's mime type is `image/icns`, ignoring ASCII case.
pub open spec fn is_icns_mime(mime_type: Seq<char>) -> bool {
    ascii_lowercase(mime_type) == "image/icns"@
}

fn mime_is_icns(mime_type: &str) -> (b: bool)
    ensures
        b == is_icns_mime(mime_type@),
{
    let chars = chars_of(mime_type);
    let lower = crate::input::ascii_lowercase_chars(chars.as_slice());
    crate::text::chars_are(lower.as_slice(), "image/icns")
}

/// The data URL of an icon: none without bytes; the PNG inside an `.icns` icon when there is
/// one; otherwise the bytes under the icon's own mime type.
pub open spec fn icon_data_url_spec(icon: AppIcon) -> Option<Seq<char>> {
    if icon.bytes@.len() == 0 {
        None
    } else if is_icns_mime(icon.mime_type@) && icns_png_spec(icon.bytes@) is Some {
        Some("data:image/png;base64,"@ + base64_spec(icns_png_spec(icon.bytes@)->0))
    } else {
        Some("data:"@ + icon.mime_type@ + ";base64,"@ + base64_spec(icon.bytes@))
    }
}

/// The data URL of an icon, if it has bytes.
pub fn icon_data_url(icon: &AppIcon) -> (r: Option<String>)
    ensures
        crate::protocol::opt_text(r) == icon_data_url_spec(*icon),
{
    if icon.bytes.len() == 0 {
        return None;
    }
    if mime_is_icns(icon.mime_type.as_str()) {
        match extract_icns_png_payload(icon.bytes.as_slice()) {
            Some(png) => {
                let mut out = chars_of("data:image/png;base64,");
                let encoded = base64_encode(png.as_slice());
                let encoded_chars = chars_of(encoded.as_str());
                extend_chars(&mut out, encoded_chars.as_slice());
                return Some(string_from_chars(out.as_slice()));
            },
            None => {},
        }
    }
    let mut out = chars_of("data:");
    let mime = chars_of(icon.mime_type.as_str());
    extend_chars(&mut out, mime.as_slice());
    let tag = chars_of(";base64,");
    extend_chars(&mut out, tag.as_slice());
    let encoded = base64_encode(icon.bytes.as_slice());
    let encoded_chars = chars_of(encoded.as_str());
    extend_chars(&mut out, encoded_chars.as_slice());
    assert(out@ =~= "data:"@ + icon.mime_type@ + ";base64,"@ + base64_spec(icon.bytes@));
    Some(string_from_chars(out.as_slice()))
}

/// The mime type a client shows for an icon: `image/png` for an `.icns` icon holding a PNG,
/// the icon's own otherwise.
pub open spec fn normalized_mime_spec(icon: AppIcon) -> Seq<char> {
    if is_icns_mime(icon.mime_type@) && icns_png_spec(icon.bytes@) is Some {
        "image/png"@
    } else {
        icon.mime_type@
    }
}

/// The mime type a client shows for an icon.
pub fn normalized_icon_mime_type(icon: &AppIcon) -> (r: String)
    ensures
        r@ == normalized_mime_spec(*icon),
{
    if mime_is_icns(icon.mime_type.as_str()) && extract_icns_png_payload(
        icon.bytes.as_slice(),
    ).is_some() {
        String::from_str("image/png")
    } else {
        icon.mime_type.clone()
    }
}

} // verus!

verus! {

/// Base64 turns every started group of three bytes into four characters.
pub proof fn lemma_base64_length(b: Seq<u8>)
    ensures
        base64_spec(b).len() == 4 * ((b.len() + 2) / 3),
    decreases b.len(),
{
    if b.len() >= 3 {
        lemma_base64_length(b.skip(3));
        assert((b.len() + 2) / 3 == (b.skip(3).len() + 2) / 3 + 1);
    }
}

/// Every character of a base64 text is a base64 digit or padding.
pub proof fn lemma_base64_alphabet(b: Seq<u8>)
    ensures
        forall|i: int|
            0 <= i < base64_spec(b).len() ==> {
                let c = #[trigger] base64_spec(b)[i];
                ('A' <= c <= 'Z') || ('a' <= c <= 'z') || ('0' <= c <= '9') || c == '+' || c
                    == '/' || c == '='
            },
    decreases b.len(),
{
    if b.len() >= 3 {
        lemma_base64_alphabet(b.skip(3));
        let head = seq![
            b64_char((b[0] / 4) as nat),
            b64_char(((b[0] % 4) * 16 + b[1] / 16) as nat),
            b64_char(((b[1] % 16) * 4 + b[2] / 64) as nat),
            b64_char((b[2] % 64) as nat),
        ];
        assert(base64_spec(b) == head + base64_spec(b.skip(3)));
        assert forall|i: int| 0 <= i < base64_spec(b).len() implies {
            let c = #[trigger] base64_spec(b)[i];
            ('A' <= c <= 'Z') || ('a' <= c <= 'z') || ('0' <= c <= '9') || c == '+' || c == '/'
                || c == '='
        } by {
            if i >= 4 {
                assert(base64_spec(b)[i] == base64_spec(b.skip(3))[i - 4]);
            }
        }
    }
}

proof fn lemma_icns_walk_png(b: Seq<u8>, end: int, offset: int, found: Option<(int, int)>)
    requires
        end <= b.len(),
        found matches Some((s, e)) ==> 0 <= s <= e <= b.len() && b.subrange(s, e).len() >= 8
            && b.subrange(s, e).take(8) == png_signature(),
    ensures
        icns_walk(b, end, offset, found) matches Some(Some((s, e))) ==> 0 <= s <= e <= b.len()
            && b.subrange(s, e).len() >= 8 && b.subrange(s, e).take(8) == png_signature(),
    decreases end - offset,
{
    if !(offset < 0 || offset >= end) && end - offset >= 8 {
        let chunk_len = be_u32_at(b, offset + 4);
        let chunk_end = offset + chunk_len;
        if !(chunk_len < 8 || chunk_end > end) {
            let start = offset + 8;
            let payload = b.subrange(start, chunk_end);
            let next = if found is None && payload.len() >= 8 && payload.take(8) == png_signature() {
                Some((start, chunk_end))
            } else {
                found
            };
            lemma_icns_walk_png(b, end, chunk_end, next);
        }
    }
}

/// The payload found inside an `.icns` file is a PNG: it opens with the PNG signature.
pub proof fn lemma_icns_payload_is_png(b: Seq<u8>)
    ensures
        icns_png_spec(b) matches Some(p) ==> p.len() >= 8 && p.take(8) == png_signature(),
{
    if b.len() >= 8 && b.take(4) == icns_magic() {
        let declared = be_u32_at(b, 4);
        if declared >= 8 && declared <= b.len() {
            lemma_icns_walk_png(b, declared as int, 8, None);
        }
    }
}

} // verus!
