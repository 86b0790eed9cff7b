//! macOS capture and encoding helpers that need no framework: timestamps, status and
//! error classification, native window ids, and AVCC to Annex-B framing.

use vstd::prelude::*;

use crate::decimal::{all_digits, dec, parse_unsigned, parse_unsigned_chars, write_dec};
use crate::protocol::AppRelayError;
use crate::text::{
    chars_of,
    extend_chars,
    find_sub,
    find_sub_index,
    lowercase,
    string_from_chars,
    to_lowercase,
    trim_chars,
    trim_spec,
};

verus! {

/// A CoreMedia time value.
#[derive(Clone, Copy, Debug, PartialEq, Eq, Structural)]
pub struct CMTime {
    pub value: i64,
    pub timescale: i32,
    pub flags: u32,
    pub epoch: i64,
}

/// The flag that marks a time value as valid.
pub const K_CMTIME_FLAG_VALID: u32 = 1;

/// A valid time of `value / timescale` seconds.
pub fn cm_time(value: i64, timescale: i32) -> (t: CMTime)
    ensures
        t == (CMTime { value, timescale, flags: K_CMTIME_FLAG_VALID, epoch: 0 }),
{
    CMTime { value, timescale, flags: K_CMTIME_FLAG_VALID, epoch: 0 }
}

/// The invalid time: every field zero.
pub fn cm_time_invalid() -> (t: CMTime)
    ensures
        t == (CMTime { value: 0, timescale: 0, flags: 0, epoch: 0 }),
{
    CMTime { value: 0, timescale: 0, flags: 0, epoch: 0 }
}

/// The decimal rendering of a signed integer.
pub open spec fn sdec(n: int) -> Seq<char> {
    if n < 0 {
        "-"@ + dec((-n) as nat)
    } else {
        dec(n as nat)
    }
}

fn write_sdec(n: i32, out: &mut Vec<char>)
    ensures
        final(out)@ == old(out)@ + sdec(n as int),
{
    if n < 0 {
        proof {
            reveal_strlit("-");
        }
        out.push('-');
        let m: i64 = -(n as i64);
        write_dec(m as u64, out);
        assert(out@ =~= old(out)@ + sdec(n as int));
    } else {
        write_dec(n as u64, out);
    }
}

/// Whether a VideoToolbox status is the caller's fault (a rejected property or parameter)
/// rather than the service's.
pub open spec fn status_is_invalid_request(status: i32) -> bool {
    status == -12900 || status == -12901 || status == -50
}

/// The explanation given for a VideoToolbox status code.
pub open spec fn status_detail(status: i32) -> Seq<char> {
    if status == -12915 {
        "VideoToolbox encoder is unavailable right now (osstatus "@ + sdec(status as int) + ")"@
    } else if status == -12911 {
        "VideoToolbox encoder malfunction (osstatus "@ + sdec(status as int) + ")"@
    } else if status == -12908 {
        "no H.264 encoder is registered with VideoToolbox (osstatus "@ + sdec(status as int)
            + ")"@
    } else if status == -12903 || status == -12902 {
        "VideoToolbox session is invalid (osstatus "@ + sdec(status as int) + ")"@
    } else if status == -12900 || status == -12901 {
        "VideoToolbox rejected an encoder property (osstatus "@ + sdec(status as int) + ")"@
    } else if status == -50 {
        "VideoToolbox parameter is invalid (osstatus "@ + sdec(status as int) + ")"@
    } else {
        "VideoToolbox returned osstatus "@ + sdec(status as int)
    }
}

/// The message for a failed VideoToolbox call: `<context> failed: <detail>`.
pub open spec fn status_message(context: Seq<char>, status: i32) -> Seq<char> {
    context + " failed: "@ + status_detail(status)
}

/// The error for a failed VideoToolbox call.
pub fn map_videotoolbox_status(context: &str, status: i32) -> (e: AppRelayError)
    ensures
        status_is_invalid_request(status) ==> (e matches AppRelayError::InvalidRequest(m) && m@
            == status_message(context@, status)),
        !status_is_invalid_request(status) ==> (e matches AppRelayError::ServiceUnavailable(m)
            && m@ == status_message(context@, status)),
{
    let mut out = chars_of(context);
    let failed = chars_of(" failed: ");
    extend_chars(&mut out, failed.as_slice());
    let (lead, closing): (&str, bool) = if status == -12915 {
        ("VideoToolbox encoder is unavailable right now (osstatus ", true)
    } else if status == -12911 {
        ("VideoToolbox encoder malfunction (osstatus ", true)
    } else if status == -12908 {
        ("no H.264 encoder is registered with VideoToolbox (osstatus ", true)
    } else if status == -12903 || status == -12902 {
        ("VideoToolbox session is invalid (osstatus ", true)
    } else if status == -12900 || status == -12901 {
        ("VideoToolbox rejected an encoder property (osstatus ", true)
    } else if status == -50 {
        ("VideoToolbox parameter is invalid (osstatus ", true)
    } else {
        ("VideoToolbox returned osstatus ", false)
    };
    let lead_chars = chars_of(lead);
    extend_chars(&mut out, lead_chars.as_slice());
    write_sdec(status, &mut out);
    proof {
        reveal_strlit(")");
    }
    if closing {
        out.push(')');
    }
    assert(out@ =~= status_message(context@, status));
    let message = string_from_chars(out.as_slice());
    if status == -12900 || status == -12901 || status == -50 {
        AppRelayError::InvalidRequest(message)
    } else {
        AppRelayError::ServiceUnavailable(message)
    }
}

/// Whether an error message speaks of a missing permission: its lowercase form mentions
/// `permission`, `tcc`, `not authorized` or `declined`.
pub open spec fn mentions_permission(message: Seq<char>) -> bool {
    let lower = lowercase(message);
    ||| find_sub(lower, "permission"@) is Some
    ||| find_sub(lower, "tcc"@) is Some
    ||| find_sub(lower, "not authorized"@) is Some
    ||| find_sub(lower, "declined"@) is Some
}

fn contains_text(haystack: &Vec<char>, needle: &str) -> (b: bool)
    ensures
        b == (find_sub(haystack@, needle@) is Some),
{
    let n = chars_of(needle);
    find_sub_index(haystack.as_slice(), n.as_slice()).is_some()
}

/// A framework error message as an error: `PermissionDenied` when it speaks of a missing
/// permission, `ServiceUnavailable` otherwise; the message is kept.
pub fn classify_error_message(message: String) -> (e: AppRelayError)
    ensures
        mentions_permission(message@) ==> (e matches AppRelayError::PermissionDenied(m) && m
            == message),
        !mentions_permission(message@) ==> (e matches AppRelayError::ServiceUnavailable(m) && m
            == message),
{
    let lower_text = to_lowercase(message.as_str());
    let lower = chars_of(lower_text.as_str());
    if contains_text(&lower, "permission") || contains_text(&lower, "tcc") || contains_text(
        &lower,
        "not authorized",
    ) || contains_text(&lower, "declined") {
        AppRelayError::PermissionDenied(message)
    } else {
        AppRelayError::ServiceUnavailable(message)
    }
}

/// The index of the last `c` in `s`, if any.
pub open spec fn rfind_char(s: Seq<char>, c: char) -> Option<int>
    decreases s.len(),
{
    if s.len() == 0 {
        None
    } else if s.last() == c {
        Some(s.len() - 1)
    } else {
        rfind_char(s.drop_last(), c)
    }
}

proof fn lemma_rfind_char(s: Seq<char>, c: char)
    ensures
        rfind_char(s, c) matches Some(i) ==> 0 <= i < s.len() && s[i] == c,
    decreases s.len(),
{
    if s.len() > 0 && s.last() != c {
        lemma_rfind_char(s.drop_last(), c);
    }
}

fn rfind_char_index(s: &[char], c: char) -> (r: Option<usize>)
    ensures
        r matches Some(i) ==> rfind_char(s@, c) == Some(i as int),
        r is None ==> rfind_char(s@, c) is None,
{
    let mut k: usize = s.len();
    assert(s@.take(k as int) =~= s@);
    while k > 0
        invariant
            k <= s@.len(),
            rfind_char(s@, c) == rfind_char(s@.take(k as int), c),
        decreases k,
    {
        if s[k - 1] == c {
            return Some(k - 1);
        }
        assert(s@.take(k as int).drop_last() =~= s@.take(k - 1));
        k = k - 1;
    }
    None
}

/// The part of a macOS selected-window id (`macos-window-<session>-<native>`) after its last
/// `-`, once the `macos-window-` prefix is removed; `Err(true)` without the prefix,
/// `Err(false)` without a `-` after it.
pub open spec fn native_window_part(id: Seq<char>) -> Result<Seq<char>, bool> {
    let prefix = "macos-window-"@;
    if id.len() < prefix.len() || id.take(prefix.len() as int) != prefix {
        Err(true)
    } else {
        let encoded = id.skip(prefix.len() as int);
        match rfind_char(encoded, '-') {
            None => Err(false),
            Some(k) => Ok(encoded.skip(k + 1)),
        }
    }
}

/// The message for a selected-window id that is not a macOS native window id.
pub open spec fn not_native_message(id: Seq<char>) -> Seq<char> {
    "selected window id `"@ + id + "` is not a macOS native window id"@
}

/// The message for a macOS selected-window id without a native id part.
pub open spec fn missing_native_message(id: Seq<char>) -> Seq<char> {
    "selected window id `"@ + id + "` is missing a macOS native window id"@
}

/// The message for a macOS selected-window id whose native id part is unusable.
pub open spec fn unusable_native_message(id: Seq<char>) -> Seq<char> {
    "selected window id `"@ + id + "` has an unusable macOS native window id"@
}

fn id_message(lead: &str, id: &str, tail: &str) -> (r: String)
    ensures
        r@ == lead@ + id@ + tail@,
{
    let mut out = chars_of(lead);
    let middle = chars_of(id);
    extend_chars(&mut out, middle.as_slice());
    let end = chars_of(tail);
    extend_chars(&mut out, end.as_slice());
    string_from_chars(out.as_slice())
}

fn native_part(selected_window_id: &str) -> (r: Result<Vec<char>, bool>)
    ensures
        match r {
            Ok(v) => native_window_part(selected_window_id@) == Ok::<Seq<char>, bool>(v@),
            Err(b) => native_window_part(selected_window_id@) == Err::<Seq<char>, bool>(b),
        },
{
    let chars = chars_of(selected_window_id);
    let prefix = chars_of("macos-window-");
    let n = prefix.len();
    if chars.len() < n {
        return Err(true);
    }
    let head = crate::text::slice_chars(chars.as_slice(), 0, n);
    assert(head@ =~= chars@.take(n as int));
    if !crate::text::chars_equal(head.as_slice(), prefix.as_slice()) {
        return Err(true);
    }
    let encoded = crate::text::slice_chars(chars.as_slice(), n, chars.len());
    assert(encoded@ =~= chars@.skip(n as int));
    match rfind_char_index(encoded.as_slice(), '-') {
        None => Err(false),
        Some(k) => {
            proof {
                lemma_rfind_char(encoded@, '-');
            }
            let tail = crate::text::slice_chars(encoded.as_slice(), k + 1, encoded.len());
            assert(tail@ =~= encoded@.skip(k + 1));
            Ok(tail)
        },
    }
}

/// The CGWindowID inside a macOS selected-window id, or the message saying why there is
/// none.
pub open spec fn native_window_id_of(id: Seq<char>) -> Result<u32, Seq<char>> {
    match native_window_part(id) {
        Err(true) => Err(not_native_message(id)),
        Err(false) => Err(missing_native_message(id)),
        Ok(part) => match parse_unsigned(trim_spec(part), u32::MAX as nat) {
            Some(n) => Ok(n as u32),
            None => Err(unusable_native_message(id)),
        },
    }
}

/// The CGWindowID inside a macOS selected-window id, as ScreenCaptureKit needs it: the
/// trimmed part after the last `-` must read as a `u32`.
pub fn parse_native_window_id(selected_window_id: &str) -> (r: Result<u32, AppRelayError>)
    ensures
        match native_window_id_of(selected_window_id@) {
            Ok(n) => r == Ok::<u32, AppRelayError>(n),
            Err(m) => r matches Err(AppRelayError::InvalidRequest(x)) && x@ == m,
        },
        native_window_part(selected_window_id@) == Err::<Seq<char>, bool>(true) ==> (r matches Err(
            e,
        ) && (e matches AppRelayError::InvalidRequest(m) && m@ == not_native_message(
            selected_window_id@,
        ))),
        native_window_part(selected_window_id@) == Err::<Seq<char>, bool>(false) ==> (r matches Err(
            e,
        ) && (e matches AppRelayError::InvalidRequest(m) && m@ == missing_native_message(
            selected_window_id@,
        ))),
        native_window_part(selected_window_id@) matches Ok(part) ==> match parse_unsigned(
            trim_spec(part),
            u32::MAX as nat,
        ) {
            Some(n) => r == Ok::<u32, AppRelayError>(n as u32),
            None => r matches Err(e) && (e matches AppRelayError::InvalidRequest(m) && m@
                == unusable_native_message(selected_window_id@)),
        },
{
    match native_part(selected_window_id) {
        Err(true) => Err(
            AppRelayError::InvalidRequest(
                id_message(
                    "selected window id `",
                    selected_window_id,
                    "` is not a macOS native window id",
                ),
            ),
        ),
        Err(false) => Err(
            AppRelayError::InvalidRequest(
                id_message(
                    "selected window id `",
                    selected_window_id,
                    "` is missing a macOS native window id",
                ),
            ),
        ),
        Ok(part) => {
            let trimmed = trim_chars(part.as_slice());
            match parse_unsigned_chars(trimmed.as_slice(), 0xffff_ffffu64) {
                Some(n) => Ok(n as u32),
                None => Err(
                    AppRelayError::InvalidRequest(
                        id_message(
                            "selected window id `",
                            selected_window_id,
                            "` has an unusable macOS native window id",
                        ),
                    ),
                ),
            }
        },
    }
}

/// The native window id that keyboard input targets, as text: the trimmed part after the
/// last `-` must be a non-empty run of ASCII digits.
pub fn parse_macos_native_keyboard_window_id(window_id: &str) -> (r: Result<
    String,
    AppRelayError,
>)
    ensures
        native_window_part(window_id@) == Err::<Seq<char>, bool>(true) ==> (r matches Err(e) && (e
            matches AppRelayError::InvalidRequest(m) && m@ == not_native_message(window_id@))),
        native_window_part(window_id@) == Err::<Seq<char>, bool>(false) ==> (r matches Err(e) && (
        e matches AppRelayError::InvalidRequest(m) && m@ == missing_native_message(window_id@))),
        native_window_part(window_id@) matches Ok(part) ==> if trim_spec(part).len() > 0
            && all_digits(trim_spec(part)) {
            r matches Ok(s) && s@ == trim_spec(part)
        } else {
            r matches Err(e) && (e matches AppRelayError::InvalidRequest(m) && m@
                == unusable_native_message(window_id@))
        },
{
    match native_part(window_id) {
        Err(true) => Err(
            AppRelayError::InvalidRequest(
                id_message("selected window id `", window_id, "` is not a macOS native window id"),
            ),
        ),
        Err(false) => Err(
            AppRelayError::InvalidRequest(
                id_message(
                    "selected window id `",
                    window_id,
                    "` is missing a macOS native window id",
                ),
            ),
        ),
        Ok(part) => {
            let trimmed = trim_chars(part.as_slice());
            let mut digits = trimmed.len() > 0;
            let mut i: usize = 0;
            while i < trimmed.len()
                invariant
                    i <= trimmed@.len(),
                    digits == (trimmed@.len() > 0 && forall|j: int|
                        0 <= j < i ==> crate::decimal::is_digit(#[trigger] trimmed@[j])),
                decreases trimmed@.len() - i,
            {
                let c = trimmed[i];
                let code = c as u32;
                let is_digit_char = 48 <= code && code <= 57;
                assert(is_digit_char == crate::decimal::is_digit(trimmed@[i as int]));
                if !is_digit_char {
                    digits = false;
                }
                i = i + 1;
            }
            if digits {
                Ok(string_from_chars(trimmed.as_slice()))
            } else {
                Err(
                    AppRelayError::InvalidRequest(
                        id_message(
                            "selected window id `",
                            window_id,
                            "` has an unusable macOS native window id",
                        ),
                    ),
                )
            }
        },
    }
}

/// The big-endian 32-bit number in `d[i..i + 4]`.
pub open spec fn be_u32(d: Seq<u8>, i: int) -> nat {
    (d[i] as nat) * 16777216 + (d[i + 1] as nat) * 65536 + (d[i + 2] as nat) * 256 + (d[i + 3] as nat)
}

/// The Annex-B start code.
pub open spec fn start_code() -> Seq<u8> {
    seq![0u8, 0u8, 0u8, 1u8]
}

/// AVCC framing from `offset` on, rewritten as Annex-B: each NAL unit's 4-byte big-endian
/// length becomes a start code. An empty unit, or one that runs past the end, is
/// malformed: `Err((unit length, offset after the length))`. Fewer than 4 trailing bytes
/// are ignored.
pub open spec fn annex_b_units(d: Seq<u8>, offset: int) -> Result<Seq<u8>, (nat, int)>
    decreases d.len() - offset,
{
    if offset < 0 || offset + 4 > d.len() {
        Ok(Seq::empty())
    } else {
        let n = be_u32(d, offset);
        let start = offset + 4;
        if n == 0 || start + n > d.len() {
            Err((n, start))
        } else {
            match annex_b_units(d, start + n) {
                Ok(rest) => Ok(start_code() + d.subrange(start, start + n) + rest),
                Err(e) => Err(e),
            }
        }
    }
}

/// The message for malformed AVCC framing.
pub open spec fn malformed_avcc_message(nal_len: nat, offset: nat, total: nat) -> Seq<char> {
    "VideoToolbox produced a malformed AVCC sample buffer (nal_len="@ + dec(nal_len)
        + ", offset="@ + dec(offset) + ", total="@ + dec(total) + ")"@
}

fn malformed_avcc(nal_len: usize, offset: usize, total: usize) -> (e: AppRelayError)
    ensures
        e matches AppRelayError::ServiceUnavailable(m) && m@ == malformed_avcc_message(
            nal_len as nat,
            offset as nat,
            total as nat,
        ),
{
    let mut out = chars_of("VideoToolbox produced a malformed AVCC sample buffer (nal_len=");
    write_dec(nal_len as u64, &mut out);
    let a = chars_of(", offset=");
    extend_chars(&mut out, a.as_slice());
    write_dec(offset as u64, &mut out);
    let b = chars_of(", total=");
    extend_chars(&mut out, b.as_slice());
    write_dec(total as u64, &mut out);
    proof {
        reveal_strlit(")");
    }
    out.push(')');
    assert(out@ =~= malformed_avcc_message(nal_len as nat, offset as nat, total as nat));
    AppRelayError::ServiceUnavailable(string_from_chars(out.as_slice()))
}

/// An encoded sample rewritten from AVCC to Annex-B framing, after `parameter_sets` (the
/// SPS/PPS already in Annex-B framing, empty for a frame that carries none).
pub fn avcc_to_annex_b(parameter_sets: &[u8], data: &[u8]) -> (r: Result<Vec<u8>, AppRelayError>)
    ensures
        annex_b_units(data@, 0) matches Ok(units) ==> (r matches Ok(v) && v@ == parameter_sets@
            + units),
        annex_b_units(data@, 0) matches Err(e) ==> (r matches Err(x) && (x
            matches AppRelayError::ServiceUnavailable(m) && m@ == malformed_avcc_message(
            e.0,
            e.1 as nat,
            data@.len(),
        ))),
{
    let mut out: Vec<u8> = Vec::new();
    let mut i: usize = 0;
    while i < parameter_sets.len()
        invariant
            i <= parameter_sets@.len(),
            out@ == parameter_sets@.take(i as int),
        decreases parameter_sets@.len() - i,
    {
        out.push(parameter_sets[i]);
        i = i + 1;
        assert(out@ =~= parameter_sets@.take(i as int));
    }
    assert(parameter_sets@.take(i as int) =~= parameter_sets@);
    let total = data.len();
    let mut offset: usize = 0;
    while total - offset >= 4
        invariant
            total == data@.len(),
            offset <= total,
            match annex_b_units(data@, 0) {
                Ok(all) => annex_b_units(data@, offset as int) matches Ok(rest) && all
                    == out@.skip(parameter_sets@.len() as int) + rest,
                Err(e) => annex_b_units(data@, offset as int) == Err::<Seq<u8>, (nat, int)>(e),
            },
            out@.len() >= parameter_sets@.len(),
            out@.take(parameter_sets@.len() as int) == parameter_sets@,
        decreases total - offset,
    {
        let b0 = data[offset] as usize;
        let b1 = data[offset + 1] as usize;
        let b2 = data[offset + 2] as usize;
        let b3 = data[offset + 3] as usize;
        let nal_len: usize = b0 * 16777216 + b1 * 65536 + b2 * 256 + b3;
        assert(nal_len == be_u32(data@, offset as int));
        let start = offset + 4;
        if nal_len == 0 || nal_len > total - start {
            return Err(malformed_avcc(nal_len, start, total));
        }
        let ghost before = out@;
        out.push(0u8);
        out.push(0u8);
        out.push(0u8);
        out.push(1u8);
        let mut j: usize = start;
        while j < start + nal_len
            invariant
                start <= j <= start + nal_len <= total,
                total == data@.len(),
                out@ == before + start_code() + data@.subrange(start as int, j as int),
            decreases start + nal_len - j,
        {
            out.push(data[j]);
            j = j + 1;
            assert(out@ =~= before + start_code() + data@.subrange(start as int, j as int));
        }
        proof {
            let unit = start_code() + data@.subrange(start as int, (start + nal_len) as int);
            assert(out@ == before + unit);
            assert(out@.take(parameter_sets@.len() as int) =~= before.take(
                parameter_sets@.len() as int,
            ));
            assert(out@.skip(parameter_sets@.len() as int) =~= before.skip(
                parameter_sets@.len() as int,
            ) + unit);
            match annex_b_units(data@, 0) {
                Ok(all) => {
                    let rest = annex_b_units(data@, (start + nal_len) as int)->Ok_0;
                    assert(before.skip(parameter_sets@.len() as int) + (unit + rest) =~= (before.skip(
                        parameter_sets@.len() as int,
                    ) + unit) + rest);
                },
                Err(_) => {},
            }
        }
        offset = start + nal_len;
    }
    proof {
        assert(out@ =~= parameter_sets@ + out@.skip(parameter_sets@.len() as int));
        match annex_b_units(data@, 0) {
            Ok(all) => {
                assert(all =~= out@.skip(parameter_sets@.len() as int));
            },
            Err(_) => {},
        }
    }
    Ok(out)
}

} // verus!

verus! {

/// Rewriting AVCC framing as Annex-B never makes the data longer: each 4-byte length is
/// replaced by a 4-byte start code, and trailing bytes are dropped.
pub proof fn lemma_annex_b_not_longer(d: Seq<u8>, offset: int)
    requires
        0 <= offset <= d.len(),
    ensures
        annex_b_units(d, offset) matches Ok(u) ==> u.len() <= d.len() - offset,
    decreases d.len() - offset,
{
    if offset + 4 <= d.len() {
        let n = be_u32(d, offset);
        let start = offset + 4;
        if !(n == 0 || start + n > d.len()) {
            lemma_annex_b_not_longer(d, start + n);
        }
    }
}

} // verus!
