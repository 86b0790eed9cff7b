//! Keyboard input on macOS: which window is targeted, which key is meant, and the
//! AppleScript that delivers it. The application runs the script.

use vstd::prelude::*;

use crate::macos::parse_macos_native_keyboard_window_id;
use crate::protocol::{AppRelayError, ApplicationSession, WindowSelectionMethod};
use crate::text::{chars_of, extend_chars, is_blank, str_is_blank, string_from_chars, trim_chars, trim_spec};

verus! {

/// Whether a key goes down or comes up.
#[derive(Clone, Copy, Debug, PartialEq, Eq, Structural)]
pub enum KeyAction {
    Press,
    Release,
}

/// The modifier keys held with a key.
#[derive(Clone, Copy, Debug, PartialEq, Eq, Structural)]
pub struct KeyModifiers {
    pub shift: bool,
    pub control: bool,
    pub alt: bool,
    pub meta: bool,
}

impl Default for KeyModifiers {
    fn default() -> (m: Self)
        ensures
            m == (KeyModifiers { shift: false, control: false, alt: false, meta: false }),
    {
        KeyModifiers { shift: false, control: false, alt: false, meta: false }
    }
}

/// ASCII lowercase of one character (`char::to_ascii_lowercase`).
pub open spec fn ascii_lower(c: char) -> char {
    if 65 <= (c as u32) <= 90 {
        ((c as u32) + 32) as char
    } else {
        c
    }
}

pub open spec fn ascii_lowercase(s: Seq<char>) -> Seq<char> {
    s.map_values(|c: char| ascii_lower(c))
}

pub fn ascii_lowercase_chars(s: &[char]) -> (r: Vec<char>)
    ensures
        r@ == ascii_lowercase(s@),
{
    let mut out: Vec<char> = Vec::new();
    let mut i: usize = 0;
    while i < s.len()
        invariant
            i <= s@.len(),
            out@ == ascii_lowercase(s@.take(i as int)),
        decreases s@.len() - i,
    {
        let c = s[i];
        let code = c as u32;
        let lower = if 65 <= code && code <= 90 {
            let shifted = (code + 32) as u8;
            shifted as char
        } else {
            c
        };
        assert(lower == ascii_lower(c));
        out.push(lower);
        i = i + 1;
        assert(out@ =~= ascii_lowercase(s@.take(i as int)));
    }
    assert(s@.take(s@.len() as int) =~= s@);
    out
}

/// The macOS virtual key code of a named key, by its trimmed name in any ASCII case.
pub open spec fn key_code_of(key: Seq<char>) -> Option<u16> {
    let k = ascii_lowercase(trim_spec(key));
    if k == "enter"@ || k == "return"@ {
        Some(36)
    } else if k == "tab"@ {
        Some(48)
    } else if k == "space"@ || k == "spacebar"@ {
        Some(49)
    } else if k == "escape"@ || k == "esc"@ {
        Some(53)
    } else if k == "backspace"@ || k == "delete"@ {
        Some(51)
    } else if k == "arrowleft"@ || k == "left"@ {
        Some(123)
    } else if k == "arrowright"@ || k == "right"@ {
        Some(124)
    } else if k == "arrowdown"@ || k == "down"@ {
        Some(125)
    } else if k == "arrowup"@ || k == "up"@ {
        Some(126)
    } else {
        None
    }
}

/// The macOS virtual key code of a named key.
pub fn macos_key_code(key: &str) -> (r: Option<u16>)
    ensures
        r == key_code_of(key@),
{
    let chars = chars_of(key);
    let trimmed = trim_chars(chars.as_slice());
    let k = ascii_lowercase_chars(trimmed.as_slice());
    let s = k.as_slice();
    if crate::text::chars_are(s, "enter") || crate::text::chars_are(s, "return") {
        Some(36)
    } else if crate::text::chars_are(s, "tab") {
        Some(48)
    } else if crate::text::chars_are(s, "space") || crate::text::chars_are(s, "spacebar") {
        Some(49)
    } else if crate::text::chars_are(s, "escape") || crate::text::chars_are(s, "esc") {
        Some(53)
    } else if crate::text::chars_are(s, "backspace") || crate::text::chars_are(s, "delete") {
        Some(51)
    } else if crate::text::chars_are(s, "arrowleft") || crate::text::chars_are(s, "left") {
        Some(123)
    } else if crate::text::chars_are(s, "arrowright") || crate::text::chars_are(s, "right") {
        Some(124)
    } else if crate::text::chars_are(s, "arrowdown") || crate::text::chars_are(s, "down") {
        Some(125)
    } else if crate::text::chars_are(s, "arrowup") || crate::text::chars_are(s, "up") {
        Some(126)
    } else {
        None
    }
}

/// The names of the held modifiers, in the order shift, control, option, command.
pub open spec fn modifier_names(m: KeyModifiers) -> Seq<Seq<char>> {
    let a = if m.shift {
        seq!["shift down"@]
    } else {
        Seq::empty()
    };
    let b = if m.control {
        seq!["control down"@]
    } else {
        Seq::empty()
    };
    let c = if m.alt {
        seq!["option down"@]
    } else {
        Seq::empty()
    };
    let d = if m.meta {
        seq!["command down"@]
    } else {
        Seq::empty()
    };
    a + b + c + d
}

/// ` using {a, b}` for the held modifiers, or nothing when none is held.
pub open spec fn modifier_clause(m: KeyModifiers) -> Seq<char> {
    let names = modifier_names(m);
    if names.len() == 0 {
        Seq::empty()
    } else {
        " using {"@ + crate::fields::join_fields_with(names, ", "@) + "}"@
    }
}

fn push_name(names: &mut Vec<Vec<char>>, name: &str)
    ensures
        crate::fields::views(final(names)@) == crate::fields::views(old(names)@).push(name@),
{
    let ghost before = names@;
    names.push(chars_of(name));
    assert(crate::fields::views(names@) =~= crate::fields::views(before).push(name@));
}

/// The AppleScript clause for the held modifiers.
pub fn macos_modifier_clause(modifiers: KeyModifiers) -> (r: String)
    ensures
        r@ == modifier_clause(modifiers),
{
    let mut names: Vec<Vec<char>> = Vec::new();
    if modifiers.shift {
        push_name(&mut names, "shift down");
    }
    if modifiers.control {
        push_name(&mut names, "control down");
    }
    if modifiers.alt {
        push_name(&mut names, "option down");
    }
    if modifiers.meta {
        push_name(&mut names, "command down");
    }
    assert(crate::fields::views(names@) =~= modifier_names(modifiers));
    if names.len() == 0 {
        return String::new();
    }
    let mut out = chars_of(" using {");
    let joined = crate::fields::join_chars_with(&names, ", ");
    extend_chars(&mut out, joined.as_slice());
    let close = chars_of("}");
    extend_chars(&mut out, close.as_slice());
    string_from_chars(out.as_slice())
}

/// An `osascript` run: each script line is passed with `-e`, then the arguments.
#[derive(Debug, PartialEq, Eq)]
pub struct OsascriptInvocation {
    pub script_lines: Vec<String>,
    pub args: Vec<String>,
}

pub open spec fn texts(v: Seq<String>) -> Seq<Seq<char>> {
    v.map_values(|s: String| s@)
}

/// The script lines that find the target process, and the window when one is named:
/// `window_check` tests whether the arguments name a window.
pub open spec fn target_lines(window_check: Seq<char>) -> Seq<Seq<char>> {
    seq![
        "tell application \"System Events\""@,
        "set matchingProcesses to application processes whose bundle identifier is targetBundleId"@,
        "if (count of matchingProcesses) is 0 then error \"application process not found\""@,
        "set targetProcess to missing value"@,
        window_check,
        "repeat with candidateProcess in matchingProcesses"@,
        "set matchingWindows to windows of candidateProcess whose id is targetWindowId"@,
        "if (count of matchingWindows) > 0 then"@,
        "set targetProcess to candidateProcess"@,
        "perform action \"AXRaise\" of item 1 of matchingWindows"@,
        "exit repeat"@,
        "end if"@,
        "end repeat"@,
        "if targetProcess is missing value then error \"window not found\""@,
        "else"@,
        "set targetProcess to item 1 of matchingProcesses"@,
        "end if"@,
        "set frontmost of targetProcess to true"@,
    ]
}

/// The script that types `item 2 of argv` (read into `input_name`) into the target, with
/// `command` as the typing line.
pub open spec fn two_argument_script(input_line: Seq<char>, command: Seq<char>) -> Seq<Seq<char>> {
    seq![
        "on run argv"@,
        "set targetBundleId to item 1 of argv"@,
        input_line,
        "if (count of argv) > 2 then set targetWindowId to (item 3 of argv) as integer"@,
    ] + target_lines("if (count of argv) > 2 then"@) + seq![command, "end tell"@, "end run"@]
}

/// The script that sends a key code to the target.
pub open spec fn key_code_script(command: Seq<char>) -> Seq<Seq<char>> {
    seq![
        "on run argv"@,
        "set targetBundleId to item 1 of argv"@,
        "if (count of argv) > 1 then set targetWindowId to (item 2 of argv) as integer"@,
    ] + target_lines("if (count of argv) > 1 then"@) + seq![command, "end tell"@, "end run"@]
}

/// The arguments: the bundle id, the given texts, then the native window id if any.
pub open spec fn script_args(
    bundle_id: Seq<char>,
    middle: Seq<Seq<char>>,
    native_window_id: Option<Seq<char>>,
) -> Seq<Seq<char>> {
    seq![bundle_id] + middle + match native_window_id {
        Some(w) => seq![w],
        None => Seq::empty(),
    }
}

fn push_line(lines: &mut Vec<String>, line: &str)
    ensures
        texts(final(lines)@) == texts(old(lines)@).push(line@),
{
    let ghost before = lines@;
    lines.push(String::from_str(line));
    assert(texts(lines@) =~= texts(before).push(line@));
}

fn push_target_lines(lines: &mut Vec<String>, window_check: &str)
    ensures
        texts(final(lines)@) == texts(old(lines)@) + target_lines(window_check@),
{
    let ghost before = texts(lines@);
    push_line(lines, "tell application \"System Events\"");
    push_line(
        lines,
        "set matchingProcesses to application processes whose bundle identifier is targetBundleId",
    );
    push_line(
        lines,
        "if (count of matchingProcesses) is 0 then error \"application process not found\"",
    );
    push_line(lines, "set targetProcess to missing value");
    push_line(lines, window_check);
    push_line(lines, "repeat with candidateProcess in matchingProcesses");
    push_line(lines, "set matchingWindows to windows of candidateProcess whose id is targetWindowId");
    push_line(lines, "if (count of matchingWindows) > 0 then");
    push_line(lines, "set targetProcess to candidateProcess");
    push_line(lines, "perform action \"AXRaise\" of item 1 of matchingWindows");
    push_line(lines, "exit repeat");
    push_line(lines, "end if");
    push_line(lines, "end repeat");
    push_line(lines, "if targetProcess is missing value then error \"window not found\"");
    push_line(lines, "else");
    push_line(lines, "set targetProcess to item 1 of matchingProcesses");
    push_line(lines, "end if");
    push_line(lines, "set frontmost of targetProcess to true");
    assert(texts(lines@) =~= before + target_lines(window_check@));
}

fn two_argument_lines(input_line: &str, command: &str) -> (r: Vec<String>)
    ensures
        texts(r@) == two_argument_script(input_line@, command@),
{
    let mut lines: Vec<String> = Vec::new();
    push_line(&mut lines, "on run argv");
    push_line(&mut lines, "set targetBundleId to item 1 of argv");
    push_line(&mut lines, input_line);
    push_line(
        &mut lines,
        "if (count of argv) > 2 then set targetWindowId to (item 3 of argv) as integer",
    );
    push_target_lines(&mut lines, "if (count of argv) > 2 then");
    push_line(&mut lines, command);
    push_line(&mut lines, "end tell");
    push_line(&mut lines, "end run");
    assert(texts(lines@) =~= two_argument_script(input_line@, command@));
    lines
}

fn key_code_lines(command: &str) -> (r: Vec<String>)
    ensures
        texts(r@) == key_code_script(command@),
{
    let mut lines: Vec<String> = Vec::new();
    push_line(&mut lines, "on run argv");
    push_line(&mut lines, "set targetBundleId to item 1 of argv");
    push_line(
        &mut lines,
        "if (count of argv) > 1 then set targetWindowId to (item 2 of argv) as integer",
    );
    push_target_lines(&mut lines, "if (count of argv) > 1 then");
    push_line(&mut lines, command);
    push_line(&mut lines, "end tell");
    push_line(&mut lines, "end run");
    assert(texts(lines@) =~= key_code_script(command@));
    lines
}

pub open spec fn opt_view(o: Option<&str>) -> Option<Seq<char>> {
    match o {
        Some(s) => Some(s@),
        None => None,
    }
}

fn arguments(bundle_id: &str, middle: Option<&str>, native_window_id: Option<&str>) -> (r: Vec<
    String,
>)
    ensures
        texts(r@) == script_args(
            bundle_id@,
            match middle {
                Some(m) => seq![m@],
                None => Seq::empty(),
            },
            opt_view(native_window_id),
        ),
{
    let mut args: Vec<String> = Vec::new();
    push_line(&mut args, bundle_id);
    match middle {
        Some(m) => push_line(&mut args, m),
        None => {},
    }
    match native_window_id {
        Some(w) => push_line(&mut args, w),
        None => {},
    }
    assert(texts(args@) =~= script_args(
        bundle_id@,
        match middle {
            Some(m) => seq![m@],
            None => Seq::empty(),
        },
        opt_view(native_window_id),
    ));
    args
}

/// The script that types `text` into the target application (and window, if named).
pub fn macos_keyboard_text_invocation(
    bundle_id: &str,
    native_window_id: Option<&str>,
    text: &str,
) -> (r: OsascriptInvocation)
    ensures
        texts(r.script_lines@) == two_argument_script(
            "set inputText to item 2 of argv"@,
            "keystroke inputText"@,
        ),
        texts(r.args@) == script_args(bundle_id@, seq![text@], opt_view(native_window_id)),
{
    OsascriptInvocation {
        script_lines: two_argument_lines("set inputText to item 2 of argv", "keystroke inputText"),
        args: arguments(bundle_id, Some(text), native_window_id),
    }
}

/// How a key is delivered: nothing for a release; a named key by key code; a single
/// character by keystroke; anything else is refused.
pub open spec fn key_delivery_ok(key: Seq<char>, action: KeyAction) -> bool {
    action == KeyAction::Release || key_code_of(key) is Some || key.len() == 1
}

pub open spec fn unsupported_key_message(key: Seq<char>) -> Seq<char> {
    "macOS keyboard key `"@ + key + "` is not supported"@
}

/// The script that delivers a key to the target application (and window, if named), or
/// `None` when there is nothing to do (a key release).
pub fn macos_keyboard_key_invocation(
    bundle_id: &str,
    native_window_id: Option<&str>,
    key: &str,
    action: KeyAction,
    modifiers: KeyModifiers,
) -> (r: Result<Option<OsascriptInvocation>, AppRelayError>)
    ensures
        action == KeyAction::Release ==> r matches Ok(None),
        action != KeyAction::Release ==> (key_code_of(key@) matches Some(code) ==> (r matches Ok(
            Some(inv),
        ) && texts(inv.script_lines@) == key_code_script(
            "key code "@ + crate::decimal::dec(code as nat) + modifier_clause(modifiers),
        ) && texts(inv.args@) == script_args(
            bundle_id@,
            Seq::empty(),
            opt_view(native_window_id),
        ))),
        action != KeyAction::Release && key_code_of(key@) is None && key@.len() == 1 ==> (r matches Ok(
            Some(inv),
        ) && texts(inv.script_lines@) == two_argument_script(
            "set inputKey to item 2 of argv"@,
            "keystroke inputKey"@ + modifier_clause(modifiers),
        ) && texts(inv.args@) == script_args(bundle_id@, seq![key@], opt_view(native_window_id))),
        !key_delivery_ok(key@, action) ==> (r matches Err(e) && (e
            matches AppRelayError::InvalidRequest(m) && m@ == unsupported_key_message(key@))),
{
    if action == KeyAction::Release {
        return Ok(None);
    }
    match macos_key_code(key) {
        Some(code) => {
            let mut command = chars_of("key code ");
            crate::decimal::write_dec(code as u64, &mut command);
            let clause = macos_modifier_clause(modifiers);
            let clause_chars = chars_of(clause.as_str());
            extend_chars(&mut command, clause_chars.as_slice());
            let command_text = string_from_chars(command.as_slice());
            return Ok(
                Some(
                    OsascriptInvocation {
                        script_lines: key_code_lines(command_text.as_str()),
                        args: arguments(bundle_id, None, native_window_id),
                    },
                ),
            );
        },
        None => {},
    }
    let chars = chars_of(key);
    if chars.len() == 1 {
        let mut command = chars_of("keystroke inputKey");
        let clause = macos_modifier_clause(modifiers);
        let clause_chars = chars_of(clause.as_str());
        extend_chars(&mut command, clause_chars.as_slice());
        let command_text = string_from_chars(command.as_slice());
        return Ok(
            Some(
                OsascriptInvocation {
                    script_lines: two_argument_lines(
                        "set inputKey to item 2 of argv",
                        command_text.as_str(),
                    ),
                    args: arguments(bundle_id, Some(key), native_window_id),
                },
            ),
        );
    }
    let mut message = chars_of("macOS keyboard key `");
    extend_chars(&mut message, chars.as_slice());
    let tail = chars_of("` is not supported");
    extend_chars(&mut message, tail.as_slice());
    Err(AppRelayError::InvalidRequest(string_from_chars(message.as_slice())))
}

/// The native window that keyboard input targets in a session (none when the session did
/// not select a window by native id), or the message saying why its id is unusable.
pub open spec fn keyboard_target(session: ApplicationSession) -> Result<Option<Seq<char>>, Seq<char>> {
    let id = session.selected_window.id@;
    if session.selected_window.selection_method != WindowSelectionMethod::NativeWindow {
        Ok(None)
    } else {
        match crate::macos::native_window_part(id) {
            Err(true) => Err(crate::macos::not_native_message(id)),
            Err(false) => Err(crate::macos::missing_native_message(id)),
            Ok(part) => if trim_spec(part).len() > 0 && crate::decimal::all_digits(trim_spec(part)) {
                Ok(Some(trim_spec(part)))
            } else {
                Err(crate::macos::unusable_native_message(id))
            },
        }
    }
}

/// The window that keyboard input targets in a session: the native window, when the
/// session selected one by native id, otherwise none (the application's front window).
pub fn macos_keyboard_target_window_id(session: &ApplicationSession) -> (r: Result<
    Option<String>,
    AppRelayError,
>)
    ensures
        match keyboard_target(*session) {
            Ok(w) => r matches Ok(x) && crate::protocol::opt_text(x) == w,
            Err(m) => r matches Err(e) && (e matches AppRelayError::InvalidRequest(mm) && mm@ == m),
        },
{
    match session.selected_window.selection_method {
        WindowSelectionMethod::NativeWindow => {
            match parse_macos_native_keyboard_window_id(session.selected_window.id.as_str()) {
                Ok(id) => Ok(Some(id)),
                Err(e) => Err(e),
            }
        },
        _ => Ok(None),
    }
}

/// The message when the session names no application bundle.
pub open spec fn missing_bundle_message() -> Seq<char> {
    "macOS keyboard input requires an application bundle id"@
}

/// The bundle id that keyboard input targets: the session's trimmed application id, which
/// must not be empty.
pub fn macos_keyboard_bundle_id(session: &ApplicationSession) -> (r: Result<String, AppRelayError>)
    ensures
        trim_spec(session.application_id@).len() == 0 ==> (r matches Err(e) && (e
            matches AppRelayError::InvalidRequest(m) && m@ == missing_bundle_message())),
        trim_spec(session.application_id@).len() > 0 ==> (r matches Ok(s) && s@ == trim_spec(
            session.application_id@,
        )),
{
    let chars = chars_of(session.application_id.as_str());
    let trimmed = trim_chars(chars.as_slice());
    if trimmed.len() == 0 {
        Err(
            AppRelayError::InvalidRequest(
                String::from_str("macOS keyboard input requires an application bundle id"),
            ),
        )
    } else {
        Ok(string_from_chars(trimmed.as_slice()))
    }
}

/// The message when the keyboard command failed; `stderr` is what it wrote, trimmed.
pub open spec fn keyboard_failure_message(stderr: Seq<char>) -> Seq<char> {
    if stderr.len() == 0 {
        "macOS keyboard input command failed"@
    } else {
        "macOS keyboard input command failed: "@ + stderr
    }
}

/// The outcome of a finished keyboard command, from whether it succeeded and the text it
/// wrote to standard error.
pub fn keyboard_command_outcome(success: bool, stderr: &str) -> (r: Result<(), AppRelayError>)
    ensures
        success ==> r is Ok,
        !success ==> (r matches Err(e) && (e matches AppRelayError::ServiceUnavailable(m) && m@
            == keyboard_failure_message(trim_spec(stderr@)))),
{
    if success {
        return Ok(());
    }
    let chars = chars_of(stderr);
    let trimmed = trim_chars(chars.as_slice());
    if trimmed.len() == 0 {
        Err(AppRelayError::ServiceUnavailable(String::from_str("macOS keyboard input command failed")))
    } else {
        let mut out = chars_of("macOS keyboard input command failed: ");
        extend_chars(&mut out, trimmed.as_slice());
        Err(AppRelayError::ServiceUnavailable(string_from_chars(out.as_slice())))
    }
}


/// The named keys map to their fixed macOS virtual key codes, whatever the case or the
/// surrounding whitespace of the name: return 36, tab 48, space 49, delete 51, escape 53,
/// and the arrows left 123, right 124, down 125, up 126. Any other name has no key code.
pub proof fn lemma_named_key_codes(key: Seq<char>)
    ensures
        (ascii_lowercase(trim_spec(key)) == "enter"@ || ascii_lowercase(trim_spec(key)) == "return"@)
            ==> key_code_of(key) == Some(36u16),
        ascii_lowercase(trim_spec(key)) == "tab"@ ==> key_code_of(key) == Some(48u16),
        (ascii_lowercase(trim_spec(key)) == "space"@ || ascii_lowercase(trim_spec(key)) == "spacebar"@)
            ==> key_code_of(key) == Some(49u16),
        (ascii_lowercase(trim_spec(key)) == "backspace"@ || ascii_lowercase(trim_spec(key))
            == "delete"@) ==> key_code_of(key) == Some(51u16),
        (ascii_lowercase(trim_spec(key)) == "escape"@ || ascii_lowercase(trim_spec(key)) == "esc"@)
            ==> key_code_of(key) == Some(53u16),
        (ascii_lowercase(trim_spec(key)) == "arrowleft"@ || ascii_lowercase(trim_spec(key))
            == "left"@) ==> key_code_of(key) == Some(123u16),
        (ascii_lowercase(trim_spec(key)) == "arrowright"@ || ascii_lowercase(trim_spec(key))
            == "right"@) ==> key_code_of(key) == Some(124u16),
        (ascii_lowercase(trim_spec(key)) == "arrowdown"@ || ascii_lowercase(trim_spec(key))
            == "down"@) ==> key_code_of(key) == Some(125u16),
        (ascii_lowercase(trim_spec(key)) == "arrowup"@ || ascii_lowercase(trim_spec(key)) == "up"@)
            ==> key_code_of(key) == Some(126u16),
        key_code_of(key) is Some ==> seq![
            "enter"@, "return"@, "tab"@, "space"@, "spacebar"@, "backspace"@, "delete"@,
            "escape"@, "esc"@, "arrowleft"@, "left"@, "arrowright"@, "right"@, "arrowdown"@,
            "down"@, "arrowup"@, "up"@,
        ].contains(ascii_lowercase(trim_spec(key))),
{
    lemma_key_names_distinct();
    let names = seq![
        "enter"@, "return"@, "tab"@, "space"@, "spacebar"@, "backspace"@, "delete"@,
        "escape"@, "esc"@, "arrowleft"@, "left"@, "arrowright"@, "right"@, "arrowdown"@,
        "down"@, "arrowup"@, "up"@,
    ];
    let k = ascii_lowercase(trim_spec(key));
    if key_code_of(key) is Some {
        if k == "enter"@ { assert(names[0] == k); }
        else if k == "return"@ { assert(names[1] == k); }
        else if k == "tab"@ { assert(names[2] == k); }
        else if k == "space"@ { assert(names[3] == k); }
        else if k == "spacebar"@ { assert(names[4] == k); }
        else if k == "backspace"@ { assert(names[5] == k); }
        else if k == "delete"@ { assert(names[6] == k); }
        else if k == "escape"@ { assert(names[7] == k); }
        else if k == "esc"@ { assert(names[8] == k); }
        else if k == "arrowleft"@ { assert(names[9] == k); }
        else if k == "left"@ { assert(names[10] == k); }
        else if k == "arrowright"@ { assert(names[11] == k); }
        else if k == "right"@ { assert(names[12] == k); }
        else if k == "arrowdown"@ { assert(names[13] == k); }
        else if k == "down"@ { assert(names[14] == k); }
        else if k == "arrowup"@ { assert(names[15] == k); }
        else { assert(names[16] == k); }
    }
}

/// The key names are told apart by their length, or else by one of their letters.
proof fn lemma_key_names_distinct()
    ensures
        "enter"@.len() == 5 && "space"@.len() == 5 && "right"@.len() == 5,
        "return"@.len() == 6 && "delete"@.len() == 6 && "escape"@.len() == 6,
        "tab"@.len() == 3 && "esc"@.len() == 3,
        "backspace"@.len() == 9 && "arrowleft"@.len() == 9 && "arrowdown"@.len() == 9,
        "left"@.len() == 4 && "down"@.len() == 4,
        "spacebar"@.len() == 8 && "arrowright"@.len() == 10 && "arrowup"@.len() == 7 && "up"@.len()
            == 2,
        "enter"@[0] == 'e' && "space"@[0] == 's' && "right"@[0] == 'r',
        "return"@[0] == 'r' && "delete"@[0] == 'd' && "escape"@[0] == 'e',
        "tab"@[0] == 't' && "esc"@[0] == 'e',
        "backspace"@[0] == 'b' && "arrowleft"@[0] == 'a' && "arrowdown"@[0] == 'a',
        "arrowleft"@[5] == 'l' && "arrowdown"@[5] == 'd',
        "left"@[0] == 'l' && "down"@[0] == 'd',
{
    reveal_strlit("enter");
    reveal_strlit("return");
    reveal_strlit("tab");
    reveal_strlit("space");
    reveal_strlit("spacebar");
    reveal_strlit("backspace");
    reveal_strlit("delete");
    reveal_strlit("escape");
    reveal_strlit("esc");
    reveal_strlit("arrowleft");
    reveal_strlit("left");
    reveal_strlit("arrowright");
    reveal_strlit("right");
    reveal_strlit("arrowdown");
    reveal_strlit("down");
    reveal_strlit("arrowup");
    reveal_strlit("up");
}

/// Different named keys get different key codes: two names with a key code share it only
/// when they name the same key (one of the listed spellings of it).
pub proof fn lemma_key_codes_tell_keys_apart(a: Seq<char>, b: Seq<char>)
    requires
        key_code_of(a) is Some,
        key_code_of(a) == key_code_of(b),
    ensures
        ({
            let x = ascii_lowercase(trim_spec(a));
            let y = ascii_lowercase(trim_spec(b));
            &&& (x == "arrowleft"@ || x == "left"@) <==> (y == "arrowleft"@ || y == "left"@)
            &&& (x == "arrowright"@ || x == "right"@) <==> (y == "arrowright"@ || y == "right"@)
            &&& (x == "arrowdown"@ || x == "down"@) <==> (y == "arrowdown"@ || y == "down"@)
            &&& (x == "arrowup"@ || x == "up"@) <==> (y == "arrowup"@ || y == "up"@)
            &&& (x == "enter"@ || x == "return"@) <==> (y == "enter"@ || y == "return"@)
            &&& x == "tab"@ <==> y == "tab"@
            &&& (x == "space"@ || x == "spacebar"@) <==> (y == "space"@ || y == "spacebar"@)
            &&& (x == "backspace"@ || x == "delete"@) <==> (y == "backspace"@ || y == "delete"@)
            &&& (x == "escape"@ || x == "esc"@) <==> (y == "escape"@ || y == "esc"@)
        }),
{
    lemma_named_key_codes(a);
    lemma_named_key_codes(b);
}


/// The modifier clause names exactly the held modifiers, each once, in the order shift,
/// control, option, command, and is empty when none is held.
pub proof fn lemma_modifier_clause_names_held_modifiers(m: KeyModifiers)
    ensures
        modifier_names(m).contains("shift down"@) <==> m.shift,
        modifier_names(m).contains("control down"@) <==> m.control,
        modifier_names(m).contains("option down"@) <==> m.alt,
        modifier_names(m).contains("command down"@) <==> m.meta,
        modifier_names(m).no_duplicates(),
        modifier_names(m).len() > 0 ==> modifier_names(m)[0] == (if m.shift {
            "shift down"@
        } else if m.control {
            "control down"@
        } else if m.alt {
            "option down"@
        } else {
            "command down"@
        }),
        (modifier_clause(m).len() == 0) <==> !(m.shift || m.control || m.alt || m.meta),
{
    reveal_strlit("shift down");
    reveal_strlit("control down");
    reveal_strlit("option down");
    reveal_strlit("command down");
    reveal_strlit(" using {");
    assert("shift down"@.len() == 10 && "option down"@.len() == 11);
    assert("control down"@.len() == 12 && "command down"@.len() == 12);
    assert("control down"@[2] == 'n' && "command down"@[2] == 'm');
    assert(" using {"@.len() == 8);
    let names = modifier_names(m);
    let a = if m.shift { seq!["shift down"@] } else { Seq::<Seq<char>>::empty() };
    let b = if m.control { seq!["control down"@] } else { Seq::<Seq<char>>::empty() };
    let c = if m.alt { seq!["option down"@] } else { Seq::<Seq<char>>::empty() };
    let d = if m.meta { seq!["command down"@] } else { Seq::<Seq<char>>::empty() };
    assert(names == a + b + c + d);
    assert forall|i: int, j: int| 0 <= i < j < names.len() implies names[i] != names[j] by {
        let la = a.len() as int;
        let lb = b.len() as int;
        let lc = c.len() as int;
        let gi = if i < la { 0int } else if i < la + lb { 1int } else if i < la + lb + lc { 2int } else { 3int };
        let gj = if j < la { 0int } else if j < la + lb { 1int } else if j < la + lb + lc { 2int } else { 3int };
        assert(gi < gj);
    }
    assert forall|x: Seq<char>| #[trigger] names.contains(x) implies (x == "shift down"@ && m.shift) || (x
        == "control down"@ && m.control) || (x == "option down"@ && m.alt) || (x == "command down"@
        && m.meta) by {
        if a.contains(x) {
            assert(a[0] == x);
        }
        if b.contains(x) {
            assert(b[0] == x);
        }
        if c.contains(x) {
            assert(c[0] == x);
        }
        if d.contains(x) {
            assert(d[0] == x);
        }
    }
    if m.shift {
        assert(names[0] == "shift down"@);
    }
    if m.control {
        assert(names[a.len() as int] == "control down"@);
    }
    if m.alt {
        assert(names[(a.len() + b.len()) as int] == "option down"@);
    }
    if m.meta {
        assert(names[(a.len() + b.len() + c.len()) as int] == "command down"@);
    }
    assert(names.contains("shift down"@) ==> m.shift);
    assert(names.contains("option down"@) ==> m.alt);
    assert(names.contains("control down"@) ==> m.control);
    assert(names.contains("command down"@) ==> m.meta);
    if names.len() == 0 {
        assert(modifier_clause(m) == Seq::<char>::empty());
    } else {
        assert(modifier_clause(m).len() >= 8);
    }
}
} // verus!
