//! Application discovery: reading `.desktop` entries and macOS bundle `Info.plist` files,
//! and putting the discovered applications in listing order.
//!
//! The application walks the directories and reads the files; these functions decide
//! what each file offers.

use vstd::prelude::*;

use crate::fields::{lines_of, lines_spec, views};
use crate::protocol::{
    AppIcon,
    AppIconView,
    ApplicationLaunch,
    ApplicationLaunchView,
    ApplicationSummary,
    ApplicationSummaryView,
    opt_text,
};
use crate::sorting::{sort_by_key, sorted_by_key, SortKey};
use crate::text::{
    chars_are,
    chars_of,
    find_char,
    find_char_index,
    find_sub,
    find_sub_index,
    is_blank,
    lowercase,
    slice_chars,
    str_is_blank,
    string_from_chars,
    to_lowercase,
    trim_chars,
    trim_spec,
};

verus! {

/// What has been read of a `.desktop` file so far.
pub struct DesktopEntryScan {
    pub in_entry: bool,
    pub is_application: bool,
    pub hidden: bool,
    pub no_display: bool,
    pub name: Option<Seq<char>>,
    pub icon: Option<Seq<char>>,
    pub command: Option<Seq<char>>,
}

pub open spec fn initial_scan() -> DesktopEntryScan {
    DesktopEntryScan {
        in_entry: false,
        is_application: false,
        hidden: false,
        no_display: false,
        name: None,
        icon: None,
        command: None,
    }
}

/// A `key=value` line split at its first `=`.
pub open spec fn key_value(line: Seq<char>) -> Option<(Seq<char>, Seq<char>)> {
    let k = find_char(line, '=');
    if k < line.len() {
        Some((line.take(k), line.skip(k + 1)))
    } else {
        None
    }
}

/// Reading one line of a `.desktop` file: blank lines and comments are skipped, a
/// `[section]` header opens or leaves the `[Desktop Entry]` group, and inside that group
/// the keys `Type`, `Hidden`, `NoDisplay`, `Name`, `Icon` and `Exec` are taken.
pub open spec fn scan_desktop_line(st: DesktopEntryScan, raw: Seq<char>) -> DesktopEntryScan {
    let line = trim_spec(raw);
    if line.len() == 0 || line[0] == '#' {
        st
    } else if line[0] == '[' && line[line.len() - 1] == ']' {
        DesktopEntryScan { in_entry: line == "[Desktop Entry]"@, ..st }
    } else if !st.in_entry {
        st
    } else {
        match key_value(line) {
            None => st,
            Some((key, value)) => if key == "Type"@ {
                DesktopEntryScan { is_application: value == "Application"@, ..st }
            } else if key == "Hidden"@ {
                DesktopEntryScan { hidden: value == "true"@, ..st }
            } else if key == "NoDisplay"@ {
                DesktopEntryScan { no_display: value == "true"@, ..st }
            } else if key == "Name"@ {
                DesktopEntryScan { name: Some(trim_spec(value)), ..st }
            } else if key == "Icon"@ {
                DesktopEntryScan { icon: Some(trim_spec(value)), ..st }
            } else if key == "Exec"@ {
                DesktopEntryScan { command: Some(trim_spec(value)), ..st }
            } else {
                st
            },
        }
    }
}

pub open spec fn scan_desktop_lines(st: DesktopEntryScan, ls: Seq<Seq<char>>) -> DesktopEntryScan
    decreases ls.len(),
{
    if ls.len() == 0 {
        st
    } else {
        scan_desktop_lines(scan_desktop_line(st, ls[0]), ls.drop_first())
    }
}

/// A present, non-empty text.
pub open spec fn non_empty(o: Option<Seq<char>>) -> Option<Seq<char>> {
    match o {
        Some(s) => if s.len() == 0 {
            None
        } else {
            Some(s)
        },
        None => None,
    }
}

/// An icon known only by its name.
pub open spec fn named_icon(mime_type: Seq<char>, o: Option<Seq<char>>) -> Option<AppIconView> {
    match non_empty(o) {
        Some(source) => Some(AppIconView { mime_type, bytes: Seq::empty(), source: Some(source) }),
        None => None,
    }
}

/// The application that a `.desktop` file offers, if any: a visible `Application` entry
/// with a name, identified by the file's stem.
pub open spec fn desktop_entry_spec(contents: Seq<char>, file_stem: Seq<char>) -> Option<
    ApplicationSummaryView,
> {
    let st = scan_desktop_lines(initial_scan(), lines_spec(contents));
    if !st.is_application || st.hidden || st.no_display {
        None
    } else {
        match non_empty(st.name) {
            None => None,
            Some(name) => Some(
                ApplicationSummaryView {
                    id: file_stem,
                    name,
                    icon: named_icon("application/x-icon-theme-name"@, st.icon),
                    launch: match non_empty(st.command) {
                        Some(command) => Some(ApplicationLaunchView::DesktopCommand { command }),
                        None => None,
                    },
                },
            ),
        }
    }
}

struct DesktopScan {
    in_entry: bool,
    is_application: bool,
    hidden: bool,
    no_display: bool,
    name: Option<Vec<char>>,
    icon: Option<Vec<char>>,
    command: Option<Vec<char>>,
}

spec fn chars_view(o: Option<Vec<char>>) -> Option<Seq<char>> {
    match o {
        Some(v) => Some(v@),
        None => None,
    }
}

spec fn scan_view(d: DesktopScan) -> DesktopEntryScan {
    DesktopEntryScan {
        in_entry: d.in_entry,
        is_application: d.is_application,
        hidden: d.hidden,
        no_display: d.no_display,
        name: chars_view(d.name),
        icon: chars_view(d.icon),
        command: chars_view(d.command),
    }
}

fn scan_line(st: &mut DesktopScan, raw: &[char])
    ensures
        scan_view(*final(st)) == scan_desktop_line(scan_view(*old(st)), raw@),
{
    let line = trim_chars(raw);
    let n = line.len();
    if n == 0 || line[0] == '#' {
        return ;
    }
    if line[0] == '[' && line[n - 1] == ']' {
        st.in_entry = chars_are(line.as_slice(), "[Desktop Entry]");
        return ;
    }
    if !st.in_entry {
        return ;
    }
    let k = find_char_index(line.as_slice(), '=');
    if k >= n {
        return ;
    }
    let key = slice_chars(line.as_slice(), 0, k);
    let value = slice_chars(line.as_slice(), k + 1, n);
    assert(key@ =~= line@.take(k as int));
    assert(value@ =~= line@.skip(k + 1));
    if chars_are(key.as_slice(), "Type") {
        st.is_application = chars_are(value.as_slice(), "Application");
    } else if chars_are(key.as_slice(), "Hidden") {
        st.hidden = chars_are(value.as_slice(), "true");
    } else if chars_are(key.as_slice(), "NoDisplay") {
        st.no_display = chars_are(value.as_slice(), "true");
    } else if chars_are(key.as_slice(), "Name") {
        st.name = Some(trim_chars(value.as_slice()));
    } else if chars_are(key.as_slice(), "Icon") {
        st.icon = Some(trim_chars(value.as_slice()));
    } else if chars_are(key.as_slice(), "Exec") {
        st.command = Some(trim_chars(value.as_slice()));
    }
}

fn non_empty_text(o: Option<Vec<char>>) -> (r: Option<String>)
    ensures
        opt_text(r) == non_empty(chars_view(o)),
{
    match o {
        Some(v) => if v.len() == 0 {
            None
        } else {
            Some(string_from_chars(v.as_slice()))
        },
        None => None,
    }
}

fn named_app_icon(mime_type: &str, o: Option<String>) -> (r: Option<AppIcon>)
    ensures
        (match r {
            Some(i) => Some(i@),
            None => None,
        }) == named_icon(mime_type@, non_empty(opt_text(o))),
{
    match o {
        Some(source) => if source.as_str().is_empty() {
            None
        } else {
            let icon = AppIcon {
                mime_type: String::from_str(mime_type),
                bytes: Vec::new(),
                source: Some(source),
            };
            assert(icon@.bytes =~= Seq::<u8>::empty());
            Some(icon)
        },
        None => None,
    }
}

/// The application that a `.desktop` file with these contents offers, if any; it is
/// identified by `file_stem`, the file's name without its extension.
pub fn parse_desktop_entry(contents: &str, file_stem: &str) -> (r: Option<ApplicationSummary>)
    ensures
        (match r {
            Some(a) => Some(a@),
            None => None,
        }) == desktop_entry_spec(contents@, file_stem@),
{
    let chars = chars_of(contents);
    let ls = lines_of(chars.as_slice());
    let ghost all = lines_spec(contents@);
    let mut st = DesktopScan {
        in_entry: false,
        is_application: false,
        hidden: false,
        no_display: false,
        name: None,
        icon: None,
        command: None,
    };
    let mut i: usize = 0;
    assert(all.skip(0) =~= all);
    while i < ls.len()
        invariant
            views(ls@) == all,
            i <= ls@.len(),
            scan_desktop_lines(initial_scan(), all) == scan_desktop_lines(
                scan_view(st),
                all.skip(i as int),
            ),
        decreases ls@.len() - i,
    {
        assert(ls@[i as int]@ == all[i as int]) by {
            assert(views(ls@)[i as int] == ls@[i as int]@);
        }
        assert(all.skip(i as int).drop_first() =~= all.skip(i + 1));
        scan_line(&mut st, ls[i].as_slice());
        i = i + 1;
    }
    assert(all.skip(i as int) =~= Seq::<Seq<char>>::empty());
    if !st.is_application || st.hidden || st.no_display {
        return None;
    }
    let name = match non_empty_text(st.name) {
        None => {
            return None;
        },
        Some(n) => n,
    };
    let icon = named_app_icon("application/x-icon-theme-name", non_empty_text(st.icon));
    let launch = match non_empty_text(st.command) {
        Some(command) => Some(ApplicationLaunch::DesktopCommand { command }),
        None => None,
    };
    Some(ApplicationSummary { id: String::from_str(file_stem), name, icon, launch })
}

/// The trimmed text of the `<string>` that follows `<key>key</key>` in a property list,
/// if there is one and it is not empty.
pub open spec fn plist_value_spec(contents: Seq<char>, key: Seq<char>) -> Option<Seq<char>> {
    let tag = "<key>"@ + key + "</key>"@;
    match find_sub(contents, tag) {
        None => None,
        Some(key_start) => {
            let after_key = contents.skip(key_start + tag.len());
            match find_sub(after_key, "<string>"@) {
                None => None,
                Some(string_start) => {
                    let after_string = after_key.skip(string_start + "<string>"@.len());
                    match find_sub(after_string, "</string>"@) {
                        None => None,
                        Some(string_end) => non_empty(Some(trim_spec(after_string.take(string_end)))),
                    }
                },
            }
        },
    }
}

fn skip_chars(s: &Vec<char>, from: usize) -> (r: Vec<char>)
    requires
        from <= s@.len(),
    ensures
        r@ == s@.skip(from as int),
{
    let r = slice_chars(s.as_slice(), from, s.len());
    assert(r@ =~= s@.skip(from as int));
    r
}

/// The text of the `<string>` that follows `<key>key</key>` in a property list.
pub fn plist_string_value(contents: &str, key: &str) -> (r: Option<String>)
    ensures
        opt_text(r) == plist_value_spec(contents@, key@),
{
    let chars = chars_of(contents);
    let mut tag = chars_of("<key>");
    let key_chars = chars_of(key);
    crate::text::extend_chars(&mut tag, key_chars.as_slice());
    let close = chars_of("</key>");
    crate::text::extend_chars(&mut tag, close.as_slice());
    assert(tag@ =~= "<key>"@ + key@ + "</key>"@);
    let key_start = match find_sub_index(chars.as_slice(), tag.as_slice()) {
        None => {
            return None;
        },
        Some(k) => k,
    };
    proof {
        crate::text::lemma_find_sub(chars@, tag@);
    }
    let total = chars.len();
    assert(key_start + tag@.len() <= total);
    let after_key = skip_chars(&chars, key_start + tag.len());
    let open = chars_of("<string>");
    let string_start = match find_sub_index(after_key.as_slice(), open.as_slice()) {
        None => {
            return None;
        },
        Some(k) => k,
    };
    proof {
        crate::text::lemma_find_sub(after_key@, open@);
    }
    let after_total = after_key.len();
    assert(string_start + open@.len() <= after_total);
    let after_string = skip_chars(&after_key, string_start + open.len());
    let end = chars_of("</string>");
    let string_end = match find_sub_index(after_string.as_slice(), end.as_slice()) {
        None => {
            return None;
        },
        Some(k) => k,
    };
    proof {
        crate::text::lemma_find_sub(after_string@, end@);
    }
    let value = slice_chars(after_string.as_slice(), 0, string_end);
    assert(value@ =~= after_string@.take(string_end as int));
    let trimmed = trim_chars(value.as_slice());
    if trimmed.len() == 0 {
        None
    } else {
        Some(string_from_chars(trimmed.as_slice()))
    }
}

/// The first of two optional texts that is present.
pub open spec fn or_else(a: Option<Seq<char>>, b: Option<Seq<char>>) -> Option<Seq<char>> {
    match a {
        Some(x) => Some(x),
        None => b,
    }
}

/// The application that a macOS bundle offers, from its `Info.plist` contents, the bundle's
/// name without extension (if it has one) and the bundle's path as displayed: identified by
/// `CFBundleIdentifier`, named by `CFBundleDisplayName` or `CFBundleName`, both falling
/// back to the bundle name; a blank id or name offers nothing.
pub open spec fn macos_bundle_spec(
    contents: Seq<char>,
    file_stem: Option<Seq<char>>,
    bundle_path: Seq<char>,
) -> Option<ApplicationSummaryView> {
    let id = or_else(plist_value_spec(contents, "CFBundleIdentifier"@), file_stem);
    let name = or_else(
        or_else(
            plist_value_spec(contents, "CFBundleDisplayName"@),
            plist_value_spec(contents, "CFBundleName"@),
        ),
        file_stem,
    );
    match (id, name) {
        (Some(id), Some(name)) => if is_blank(id) || is_blank(name) {
            None
        } else {
            Some(
                ApplicationSummaryView {
                    id,
                    name,
                    icon: named_icon(
                        "application/x-macos-icon-name"@,
                        plist_value_spec(contents, "CFBundleIconFile"@),
                    ),
                    launch: Some(ApplicationLaunchView::MacosBundle { bundle_path }),
                },
            )
        },
        _ => None,
    }
}

fn text_or(a: Option<String>, b: Option<&str>) -> (r: Option<String>)
    ensures
        opt_text(r) == or_else(
            opt_text(a),
            match b {
                Some(s) => Some(s@),
                None => None,
            },
        ),
{
    match a {
        Some(x) => Some(x),
        None => match b {
            Some(s) => Some(String::from_str(s)),
            None => None,
        },
    }
}

/// The application that a macOS bundle offers, if any, from its `Info.plist` contents,
/// the bundle's name without its extension and its path as displayed.
pub fn parse_macos_app_bundle(contents: &str, file_stem: Option<&str>, bundle_path: &str) -> (r:
    Option<ApplicationSummary>)
    ensures
        (match r {
            Some(a) => Some(a@),
            None => None,
        }) == macos_bundle_spec(
            contents@,
            match file_stem {
                Some(s) => Some(s@),
                None => None,
            },
            bundle_path@,
        ),
{
    let id = match text_or(plist_string_value(contents, "CFBundleIdentifier"), file_stem) {
        None => {
            return None;
        },
        Some(id) => id,
    };
    let display = plist_string_value(contents, "CFBundleDisplayName");
    let bundle_name = plist_string_value(contents, "CFBundleName");
    let named = match display {
        Some(d) => Some(d),
        None => bundle_name,
    };
    let name = match text_or(named, file_stem) {
        None => {
            return None;
        },
        Some(name) => name,
    };
    let icon = plist_string_value(contents, "CFBundleIconFile");
    if str_is_blank(id.as_str()) || str_is_blank(name.as_str()) {
        return None;
    }
    assert(non_empty(opt_text(icon)) == opt_text(icon));
    let icon = named_app_icon("application/x-macos-icon-name", icon);
    Some(
        ApplicationSummary {
            id,
            name,
            icon,
            launch: Some(
                ApplicationLaunch::MacosBundle { bundle_path: String::from_str(bundle_path) },
            ),
        },
    )
}

impl SortKey for ApplicationSummary {
    /// Applications are listed by name, ignoring case, then by id.
    open spec fn sort_key(&self) -> (Seq<char>, Seq<char>) {
        (lowercase(self.name@), self.id@)
    }

    fn exec_sort_key(&self) -> (r: (Vec<char>, Vec<char>)) {
        let lower = to_lowercase(self.name.as_str());
        (chars_of(lower.as_str()), chars_of(self.id.as_str()))
    }
}

/// The applications left once each one that follows an application with the same id
/// is dropped (as `Vec::dedup_by` on ids).
pub open spec fn dedup_ids(s: Seq<ApplicationSummary>) -> Seq<ApplicationSummary>
    decreases s.len(),
{
    if s.len() <= 1 {
        s
    } else if s.last().id@ == s[s.len() - 2].id@ {
        dedup_ids(s.drop_last())
    } else {
        dedup_ids(s.drop_last()).push(s.last())
    }
}

/// The discovered applications in listing order (by name ignoring case, then by id, equal
/// keys in the order discovered), with each application that follows one with the same id
/// dropped.
pub fn order_applications(applications: Vec<ApplicationSummary>) -> (r: Vec<ApplicationSummary>)
    ensures
        exists|s: Seq<ApplicationSummary>|
            #![trigger s.to_multiset()]
            s.to_multiset() == applications@.to_multiset() && sorted_by_key(s) && r@ == dedup_ids(
                s,
            ) && forall|k: (Seq<char>, Seq<char>)| #[trigger] s.filter(crate::sorting::key_is(k))
                == applications@.filter(crate::sorting::key_is(k)),
{
    let sorted = sort_by_key(applications);
    let ghost all = sorted@;
    let mut rest = sorted;
    let mut out: Vec<ApplicationSummary> = Vec::new();
    assert(dedup_ids(all) =~= dedup_ids(rest@) + out@);
    while rest.len() > 0
        invariant
            dedup_ids(all) == dedup_ids(rest@) + out@,
        decreases rest@.len(),
    {
        let ghost before = rest@;
        let x = rest.pop().unwrap();
        assert(rest@ == before.drop_last());
        let n = rest.len();
        let same = n > 0 && rest[n - 1].id == x.id;
        if same {
            assert(dedup_ids(before) == dedup_ids(rest@));
        } else {
            let ghost old_out = out@;
            out.insert(0, x);
            proof {
                if n == 0 {
                    assert(dedup_ids(rest@) =~= Seq::<ApplicationSummary>::empty());
                    assert(before =~= seq![x]);
                }
                assert(dedup_ids(before) == dedup_ids(rest@).push(x));
                assert(dedup_ids(rest@).push(x) + old_out =~= dedup_ids(rest@) + out@);
            }
        }
    }
    assert(dedup_ids(rest@) =~= Seq::<ApplicationSummary>::empty());
    assert(dedup_ids(all) =~= out@);
    out
}

/// Finds applications in the `.desktop` files of a list of directories.
#[derive(Clone, Debug)]
pub struct DesktopEntryApplicationDiscovery {
    roots: Vec<std::path::PathBuf>,
}

impl DesktopEntryApplicationDiscovery {
    /// The directories searched, in order.
    pub closed spec fn search_roots(&self) -> Seq<std::path::PathBuf> {
        self.roots@
    }

    /// Discovery in the given directories.
    pub fn new(roots: Vec<std::path::PathBuf>) -> (r: Self)
        ensures
            r.search_roots() == roots@,
    {
        DesktopEntryApplicationDiscovery { roots }
    }

    /// The directories searched, in order.
    pub fn roots(&self) -> (r: &[std::path::PathBuf])
        ensures
            r@ == self.search_roots(),
    {
        self.roots.as_slice()
    }
}

/// Finds applications among the `.app` bundles of a list of directories.
#[derive(Clone, Debug)]
pub struct MacosApplicationDiscovery {
    roots: Vec<std::path::PathBuf>,
}

impl MacosApplicationDiscovery {
    /// The directories searched, in order.
    pub closed spec fn search_roots(&self) -> Seq<std::path::PathBuf> {
        self.roots@
    }

    /// Discovery in the given directories.
    pub fn new(roots: Vec<std::path::PathBuf>) -> (r: Self)
        ensures
            r.search_roots() == roots@,
    {
        MacosApplicationDiscovery { roots }
    }

    /// The directories searched, in order.
    pub fn roots(&self) -> (r: &[std::path::PathBuf])
        ensures
            r@ == self.search_roots(),
    {
        self.roots.as_slice()
    }
}

} // verus!

verus! {

/// After dropping repeats, no application is followed by one with the same id, and the
/// last one kept has the id of the last one given.
pub proof fn lemma_dedup_no_adjacent_repeats(s: Seq<ApplicationSummary>)
    ensures
        forall|i: int|
            0 <= i < dedup_ids(s).len() - 1 ==> (#[trigger] dedup_ids(s)[i]).id@ != dedup_ids(
                s,
            )[i + 1].id@,
        s.len() > 0 ==> dedup_ids(s).len() > 0 && dedup_ids(s).last().id@ == s.last().id@,
    decreases s.len(),
{
    if s.len() > 1 {
        let init = s.drop_last();
        lemma_dedup_no_adjacent_repeats(init);
        let d = dedup_ids(init);
        assert(init.last() == s[s.len() - 2]);
        if s.last().id@ != s[s.len() - 2].id@ {
            assert(dedup_ids(s) == d.push(s.last()));
            assert forall|i: int| 0 <= i < dedup_ids(s).len() - 1 implies (#[trigger] dedup_ids(
                s,
            )[i]).id@ != dedup_ids(s)[i + 1].id@ by {
                if i == d.len() - 1 {
                    assert(dedup_ids(s)[i] == d.last());
                } else {
                    assert(dedup_ids(s)[i] == d[i]);
                    assert(dedup_ids(s)[i + 1] == d[i + 1]);
                }
            }
        }
    }
}


/// A line of a `.desktop` file that is a `[section]` header.
pub open spec fn is_section_header(raw: Seq<char>) -> bool {
    let line = trim_spec(raw);
    line.len() > 0 && line[0] == '[' && line[line.len() - 1] == ']'
}

/// Only keys inside the `[Desktop Entry]` group count: a header of any other section leaves
/// that group, and the lines that follow it up to the next header change nothing of what
/// was read (type, visibility, name, icon or command).
pub proof fn lemma_other_sections_are_ignored(
    st: DesktopEntryScan,
    header: Seq<char>,
    rest: Seq<Seq<char>>,
)
    requires
        is_section_header(header),
        trim_spec(header) != "[Desktop Entry]"@,
        forall|i: int| 0 <= i < rest.len() ==> !is_section_header(#[trigger] rest[i]),
    ensures
        scan_desktop_lines(st, seq![header] + rest) == (DesktopEntryScan { in_entry: false, ..st }),
{
    let left = DesktopEntryScan { in_entry: false, ..st };
    assert(scan_desktop_line(st, header) == left);
    assert((seq![header] + rest).drop_first() =~= rest);
    lemma_outside_entry_unchanged(left, rest);
}

/// Outside the `[Desktop Entry]` group, lines that are not headers change nothing.
proof fn lemma_outside_entry_unchanged(st: DesktopEntryScan, ls: Seq<Seq<char>>)
    requires
        !st.in_entry,
        forall|i: int| 0 <= i < ls.len() ==> !is_section_header(#[trigger] ls[i]),
    ensures
        scan_desktop_lines(st, ls) == st,
    decreases ls.len(),
{
    if ls.len() > 0 {
        assert(!is_section_header(ls[0]));
        assert(scan_desktop_line(st, ls[0]) == st);
        let t = ls.drop_first();
        assert forall|i: int| 0 <= i < t.len() implies !is_section_header(#[trigger] t[i]) by {
            assert(t[i] == ls[i + 1]);
        }
        lemma_outside_entry_unchanged(st, t);
    }
}

/// A bundle is named by its display name: when the plist holds a `CFBundleDisplayName`, the
/// application a bundle offers carries that name; `CFBundleName` names it only when there is
/// no display name, and the bundle's own name only when there is neither.
pub proof fn lemma_bundle_named_by_display_name(
    contents: Seq<char>,
    file_stem: Option<Seq<char>>,
    bundle_path: Seq<char>,
)
    ensures
        plist_value_spec(contents, "CFBundleDisplayName"@) matches Some(d) ==> (macos_bundle_spec(
            contents,
            file_stem,
            bundle_path,
        ) matches Some(a) ==> a.name == d),
        plist_value_spec(contents, "CFBundleDisplayName"@) is None ==> (plist_value_spec(
            contents,
            "CFBundleName"@,
        ) matches Some(n) ==> (macos_bundle_spec(contents, file_stem, bundle_path) matches Some(a)
            ==> a.name == n)),
        plist_value_spec(contents, "CFBundleDisplayName"@) is None && plist_value_spec(
            contents,
            "CFBundleName"@,
        ) is None ==> (file_stem matches Some(f) ==> (macos_bundle_spec(
            contents,
            file_stem,
            bundle_path,
        ) matches Some(a) ==> a.name == f)),
        macos_bundle_spec(contents, file_stem, bundle_path) matches Some(a) ==> a.launch == Some(
            ApplicationLaunchView::MacosBundle { bundle_path },
        ),
        plist_value_spec(contents, "CFBundleIdentifier"@) matches Some(i) ==> (macos_bundle_spec(
            contents,
            file_stem,
            bundle_path,
        ) matches Some(a) ==> a.id == i),
        macos_bundle_spec(contents, file_stem, bundle_path) matches Some(a) ==> !is_blank(a.id)
            && !is_blank(a.name),
{
}

/// A desktop entry is offered under the file's stem, with a non-empty name, and only when it
/// was read as a visible application.
pub proof fn lemma_desktop_entry_offered(contents: Seq<char>, file_stem: Seq<char>)
    ensures
        desktop_entry_spec(contents, file_stem) matches Some(a) ==> ({
            let st = scan_desktop_lines(initial_scan(), lines_spec(contents));
            &&& a.id == file_stem
            &&& a.name.len() > 0
            &&& st.name == Some(a.name)
            &&& st.is_application && !st.hidden && !st.no_display
        }),
{
}

} // verus!
