//! Application permissions: validation and their one-line-per-permission store format.

use vstd::prelude::*;

use crate::codec::{decode_field_chars, decode_field_spec, encode_field_into, encode_field_spec};
use crate::errors::{PermissionStoreError, PermissionValidationError};
use crate::fields::{join_chars, join_fields, split_chars, split_fields, views};
use crate::profiles::stored_text;
use crate::text::{chars_of, is_blank, str_is_blank, string_from_chars};

verus! {

/// An application that the user allowed clients to open.
#[derive(Debug, PartialEq, Eq)]
pub struct ApplicationPermission {
    pub application_id: String,
    pub label: String,
}

pub struct ApplicationPermissionView {
    pub application_id: Seq<char>,
    pub label: Seq<char>,
}

impl View for ApplicationPermission {
    type V = ApplicationPermissionView;

    open spec fn view(&self) -> ApplicationPermissionView {
        ApplicationPermissionView { application_id: self.application_id@, label: self.label@ }
    }
}

impl Clone for ApplicationPermission {
    fn clone(&self) -> (r: Self)
        ensures
            r == *self,
    {
        ApplicationPermission {
            application_id: self.application_id.clone(),
            label: self.label.clone(),
        }
    }
}

/// The first rule that a permission breaks, if any.
pub open spec fn permission_problem(p: ApplicationPermissionView) -> Option<
    PermissionValidationError,
> {
    if is_blank(p.application_id) {
        Some(PermissionValidationError::MissingApplicationId)
    } else if is_blank(p.label) {
        Some(PermissionValidationError::MissingLabel)
    } else {
        None
    }
}

impl ApplicationPermission {
    /// Checks that the application id and the label are present.
    pub fn validate(&self) -> (r: Result<(), PermissionValidationError>)
        ensures
            r is Ok <==> permission_problem(self@) is None,
            r matches Err(e) ==> permission_problem(self@) == Some(e),
    {
        if str_is_blank(self.application_id.as_str()) {
            return Err(PermissionValidationError::MissingApplicationId);
        }
        if str_is_blank(self.label.as_str()) {
            return Err(PermissionValidationError::MissingLabel);
        }
        Ok(())
    }
}

pub open spec fn permission_fields(p: ApplicationPermissionView) -> Seq<Seq<char>> {
    seq![encode_field_spec(p.application_id), encode_field_spec(p.label)]
}

/// The stored line of a permission.
pub open spec fn encode_permission_spec(p: ApplicationPermissionView) -> Seq<char> {
    join_fields(permission_fields(p), '\t')
}

/// What reading one stored line gives.
pub open spec fn decode_permission_spec(line: Seq<char>) -> Result<
    ApplicationPermissionView,
    PermissionStoreError,
> {
    let fs = split_fields(line, '\t');
    if fs.len() != 2 {
        Err(PermissionStoreError::CorruptedStore)
    } else {
        match (decode_field_spec(fs[0]), decode_field_spec(fs[1])) {
            (Some(id), Some(label)) => {
                let p = ApplicationPermissionView { application_id: id, label };
                match permission_problem(p) {
                    Some(e) => Err(PermissionStoreError::InvalidPermission(e)),
                    None => Ok(p),
                }
            },
            _ => Err(PermissionStoreError::CorruptedStore),
        }
    }
}

fn encoded_string_field(s: &String) -> (v: Vec<char>)
    ensures
        v@ == encode_field_spec(s@),
{
    let chars = chars_of(s.as_str());
    let mut out: Vec<char> = Vec::new();
    encode_field_into(&chars, &mut out);
    assert(out@ =~= encode_field_spec(s@));
    out
}

/// The stored line of a permission.
pub fn encode_application_permission(permission: &ApplicationPermission) -> (r: String)
    ensures
        r@ == encode_permission_spec(permission@),
{
    let mut fs: Vec<Vec<char>> = Vec::new();
    fs.push(encoded_string_field(&permission.application_id));
    fs.push(encoded_string_field(&permission.label));
    assert(views(fs@) =~= permission_fields(permission@));
    let line = join_chars(&fs, '\t');
    string_from_chars(&line)
}

/// Decodes one stored field; a bad escape marks the store as corrupted.
pub fn decode_permission_field(value: &str) -> (r: Result<String, PermissionStoreError>)
    ensures
        r matches Ok(s) ==> decode_field_spec(value@) == Some(s@),
        r matches Err(e) ==> decode_field_spec(value@) is None && e
            == PermissionStoreError::CorruptedStore,
{
    let chars = chars_of(value);
    match decode_field_chars(&chars) {
        Some(v) => Ok(string_from_chars(&v)),
        None => Err(PermissionStoreError::CorruptedStore),
    }
}

/// Reads one stored line back into a permission.
pub fn decode_application_permission(line: &str) -> (r: Result<
    ApplicationPermission,
    PermissionStoreError,
>)
    ensures
        r matches Ok(p) ==> decode_permission_spec(line@) == Ok::<
            ApplicationPermissionView,
            PermissionStoreError,
        >(p@),
        r matches Err(e) ==> decode_permission_spec(line@) == Err::<ApplicationPermissionView, _>(
            e,
        ),
{
    let chars = chars_of(line);
    let fs = split_chars(&chars, '\t');
    let ghost sf = split_fields(line@, '\t');
    assert(views(fs@) == sf);
    if fs.len() != 2 {
        return Err(PermissionStoreError::CorruptedStore);
    }
    assert(fs@[0]@ == sf[0] && fs@[1]@ == sf[1]) by {
        assert(views(fs@)[0] == fs@[0]@);
        assert(views(fs@)[1] == fs@[1]@);
    }
    let id = decode_field_chars(fs[0].as_slice());
    let label = decode_field_chars(fs[1].as_slice());
    match (id, label) {
        (Some(id), Some(label)) => {
            let permission = ApplicationPermission {
                application_id: string_from_chars(&id),
                label: string_from_chars(&label),
            };
            match permission.validate() {
                Ok(()) => Ok(permission),
                Err(e) => Err(PermissionStoreError::InvalidPermission(e)),
            }
        },
        _ => Err(PermissionStoreError::CorruptedStore),
    }
}

/// Reading the stored line of a valid permission gives the permission back.
pub proof fn lemma_permission_round_trip(p: ApplicationPermissionView)
    requires
        permission_problem(p) is None,
    ensures
        decode_permission_spec(encode_permission_spec(p)) == Ok::<
            ApplicationPermissionView,
            PermissionStoreError,
        >(p),
{
    let fs = permission_fields(p);
    crate::codec::lemma_encode_no_separator(p.application_id);
    crate::codec::lemma_encode_no_separator(p.label);
    assert(crate::fields::all_free_of(fs, '\t')) by {
        assert forall|k: int| 0 <= k < fs.len() implies crate::fields::free_of(
            #[trigger] fs[k],
            '\t',
        ) by {
            assert forall|i: int| 0 <= i < fs[k].len() implies #[trigger] fs[k][i] != '\t' by {}
        }
    }
    crate::fields::lemma_split_join(fs, '\t');
    crate::codec::lemma_decode_encode(p.application_id);
    crate::codec::lemma_decode_encode(p.label);
}

} // verus!

verus! {

broadcast use {vstd::seq_lib::group_seq_properties, vstd::multiset::group_multiset_axioms};

pub open spec fn permission_views(s: Seq<ApplicationPermission>) -> Seq<ApplicationPermissionView> {
    s.map_values(|p: ApplicationPermission| p@)
}

/// Reading the lines of a permission store: blank lines are skipped and the first line
/// that does not decode decides the error.
pub open spec fn decode_permission_lines(ls: Seq<Seq<char>>) -> Result<
    Seq<ApplicationPermissionView>,
    PermissionStoreError,
>
    decreases ls.len(),
{
    if ls.len() == 0 {
        Ok(Seq::empty())
    } else if is_blank(ls[0]) {
        decode_permission_lines(ls.drop_first())
    } else {
        match decode_permission_spec(ls[0]) {
            Err(e) => Err(e),
            Ok(p) => match decode_permission_lines(ls.drop_first()) {
                Ok(rest) => Ok(seq![p] + rest),
                Err(e) => Err(e),
            },
        }
    }
}

/// What reading a whole permission store gives.
pub open spec fn decode_permission_store_spec(contents: Seq<char>) -> Result<
    Seq<ApplicationPermissionView>,
    PermissionStoreError,
> {
    decode_permission_lines(crate::fields::lines_spec(contents))
}

/// The stored lines of the permissions.
pub open spec fn encoded_permission_lines(ps: Seq<ApplicationPermissionView>) -> Seq<Seq<char>> {
    ps.map_values(|p: ApplicationPermissionView| encode_permission_spec(p))
}

/// The permission store: one line per permission, each ended by `\n`.
pub open spec fn encode_permission_store_spec(ps: Seq<ApplicationPermissionView>) -> Seq<char> {
    if ps.len() == 0 {
        Seq::empty()
    } else {
        join_fields(encoded_permission_lines(ps), '\n').push('\n')
    }
}

pub open spec fn prepend_permissions(
    p: Seq<ApplicationPermissionView>,
    r: Result<Seq<ApplicationPermissionView>, PermissionStoreError>,
) -> Result<Seq<ApplicationPermissionView>, PermissionStoreError> {
    match r {
        Ok(s) => Ok(p + s),
        Err(e) => Err(e),
    }
}

/// Reads a whole permission store.
pub fn parse_permission_store(contents: &str) -> (r: Result<Vec<ApplicationPermission>, PermissionStoreError>)
    ensures
        r matches Ok(v) ==> decode_permission_store_spec(contents@) == Ok::<
            Seq<ApplicationPermissionView>,
            PermissionStoreError,
        >(permission_views(v@)),
        r matches Err(e) ==> decode_permission_store_spec(contents@) == Err::<
            Seq<ApplicationPermissionView>,
            PermissionStoreError,
        >(e),
{
    let chars = chars_of(contents);
    let ls = crate::fields::lines_of(chars.as_slice());
    let ghost all = crate::fields::lines_spec(contents@);
    let mut out: Vec<ApplicationPermission> = Vec::new();
    let mut i: usize = 0;
    proof {
        assert(all.skip(0) =~= all);
        match decode_permission_lines(all) {
            Ok(s) => {
                assert(permission_views(out@) + s =~= s);
            },
            Err(_) => {},
        }
    }
    while i < ls.len()
        invariant
            views(ls@) == all,
            all == crate::fields::lines_spec(contents@),
            i <= ls@.len(),
            decode_permission_lines(all) == prepend_permissions(
                permission_views(out@),
                decode_permission_lines(all.skip(i as int)),
            ),
        decreases ls@.len() - i,
    {
        assert(ls@[i as int]@ == all[i as int]) by {
            assert(views(ls@)[i as int] == ls@[i as int]@);
        }
        let ghost rest = all.skip(i as int);
        assert(rest.drop_first() =~= all.skip(i + 1));
        assert(rest[0] == all[i as int]);
        let line = string_from_chars(ls[i].as_slice());
        if !str_is_blank(line.as_str()) {
            match decode_application_permission(line.as_str()) {
                Ok(p) => {
                    let ghost pv = p@;
                    let ghost prev = permission_views(out@);
                    out.push(p);
                    proof {
                        assert(permission_views(out@) =~= prev.push(pv));
                        match decode_permission_lines(all.skip(i + 1)) {
                            Ok(s) => {
                                assert(prev + (seq![pv] + s) =~= prev.push(pv) + s);
                            },
                            Err(_) => {},
                        }
                    }
                },
                Err(e) => {
                    return Err(e);
                },
            }
        }
        i = i + 1;
    }
    proof {
        assert(all.skip(i as int) =~= Seq::<Seq<char>>::empty());
        assert(permission_views(out@) + Seq::<ApplicationPermissionView>::empty() =~= permission_views(
            out@,
        ));
    }
    Ok(out)
}

/// Writes a whole permission store.
pub fn render_permission_store(permissions: &[ApplicationPermission]) -> (r: String)
    ensures
        r@ == encode_permission_store_spec(permission_views(permissions@)),
{
    let ghost ps = permission_views(permissions@);
    let ghost encs = encoded_permission_lines(ps);
    let mut out: Vec<char> = Vec::new();
    let mut i: usize = 0;
    while i < permissions.len()
        invariant
            i <= permissions@.len(),
            ps == permission_views(permissions@),
            encs == encoded_permission_lines(ps),
            i == 0 ==> out@ == Seq::<char>::empty(),
            i > 0 ==> out@ == join_fields(encs.take(i as int), '\n').push('\n'),
        decreases permissions@.len() - i,
    {
        let line = encode_application_permission(&permissions[i]);
        let lc = chars_of(line.as_str());
        proof {
            assert(lc@ == encs[i as int]);
            if i > 0 {
                crate::fields::lemma_join_push(encs.take(i as int), encs[i as int], '\n');
                assert(encs.take(i + 1) =~= encs.take(i as int).push(encs[i as int]));
            } else {
                assert(encs.take(1) =~= seq![encs[0]]);
            }
        }
        crate::text::extend_chars(&mut out, lc.as_slice());
        out.push('\n');
        i = i + 1;
        proof {
            if i == 1 {
                assert(out@ =~= join_fields(encs.take(i as int), '\n').push('\n'));
            } else {
                assert(out@ =~= join_fields(encs.take(i as int), '\n').push('\n'));
            }
        }
    }
    assert(encs.take(permissions@.len() as int) =~= encs);
    string_from_chars(&out)
}

proof fn lemma_permission_line_shape(p: ApplicationPermissionView)
    requires
        permission_problem(p) is None,
    ensures
        crate::fields::free_of(encode_permission_spec(p), '\n'),
        encode_permission_spec(p).len() > 0,
        encode_permission_spec(p).last() != '\r',
        !is_blank(encode_permission_spec(p)),
{
    let fs = permission_fields(p);
    crate::codec::lemma_encode_no_separator(p.application_id);
    crate::codec::lemma_encode_no_separator(p.label);
    crate::codec::lemma_encode_not_blank(p.application_id);
    crate::codec::lemma_encode_not_blank(p.label);
    let line = encode_permission_spec(p);
    assert(fs.drop_first() =~= seq![fs[1]]);
    assert(join_fields(fs.drop_first(), '\t') == fs[1]);
    assert(line == fs[0] + seq!['\t'] + fs[1]);
    assert(crate::fields::all_free_of(fs, '\n')) by {
        assert forall|k: int| 0 <= k < fs.len() implies crate::fields::free_of(
            #[trigger] fs[k],
            '\n',
        ) by {}
    }
    crate::fields::lemma_join_free(fs, '\t', '\n');
    let t = fs[1];
    let jj = choose|j: int| 0 <= j < t.len() && !crate::text::is_ws(#[trigger] t[j]);
    assert(t.len() > 0);
    assert(line.last() == t.last());
    assert(t[t.len() - 1] != '\r');
    let j = choose|j: int| 0 <= j < fs[0].len() && !crate::text::is_ws(#[trigger] fs[0][j]);
    assert(line[j] == fs[0][j]);
}

/// Reading the store written for valid permissions gives the same permissions, in order.
pub proof fn lemma_permission_store_round_trip(ps: Seq<ApplicationPermissionView>)
    requires
        forall|k: int| 0 <= k < ps.len() ==> permission_problem(#[trigger] ps[k]) is None,
    ensures
        decode_permission_store_spec(encode_permission_store_spec(ps)) == Ok::<
            Seq<ApplicationPermissionView>,
            PermissionStoreError,
        >(ps),
{
    if ps.len() == 0 {
        assert(crate::fields::split_fields(Seq::<char>::empty(), '\n') =~= seq![
            Seq::<char>::empty(),
        ]);
        assert(crate::fields::lines_spec(Seq::<char>::empty()) =~= Seq::<Seq<char>>::empty());
        assert(ps =~= Seq::<ApplicationPermissionView>::empty());
    } else {
        let encs = encoded_permission_lines(ps);
        assert forall|k: int| 0 <= k < encs.len() implies crate::fields::free_of(
            #[trigger] encs[k],
            '\n',
        ) && encs[k].len() > 0 && encs[k].last() != '\r' && !is_blank(encs[k]) by {
            lemma_permission_line_shape(ps[k]);
        }
        crate::fields::lemma_lines_joined(encs);
        lemma_decode_permission_lines(ps);
    }
}

proof fn lemma_decode_permission_lines(ps: Seq<ApplicationPermissionView>)
    requires
        forall|k: int| 0 <= k < ps.len() ==> permission_problem(#[trigger] ps[k]) is None,
        forall|k: int|
            0 <= k < ps.len() ==> !is_blank(#[trigger] encoded_permission_lines(ps)[k]),
    ensures
        decode_permission_lines(encoded_permission_lines(ps)) == Ok::<
            Seq<ApplicationPermissionView>,
            PermissionStoreError,
        >(ps),
    decreases ps.len(),
{
    let encs = encoded_permission_lines(ps);
    if ps.len() == 0 {
        assert(encs =~= Seq::<Seq<char>>::empty());
        assert(ps =~= Seq::<ApplicationPermissionView>::empty());
    } else {
        let rest = ps.drop_first();
        assert(encs.drop_first() =~= encoded_permission_lines(rest));
        assert forall|k: int| 0 <= k < rest.len() implies !is_blank(
            #[trigger] encoded_permission_lines(rest)[k],
        ) by {
            assert(encoded_permission_lines(rest)[k] == encs[k + 1]);
        }
        assert forall|k: int| 0 <= k < rest.len() implies permission_problem(#[trigger] rest[k])
            is None by {
            assert(rest[k] == ps[k + 1]);
        }
        lemma_decode_permission_lines(rest);
        assert(encs[0] == encode_permission_spec(ps[0]));
        assert(!is_blank(encs[0]));
        lemma_permission_round_trip(ps[0]);
        assert(seq![ps[0]] + rest =~= ps);
    }
}

impl crate::sorting::SortKey for ApplicationPermission {
    /// Permissions are listed by label, ignoring case, then by id.
    open spec fn sort_key(&self) -> (Seq<char>, Seq<char>) {
        (crate::text::lowercase(self.label@), self.application_id@)
    }

    fn exec_sort_key(&self) -> (r: (Vec<char>, Vec<char>)) {
        let lower = crate::text::to_lowercase(self.label.as_str());
        (chars_of(lower.as_str()), chars_of(self.application_id.as_str()))
    }
}

/// The permissions in listing order: by label ignoring case, then by id.
pub fn sort_permissions(permissions: Vec<ApplicationPermission>) -> (r: Vec<ApplicationPermission>)
    ensures
        r@.to_multiset() == permissions@.to_multiset(),
        crate::sorting::sorted_by_key(r@),
        forall|k: (Seq<char>, Seq<char>)| #[trigger] r@.filter(crate::sorting::key_is(k))
            == permissions@.filter(crate::sorting::key_is(k)),
{
    crate::sorting::sort_by_key(permissions)
}

pub open spec fn has_other_application_id(id: Seq<char>) -> spec_fn(ApplicationPermission) -> bool {
    |p: ApplicationPermission| p.application_id@ != id
}

/// The permissions whose id is not `id`, in their order.
pub fn retain_other_permissions(permissions: &Vec<ApplicationPermission>, id: &str) -> (r: Vec<
    ApplicationPermission,
>)
    ensures
        r@ == permissions@.filter(has_other_application_id(id@)),
{
    let target = String::from_str(id);
    let mut out: Vec<ApplicationPermission> = Vec::new();
    let mut i: usize = 0;
    assert(permissions@.take(0) =~= Seq::<ApplicationPermission>::empty());
    while i < permissions.len()
        invariant
            i <= permissions@.len(),
            target@ == id@,
            out@ == permissions@.take(i as int).filter(has_other_application_id(id@)),
        decreases permissions@.len() - i,
    {
        proof {
            assert(permissions@.take(i + 1) =~= permissions@.take(i as int).push(permissions@[i as int]));
            permissions@.take(i as int).lemma_filter_push(permissions@[i as int], has_other_application_id(id@));
        }
        if permissions[i].application_id != target {
            out.push(permissions[i].clone());
        }
        i = i + 1;
    }
    assert(permissions@.take(permissions@.len() as int) =~= permissions@);
    out
}

/// The permissions once `permission` is saved: it replaces any permission with the same id, and
/// the result is in listing order. An invalid permission is refused.
pub fn permissions_with_saved(permissions: &Vec<ApplicationPermission>, permission: ApplicationPermission) -> (r:
    Result<Vec<ApplicationPermission>, PermissionStoreError>)
    ensures
        r is Err <==> permission_problem(permission@) is Some,
        r matches Err(e) ==> permission_problem(permission@) matches Some(v) && e
            == PermissionStoreError::InvalidPermission(v),
        r matches Ok(v) ==> v@.to_multiset() == permissions@.filter(has_other_application_id(permission.application_id@)).push(
            permission,
        ).to_multiset() && crate::sorting::sorted_by_key(v@),
        r matches Ok(v) ==> v@.contains(permission),
        r matches Ok(v) ==> forall|q: ApplicationPermission| #[trigger]
            v@.contains(q) && q.application_id@ == permission.application_id@ ==> q == permission,
        r matches Ok(v) ==> forall|q: ApplicationPermission| #[trigger]
            permissions@.contains(q) && q.application_id@ != permission.application_id@ ==> v@.contains(q),
{
    match permission.validate() {
        Err(e) => Err(PermissionStoreError::InvalidPermission(e)),
        Ok(()) => {
            let mut kept = retain_other_permissions(permissions, permission.application_id.as_str());
            let ghost pv = permission;
            let ghost filtered = kept@;
            kept.push(permission);
            let sorted = sort_permissions(kept);
            proof {
                let s = filtered.push(pv);
                let pred = has_other_application_id(pv.application_id@);
                assert(filtered == permissions@.filter(pred));
                s.to_multiset_ensures();
                sorted@.to_multiset_ensures();
                assert(s.contains(pv)) by {
                    assert(s[s.len() - 1] == pv);
                }
                assert(s.to_multiset().count(pv) > 0);
                assert(sorted@.to_multiset().count(pv) > 0);
                assert(sorted@.contains(pv));
                assert forall|q: ApplicationPermission| #[trigger]
                    sorted@.contains(q) && q.application_id@ == pv.application_id@ implies q == pv by {
                    assert(s.to_multiset().count(q) > 0);
                    assert(s.contains(q));
                    if q != pv {
                        let k = choose|k: int| 0 <= k < s.len() && s[k] == q;
                        assert(k < filtered.len());
                        assert(filtered[k] == q);
                        permissions@.lemma_filter_pred(pred, k);
                    }
                }
                assert forall|q: ApplicationPermission| #[trigger]
                    permissions@.contains(q) && q.application_id@ != pv.application_id@ implies sorted@.contains(q) by {
                    let j = choose|j: int| 0 <= j < permissions@.len() && permissions@[j] == q;
                    permissions@.lemma_filter_contains(pred, j);
                    assert(filtered.contains(q));
                    let k = choose|k: int| 0 <= k < filtered.len() && filtered[k] == q;
                    assert(s[k] == q);
                    assert(s.contains(q));
                    assert(s.to_multiset().count(q) > 0);
                }
            }
            Ok(sorted)
        },
    }
}

} // verus!

verus! {

/// The permissions that a store holds; a store that does not exist yet holds none.
pub open spec fn stored_permissions(stored: Option<Seq<char>>) -> Result<
    Seq<ApplicationPermissionView>,
    PermissionStoreError,
> {
    match stored {
        Some(c) => decode_permission_store_spec(c),
        None => Ok(Seq::empty()),
    }
}

/// `v` lists the permissions `ps`: the same permissions, ordered by label ignoring case, then
/// id; permissions with equal keys keep their stored order.
pub open spec fn is_permission_listing(v: Seq<ApplicationPermission>, ps: Seq<ApplicationPermissionView>) -> bool {
    &&& crate::sorting::sorted_by_key(v)
    &&& exists|s: Seq<ApplicationPermission>|
        #![trigger s.to_multiset()]
        permission_views(s) == ps && s.to_multiset() == v.to_multiset() && forall|
            k: (Seq<char>, Seq<char>),
        | #[trigger] v.filter(crate::sorting::key_is(k)) == s.filter(crate::sorting::key_is(k))
}

/// The listing key of a stored permission: its label ignoring case, then its id.
pub open spec fn permission_view_key(p: ApplicationPermissionView) -> (Seq<char>, Seq<char>) {
    (crate::text::lowercase(p.label), p.application_id)
}

/// No stored permission is followed by one with a smaller listing key.
pub open spec fn permission_views_sorted(s: Seq<ApplicationPermissionView>) -> bool {
    forall|i: int, j: int|
        0 <= i < j < s.len() ==> !crate::sorting::key_lt(
            permission_view_key(#[trigger] s[j]),
            permission_view_key(#[trigger] s[i]),
        )
}

/// What a store holds after `p` was saved into one that held `before`: exactly the
/// permissions of `before` with another id, each as often as before, and `p` once, in listing
/// order. So `p` is there, it is the only permission with its id, every other permission that
/// was there stays, and nothing else appears.
pub open spec fn permission_saved(
    before: Seq<ApplicationPermissionView>,
    p: ApplicationPermissionView,
    after: Seq<ApplicationPermissionView>,
) -> bool {
    &&& after.to_multiset() == before.filter(view_has_other_application_id(p.application_id)).push(
        p,
    ).to_multiset()
    &&& permission_views_sorted(after)
    &&& after.contains(p)
    &&& forall|q: ApplicationPermissionView| #[trigger] after.contains(q) && q.application_id == p.application_id ==> q == p
    &&& forall|q: ApplicationPermissionView| #[trigger] before.contains(q) && q.application_id != p.application_id ==> after.contains(q)
    &&& forall|q: ApplicationPermissionView| #[trigger] after.contains(q) ==> q == p || before.contains(q)
}

pub open spec fn view_has_other_application_id(id: Seq<char>) -> spec_fn(ApplicationPermissionView) -> bool {
    |p: ApplicationPermissionView| p.application_id != id
}

/// Every permission that a store gives back is valid.
pub proof fn lemma_decoded_permissions_valid(ls: Seq<Seq<char>>)
    ensures
        decode_permission_lines(ls) matches Ok(ps) ==> forall|k: int|
            0 <= k < ps.len() ==> permission_problem(#[trigger] ps[k]) is None,
    decreases ls.len(),
{
    if ls.len() > 0 {
        lemma_decoded_permissions_valid(ls.drop_first());
        if !is_blank(ls[0]) {
            match decode_permission_spec(ls[0]) {
                Ok(p) => match decode_permission_lines(ls.drop_first()) {
                    Ok(rest) => {
                        let ps = seq![p] + rest;
                        assert forall|k: int| 0 <= k < ps.len() implies permission_problem(
                            #[trigger] ps[k],
                        ) is None by {
                            if k > 0 {
                                assert(ps[k] == rest[k - 1]);
                            }
                        }
                    },
                    Err(_) => {},
                },
                Err(_) => {},
            }
        }
    }
}

proof fn lemma_permission_views_filter(s: Seq<ApplicationPermission>, id: Seq<char>)
    ensures
        permission_views(s.filter(has_other_application_id(id))) == permission_views(s).filter(view_has_other_application_id(id)),
    decreases s.len(),
{
    if s.len() > 0 {
        let init = s.drop_last();
        let x = s.last();
        lemma_permission_views_filter(init, id);
        assert(s =~= init.push(x));
        init.lemma_filter_push(x, has_other_application_id(id));
        assert(permission_views(s) =~= permission_views(init).push(x@));
        permission_views(init).lemma_filter_push(x@, view_has_other_application_id(id));
        if x.application_id@ != id {
            assert(permission_views(init.filter(has_other_application_id(id)).push(x)) =~= permission_views(
                init.filter(has_other_application_id(id)),
            ).push(x@));
        }
    } else {
        assert(permission_views(s) =~= Seq::<ApplicationPermissionView>::empty());
        assert(s.filter(has_other_application_id(id)) =~= Seq::<ApplicationPermission>::empty());
    }
}

fn read_stored_permissions(stored: Option<String>) -> (r: Result<Vec<ApplicationPermission>, PermissionStoreError>)
    ensures
        r is Err <==> stored_permissions(stored_text(stored)) is Err,
        r matches Err(e) ==> stored_permissions(stored_text(stored)) == Err::<
            Seq<ApplicationPermissionView>,
            PermissionStoreError,
        >(e),
        r matches Ok(v) ==> stored_permissions(stored_text(stored)) == Ok::<
            Seq<ApplicationPermissionView>,
            PermissionStoreError,
        >(permission_views(v@)),
        r matches Ok(v) ==> forall|k: int|
            0 <= k < v@.len() ==> permission_problem(#[trigger] v@[k]@) is None,
{
    match stored {
        None => {
            let v: Vec<ApplicationPermission> = Vec::new();
            assert(permission_views(v@) =~= Seq::<ApplicationPermissionView>::empty());
            Ok(v)
        },
        Some(contents) => {
            let r = parse_permission_store(contents.as_str());
            proof {
                lemma_decoded_permissions_valid(crate::fields::lines_spec(contents@));
                if r is Ok {
                    let v = r->Ok_0;
                    assert forall|k: int| 0 <= k < v@.len() implies permission_problem(
                        #[trigger] v@[k]@,
                    ) is None by {
                        assert(permission_views(v@)[k] == v@[k]@);
                    }
                }
            }
            r
        },
    }
}

/// The permissions of a store in listing order, from what reading the store gave: its text,
/// `None` where the store does not exist yet, or the read error.
pub fn list_stored_permissions(stored: Result<Option<String>, std::io::Error>) -> (r: Result<
    Vec<ApplicationPermission>,
    PermissionStoreError,
>)
    ensures
        stored matches Err(e) ==> r == Err::<Vec<ApplicationPermission>, PermissionStoreError>(
            PermissionStoreError::Io(e),
        ),
        stored matches Ok(c) ==> (r is Err <==> stored_permissions(stored_text(c)) is Err),
        stored matches Ok(c) ==> (r matches Err(e) ==> stored_permissions(stored_text(c)) == Err::<
            Seq<ApplicationPermissionView>,
            PermissionStoreError,
        >(e)),
        stored matches Ok(c) ==> (r matches Ok(v) ==> is_permission_listing(
            v@,
            stored_permissions(stored_text(c))->Ok_0,
        )),
{
    match stored {
        Err(e) => Err(PermissionStoreError::Io(e)),
        Ok(c) => match read_stored_permissions(c) {
            Err(e) => Err(e),
            Ok(v) => {
                let ghost parsed = v@;
                let sorted = sort_permissions(v);
                assert(permission_views(parsed) == stored_permissions(stored_text(c))->Ok_0);
                assert(parsed.to_multiset() == sorted@.to_multiset());
                Ok(sorted)
            },
        },
    }
}

/// The new text of a store once `permission` is saved into it, from what reading the store
/// gave. An invalid permission is refused before the store is looked at.
pub fn save_permission_to_store(
    stored: Result<Option<String>, std::io::Error>,
    permission: ApplicationPermission,
) -> (r: Result<String, PermissionStoreError>)
    ensures
        permission_problem(permission@) matches Some(e) ==> r == Err::<String, PermissionStoreError>(
            PermissionStoreError::InvalidPermission(e),
        ),
        permission_problem(permission@) is None ==> (stored matches Err(e) ==> r == Err::<
            String,
            PermissionStoreError,
        >(PermissionStoreError::Io(e))),
        permission_problem(permission@) is None ==> (stored matches Ok(c) ==> (r is Err <==> stored_permissions(
            stored_text(c),
        ) is Err)),
        permission_problem(permission@) is None ==> (stored matches Ok(c) ==> (r matches Err(e)
            ==> stored_permissions(stored_text(c)) == Err::<
            Seq<ApplicationPermissionView>,
            PermissionStoreError,
        >(e))),
        r matches Ok(s) ==> (stored matches Ok(c) && permission_saved(
            stored_permissions(stored_text(c))->Ok_0,
            permission@,
            decode_permission_store_spec(s@)->Ok_0,
        ) && decode_permission_store_spec(s@) is Ok),
{
    match permission.validate() {
        Err(e) => {
            return Err(PermissionStoreError::InvalidPermission(e));
        },
        Ok(()) => {},
    }
    let c = match stored {
        Err(e) => {
            return Err(PermissionStoreError::Io(e));
        },
        Ok(c) => c,
    };
    let ghost text = stored_text(c);
    let permissions = match read_stored_permissions(c) {
        Err(e) => {
            return Err(e);
        },
        Ok(v) => v,
    };
    let ghost pv = permission@;
    let ghost pval = permission;
    let ghost before = permission_views(permissions@);
    let saved = match permissions_with_saved(&permissions, permission) {
        Err(e) => {
            return Err(e);
        },
        Ok(v) => v,
    };
    let out = render_permission_store(saved.as_slice());
    proof {
        let after = permission_views(saved@);
        let pred = has_other_application_id(pval.application_id@);
        let filtered = permissions@.filter(pred);
        let s = filtered.push(pval);
        s.to_multiset_ensures();
        saved@.to_multiset_ensures();
        assert forall|k: int| 0 <= k < saved@.len() implies permission_problem(
            #[trigger] saved@[k]@,
        ) is None && (saved@[k] == pval || permissions@.contains(saved@[k])) by {
            let q = saved@[k];
            assert(saved@.contains(q));
            assert(s.to_multiset().count(q) > 0);
            assert(s.contains(q));
            if q != pval {
                let j = choose|j: int| 0 <= j < s.len() && s[j] == q;
                assert(j < filtered.len());
                permissions@.lemma_filter_contains_rev(pred, q);
                let i = choose|i: int| 0 <= i < permissions@.len() && permissions@[i] == q;
                assert(permission_problem(permissions@[i]@) is None);
            }
        }
        assert forall|k: int| 0 <= k < after.len() implies permission_problem(#[trigger] after[k])
            is None by {
            assert(after[k] == saved@[k]@);
        }
        lemma_permission_store_round_trip(after);
        lemma_permission_views_filter(permissions@, pv.application_id);
        crate::sorting::lemma_map_values_multiset(
            saved@,
            s,
            |x: ApplicationPermission| x@,
        );
        assert(permission_views(saved@) =~= saved@.map_values(|x: ApplicationPermission| x@));
        assert(permission_views(s) =~= s.map_values(|x: ApplicationPermission| x@));
        assert(permission_views(s) =~= permission_views(filtered).push(pv));
        assert forall|i: int, j: int| 0 <= i < j < after.len() implies !crate::sorting::key_lt(
            permission_view_key(#[trigger] after[j]),
            permission_view_key(#[trigger] after[i]),
        ) by {
            assert(after[i] == saved@[i]@ && after[j] == saved@[j]@);
            assert(!crate::sorting::key_lt(crate::sorting::SortKey::sort_key(&saved@[j]), crate::sorting::SortKey::sort_key(&saved@[i])));
        }
        assert(after.contains(pv)) by {
            let k = choose|k: int| 0 <= k < saved@.len() && saved@[k] == pval;
            assert(after[k] == pv);
        }
        assert forall|q: ApplicationPermissionView| #[trigger]
            after.contains(q) && q.application_id == pv.application_id implies q == pv by {
            let k = choose|k: int| 0 <= k < after.len() && after[k] == q;
            assert(saved@[k]@ == q);
            assert(saved@.contains(saved@[k]));
        }
        assert forall|q: ApplicationPermissionView| #[trigger]
            before.contains(q) && q.application_id != pv.application_id implies after.contains(q) by {
            let k = choose|k: int| 0 <= k < before.len() && before[k] == q;
            assert(permissions@[k]@ == q);
            assert(permissions@.contains(permissions@[k]));
            assert(saved@.contains(permissions@[k]));
            let j = choose|j: int| 0 <= j < saved@.len() && saved@[j] == permissions@[k];
            assert(after[j] == q);
        }
        assert forall|q: ApplicationPermissionView| #[trigger]
            after.contains(q) implies q == pv || before.contains(q) by {
            let k = choose|k: int| 0 <= k < after.len() && after[k] == q;
            assert(saved@[k]@ == q);
            if saved@[k] != pval {
                assert(permissions@.contains(saved@[k]));
                let i = choose|i: int| 0 <= i < permissions@.len() && permissions@[i] == saved@[k];
                assert(before[i] == q);
            }
        }
    }
    Ok(out)
}

/// The new text of a store once the permission with id `id` is removed from it, from what
/// reading the store gave; the other permissions keep their order.
pub fn remove_permission_from_store(stored: Result<Option<String>, std::io::Error>, id: &str) -> (r:
    Result<String, PermissionStoreError>)
    ensures
        stored matches Err(e) ==> r == Err::<String, PermissionStoreError>(PermissionStoreError::Io(e)),
        stored matches Ok(c) ==> (r is Err <==> stored_permissions(stored_text(c)) is Err),
        stored matches Ok(c) ==> (r matches Err(e) ==> stored_permissions(stored_text(c)) == Err::<
            Seq<ApplicationPermissionView>,
            PermissionStoreError,
        >(e)),
        stored matches Ok(c) ==> (r matches Ok(s) ==> decode_permission_store_spec(s@) == Ok::<
            Seq<ApplicationPermissionView>,
            PermissionStoreError,
        >(stored_permissions(stored_text(c))->Ok_0.filter(view_has_other_application_id(id@)))),
{
    let c = match stored {
        Err(e) => {
            return Err(PermissionStoreError::Io(e));
        },
        Ok(c) => c,
    };
    let permissions = match read_stored_permissions(c) {
        Err(e) => {
            return Err(e);
        },
        Ok(v) => v,
    };
    let kept = retain_other_permissions(&permissions, id);
    let out = render_permission_store(kept.as_slice());
    proof {
        let pred = has_other_application_id(id@);
        lemma_permission_views_filter(permissions@, id@);
        let after = permission_views(kept@);
        assert forall|k: int| 0 <= k < after.len() implies permission_problem(#[trigger] after[k])
            is None by {
            permissions@.lemma_filter_contains_rev(pred, kept@[k]);
            assert(permissions@.filter(pred)[k] == kept@[k]);
            assert(permissions@.filter(pred).contains(kept@[k]));
            let i = choose|i: int| 0 <= i < permissions@.len() && permissions@[i] == kept@[k];
            assert(after[k] == kept@[k]@);
        }
        lemma_permission_store_round_trip(after);
    }
    Ok(out)
}


/// A listing holds exactly the permissions it lists.
pub proof fn lemma_listing_contents(v: Seq<ApplicationPermission>, ps: Seq<ApplicationPermissionView>)
    requires
        is_permission_listing(v, ps),
    ensures
        forall|q: ApplicationPermissionView| #[trigger] permission_views(v).contains(q) <==> ps.contains(q),
{
    let s = choose|s: Seq<ApplicationPermission>|
        #![trigger s.to_multiset()]
        permission_views(s) == ps && s.to_multiset() == v.to_multiset() && forall|
            k: (Seq<char>, Seq<char>),
        | #[trigger] v.filter(crate::sorting::key_is(k)) == s.filter(crate::sorting::key_is(k));
    assert forall|q: ApplicationPermissionView| #[trigger] permission_views(v).contains(q) <==> ps.contains(q) by {
        if permission_views(v).contains(q) {
            let i = choose|i: int| 0 <= i < permission_views(v).len() && permission_views(v)[i] == q;
            let x = v[i];
            vstd::seq_lib::to_multiset_contains(v, x);
            vstd::seq_lib::to_multiset_contains(s, x);
            assert(v.contains(x));
            assert(s.contains(x));
            let j = choose|j: int| 0 <= j < s.len() && s[j] == x;
            assert(ps[j] == q);
        }
        if ps.contains(q) {
            let j = choose|j: int| 0 <= j < ps.len() && ps[j] == q;
            let x = s[j];
            vstd::seq_lib::to_multiset_contains(v, x);
            vstd::seq_lib::to_multiset_contains(s, x);
            assert(s.contains(x));
            assert(v.contains(x));
            let i = choose|i: int| 0 <= i < v.len() && v[i] == x;
            assert(permission_views(v)[i] == q);
        }
    }
}

/// Listing a store right after `p` was saved into it shows `p` once, as the only permission
/// with its id, every other permission that was stored as often as it was, and nothing else,
/// in listing order.
pub proof fn lemma_list_after_save(
    before: Seq<ApplicationPermissionView>,
    p: ApplicationPermissionView,
    after: Seq<ApplicationPermissionView>,
    v: Seq<ApplicationPermission>,
)
    requires
        permission_saved(before, p, after),
        is_permission_listing(v, after),
    ensures
        crate::sorting::sorted_by_key(v),
        permission_views(v).contains(p),
        forall|q: ApplicationPermissionView| #[trigger] permission_views(v).contains(q) && q.application_id
            == p.application_id ==> q == p,
        forall|q: ApplicationPermissionView| #[trigger] before.contains(q) && q.application_id != p.application_id
            ==> permission_views(v).contains(q),
        forall|q: ApplicationPermissionView| #[trigger] permission_views(v).contains(q) ==> q == p || before.contains(q),
        permission_views(v).to_multiset() == before.filter(view_has_other_application_id(p.application_id)).push(
            p,
        ).to_multiset(),
{
    lemma_listing_contents(v, after);
    let s = choose|s: Seq<ApplicationPermission>|
        #![trigger s.to_multiset()]
        permission_views(s) == after && s.to_multiset() == v.to_multiset() && forall|
            k: (Seq<char>, Seq<char>),
        | #[trigger] v.filter(crate::sorting::key_is(k)) == s.filter(crate::sorting::key_is(k));
    crate::sorting::lemma_map_values_multiset(v, s, |x: ApplicationPermission| x@);
    assert(permission_views(v) =~= v.map_values(|x: ApplicationPermission| x@));
    assert(permission_views(s) =~= s.map_values(|x: ApplicationPermission| x@));
}


/// A permission validates exactly when its application id and label are both non-blank; a
/// blank id is reported first, then a blank label.
pub proof fn lemma_permission_valid_iff_complete(p: ApplicationPermissionView)
    ensures
        permission_problem(p) is None <==> (!is_blank(p.application_id) && !is_blank(p.label)),
        is_blank(p.application_id) ==> permission_problem(p) == Some(
            PermissionValidationError::MissingApplicationId,
        ),
        !is_blank(p.application_id) && is_blank(p.label) ==> permission_problem(p) == Some(
            PermissionValidationError::MissingLabel,
        ),
{
}

} // verus!
