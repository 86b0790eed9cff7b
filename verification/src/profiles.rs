//! Connection profiles: validation and their one-line-per-profile store format.

use vstd::prelude::*;

use crate::codec::{decode_field_chars, decode_field_spec, encode_field_into, encode_field_spec};
use crate::decimal::{dec, parse_unsigned, parse_unsigned_chars, write_dec};
use crate::errors::{ProfileStoreError, ProfileValidationError};
use crate::fields::{join_chars, join_fields, split_chars, split_fields, views};
use crate::text::{chars_of, is_blank, str_is_blank, string_from_chars};

verus! {

/// Everything a client needs to reach a server through an SSH tunnel.
#[derive(Debug, PartialEq, Eq)]
pub struct ConnectionProfile {
    pub id: String,
    pub label: String,
    pub ssh_user: String,
    pub ssh_host: String,
    pub local_port: u16,
    pub remote_port: u16,
    pub auth_token: String,
}

/// The value of a connection profile.
pub struct ConnectionProfileView {
    pub id: Seq<char>,
    pub label: Seq<char>,
    pub ssh_user: Seq<char>,
    pub ssh_host: Seq<char>,
    pub local_port: u16,
    pub remote_port: u16,
    pub auth_token: Seq<char>,
}

impl View for ConnectionProfile {
    type V = ConnectionProfileView;

    open spec fn view(&self) -> ConnectionProfileView {
        ConnectionProfileView {
            id: self.id@,
            label: self.label@,
            ssh_user: self.ssh_user@,
            ssh_host: self.ssh_host@,
            local_port: self.local_port,
            remote_port: self.remote_port,
            auth_token: self.auth_token@,
        }
    }
}

impl Clone for ConnectionProfile {
    fn clone(&self) -> (r: Self)
        ensures
            r == *self,
    {
        ConnectionProfile {
            id: self.id.clone(),
            label: self.label.clone(),
            ssh_user: self.ssh_user.clone(),
            ssh_host: self.ssh_host.clone(),
            local_port: self.local_port,
            remote_port: self.remote_port,
            auth_token: self.auth_token.clone(),
        }
    }
}

/// The first rule that a profile breaks, if any.
pub open spec fn profile_problem(p: ConnectionProfileView) -> Option<ProfileValidationError> {
    if is_blank(p.id) {
        Some(ProfileValidationError::MissingId)
    } else if is_blank(p.label) {
        Some(ProfileValidationError::MissingLabel)
    } else if is_blank(p.ssh_user) {
        Some(ProfileValidationError::MissingSshUser)
    } else if is_blank(p.ssh_host) {
        Some(ProfileValidationError::MissingSshHost)
    } else if p.local_port == 0 || p.remote_port == 0 {
        Some(ProfileValidationError::InvalidSshPort)
    } else if is_blank(p.auth_token) {
        Some(ProfileValidationError::MissingAuthToken)
    } else {
        None
    }
}

impl ConnectionProfile {
    /// Checks that every field is usable; the first missing one is reported.
    pub fn validate(&self) -> (r: Result<(), ProfileValidationError>)
        ensures
            r is Ok <==> profile_problem(self@) is None,
            r matches Err(e) ==> profile_problem(self@) == Some(e),
    {
        if str_is_blank(self.id.as_str()) {
            return Err(ProfileValidationError::MissingId);
        }
        if str_is_blank(self.label.as_str()) {
            return Err(ProfileValidationError::MissingLabel);
        }
        if str_is_blank(self.ssh_user.as_str()) {
            return Err(ProfileValidationError::MissingSshUser);
        }
        if str_is_blank(self.ssh_host.as_str()) {
            return Err(ProfileValidationError::MissingSshHost);
        }
        if self.local_port == 0 || self.remote_port == 0 {
            return Err(ProfileValidationError::InvalidSshPort);
        }
        if str_is_blank(self.auth_token.as_str()) {
            return Err(ProfileValidationError::MissingAuthToken);
        }
        Ok(())
    }
}

/// The stored fields of a profile, in order.
pub open spec fn profile_fields(p: ConnectionProfileView) -> Seq<Seq<char>> {
    seq![
        encode_field_spec(p.id),
        encode_field_spec(p.label),
        encode_field_spec(p.ssh_user),
        encode_field_spec(p.ssh_host),
        dec(p.local_port as nat),
        dec(p.remote_port as nat),
        encode_field_spec(p.auth_token),
    ]
}

/// The stored line of a profile: its fields joined by tabs.
pub open spec fn encode_profile_spec(p: ConnectionProfileView) -> Seq<char> {
    join_fields(profile_fields(p), '\t')
}

/// What reading one stored line gives.
pub open spec fn decode_profile_spec(line: Seq<char>) -> Result<
    ConnectionProfileView,
    ProfileStoreError,
> {
    let fs = split_fields(line, '\t');
    if fs.len() != 7 {
        Err(ProfileStoreError::CorruptedStore)
    } else {
        match (
            decode_field_spec(fs[0]),
            decode_field_spec(fs[1]),
            decode_field_spec(fs[2]),
            decode_field_spec(fs[3]),
            parse_unsigned(fs[4], 65535),
            parse_unsigned(fs[5], 65535),
            decode_field_spec(fs[6]),
        ) {
            (Some(id), Some(label), Some(user), Some(host), Some(lp), Some(rp), Some(token)) => {
                let p = ConnectionProfileView {
                    id,
                    label,
                    ssh_user: user,
                    ssh_host: host,
                    local_port: lp as u16,
                    remote_port: rp as u16,
                    auth_token: token,
                };
                match profile_problem(p) {
                    Some(e) => Err(ProfileStoreError::InvalidProfile(e)),
                    None => Ok(p),
                }
            },
            _ => Err(ProfileStoreError::CorruptedStore),
        }
    }
}

fn encoded_string_field(s: &String) -> (v: Vec<char>)
    ensures
        v@ == encode_field_spec(s@),
{
    let chars = chars_of(s.as_str());
    let mut out: Vec<char> = Vec::new();
    encode_field_into(&chars, &mut out);
    assert(out@ =~= encode_field_spec(s@));
    out
}

fn dec_field(n: u16) -> (v: Vec<char>)
    ensures
        v@ == dec(n as nat),
{
    let mut out: Vec<char> = Vec::new();
    write_dec(n as u64, &mut out);
    assert(out@ =~= dec(n as nat));
    out
}

/// The stored line of a profile.
pub fn encode_profile(profile: &ConnectionProfile) -> (r: String)
    ensures
        r@ == encode_profile_spec(profile@),
{
    let mut fs: Vec<Vec<char>> = Vec::new();
    fs.push(encoded_string_field(&profile.id));
    fs.push(encoded_string_field(&profile.label));
    fs.push(encoded_string_field(&profile.ssh_user));
    fs.push(encoded_string_field(&profile.ssh_host));
    fs.push(dec_field(profile.local_port));
    fs.push(dec_field(profile.remote_port));
    fs.push(encoded_string_field(&profile.auth_token));
    assert(views(fs@) =~= profile_fields(profile@));
    let line = join_chars(&fs, '\t');
    string_from_chars(&line)
}

/// Reads one stored line back into a profile.
pub fn decode_profile(line: &str) -> (r: Result<ConnectionProfile, ProfileStoreError>)
    ensures
        r matches Ok(p) ==> decode_profile_spec(line@) == Ok::<
            ConnectionProfileView,
            ProfileStoreError,
        >(p@),
        r matches Err(e) ==> decode_profile_spec(line@) == Err::<ConnectionProfileView, _>(e),
{
    let chars = chars_of(line);
    let fs = split_chars(&chars, '\t');
    let ghost sf = split_fields(line@, '\t');
    assert(views(fs@) == sf);
    if fs.len() != 7 {
        return Err(ProfileStoreError::CorruptedStore);
    }
    assert(forall|k: int| 0 <= k < 7 ==> #[trigger] fs@[k]@ == sf[k]) by {
        assert forall|k: int| 0 <= k < 7 implies #[trigger] fs@[k]@ == sf[k] by {
            assert(views(fs@)[k] == fs@[k]@);
        }
    }
    let id = decode_field_chars(fs[0].as_slice());
    let label = decode_field_chars(fs[1].as_slice());
    let user = decode_field_chars(fs[2].as_slice());
    let host = decode_field_chars(fs[3].as_slice());
    let lp = parse_unsigned_chars(fs[4].as_slice(), 65535);
    let rp = parse_unsigned_chars(fs[5].as_slice(), 65535);
    let token = decode_field_chars(fs[6].as_slice());
    match (id, label, user, host, lp, rp, token) {
        (Some(id), Some(label), Some(user), Some(host), Some(lp), Some(rp), Some(token)) => {
            let profile = ConnectionProfile {
                id: string_from_chars(&id),
                label: string_from_chars(&label),
                ssh_user: string_from_chars(&user),
                ssh_host: string_from_chars(&host),
                local_port: lp as u16,
                remote_port: rp as u16,
                auth_token: string_from_chars(&token),
            };
            match profile.validate() {
                Ok(()) => Ok(profile),
                Err(e) => Err(ProfileStoreError::InvalidProfile(e)),
            }
        },
        _ => Err(ProfileStoreError::CorruptedStore),
    }
}

/// Reading the stored line of a valid profile gives the profile back.
pub proof fn lemma_profile_round_trip(p: ConnectionProfileView)
    requires
        profile_problem(p) is None,
    ensures
        decode_profile_spec(encode_profile_spec(p)) == Ok::<
            ConnectionProfileView,
            ProfileStoreError,
        >(p),
{
    let fs = profile_fields(p);
    crate::codec::lemma_encode_no_separator(p.id);
    crate::codec::lemma_encode_no_separator(p.label);
    crate::codec::lemma_encode_no_separator(p.ssh_user);
    crate::codec::lemma_encode_no_separator(p.ssh_host);
    crate::codec::lemma_encode_no_separator(p.auth_token);
    crate::decimal::lemma_dec(p.local_port as nat);
    crate::decimal::lemma_dec(p.remote_port as nat);
    assert(crate::fields::all_free_of(fs, '\t')) by {
        assert forall|k: int| 0 <= k < fs.len() implies crate::fields::free_of(
            #[trigger] fs[k],
            '\t',
        ) by {
            assert forall|i: int| 0 <= i < fs[k].len() implies #[trigger] fs[k][i] != '\t' by {
                if k == 4 || k == 5 {
                    assert(crate::decimal::is_digit(fs[k][i]));
                }
            }
        }
    }
    crate::fields::lemma_split_join(fs, '\t');
    crate::codec::lemma_decode_encode(p.id);
    crate::codec::lemma_decode_encode(p.label);
    crate::codec::lemma_decode_encode(p.ssh_user);
    crate::codec::lemma_decode_encode(p.ssh_host);
    crate::codec::lemma_decode_encode(p.auth_token);
    crate::decimal::lemma_parse_dec(p.local_port as nat, 65535);
    crate::decimal::lemma_parse_dec(p.remote_port as nat, 65535);
}

} // verus!

verus! {

/// Decodes one stored profile field; a bad escape marks the store as corrupted.
pub fn decode_field(value: &str) -> (r: Result<String, ProfileStoreError>)
    ensures
        r matches Ok(s) ==> decode_field_spec(value@) == Some(s@),
        r matches Err(e) ==> decode_field_spec(value@) is None && e
            == ProfileStoreError::CorruptedStore,
{
    let chars = chars_of(value);
    match decode_field_chars(&chars) {
        Some(v) => Ok(string_from_chars(&v)),
        None => Err(ProfileStoreError::CorruptedStore),
    }
}

pub open spec fn profile_views(s: Seq<ConnectionProfile>) -> Seq<ConnectionProfileView> {
    s.map_values(|p: ConnectionProfile| p@)
}

/// Reading the lines of a profile store: blank lines are skipped and the first line
/// that does not decode decides the error.
pub open spec fn decode_profile_lines(ls: Seq<Seq<char>>) -> Result<
    Seq<ConnectionProfileView>,
    ProfileStoreError,
>
    decreases ls.len(),
{
    if ls.len() == 0 {
        Ok(Seq::empty())
    } else if is_blank(ls[0]) {
        decode_profile_lines(ls.drop_first())
    } else {
        match decode_profile_spec(ls[0]) {
            Err(e) => Err(e),
            Ok(p) => match decode_profile_lines(ls.drop_first()) {
                Ok(rest) => Ok(seq![p] + rest),
                Err(e) => Err(e),
            },
        }
    }
}

/// What reading a whole profile store gives.
pub open spec fn decode_profile_store_spec(contents: Seq<char>) -> Result<
    Seq<ConnectionProfileView>,
    ProfileStoreError,
> {
    decode_profile_lines(crate::fields::lines_spec(contents))
}

/// The stored lines of the profiles.
pub open spec fn encoded_profile_lines(ps: Seq<ConnectionProfileView>) -> Seq<Seq<char>> {
    ps.map_values(|p: ConnectionProfileView| encode_profile_spec(p))
}

/// The profile store: one line per profile, each ended by `\n`.
pub open spec fn encode_profile_store_spec(ps: Seq<ConnectionProfileView>) -> Seq<char> {
    if ps.len() == 0 {
        Seq::empty()
    } else {
        join_fields(encoded_profile_lines(ps), '\n').push('\n')
    }
}

pub open spec fn prepend_profiles(
    p: Seq<ConnectionProfileView>,
    r: Result<Seq<ConnectionProfileView>, ProfileStoreError>,
) -> Result<Seq<ConnectionProfileView>, ProfileStoreError> {
    match r {
        Ok(s) => Ok(p + s),
        Err(e) => Err(e),
    }
}

/// Reads a whole profile store.
pub fn parse_profile_store(contents: &str) -> (r: Result<Vec<ConnectionProfile>, ProfileStoreError>)
    ensures
        r matches Ok(v) ==> decode_profile_store_spec(contents@) == Ok::<
            Seq<ConnectionProfileView>,
            ProfileStoreError,
        >(profile_views(v@)),
        r matches Err(e) ==> decode_profile_store_spec(contents@) == Err::<
            Seq<ConnectionProfileView>,
            ProfileStoreError,
        >(e),
{
    let chars = chars_of(contents);
    let ls = crate::fields::lines_of(chars.as_slice());
    let ghost all = crate::fields::lines_spec(contents@);
    let mut out: Vec<ConnectionProfile> = Vec::new();
    let mut i: usize = 0;
    proof {
        assert(all.skip(0) =~= all);
        match decode_profile_lines(all) {
            Ok(s) => {
                assert(profile_views(out@) + s =~= s);
            },
            Err(_) => {},
        }
    }
    while i < ls.len()
        invariant
            views(ls@) == all,
            all == crate::fields::lines_spec(contents@),
            i <= ls@.len(),
            decode_profile_lines(all) == prepend_profiles(
                profile_views(out@),
                decode_profile_lines(all.skip(i as int)),
            ),
        decreases ls@.len() - i,
    {
        assert(ls@[i as int]@ == all[i as int]) by {
            assert(views(ls@)[i as int] == ls@[i as int]@);
        }
        let ghost rest = all.skip(i as int);
        assert(rest.drop_first() =~= all.skip(i + 1));
        assert(rest[0] == all[i as int]);
        let line = string_from_chars(ls[i].as_slice());
        if !str_is_blank(line.as_str()) {
            match decode_profile(line.as_str()) {
                Ok(p) => {
                    let ghost pv = p@;
                    let ghost prev = profile_views(out@);
                    out.push(p);
                    proof {
                        assert(profile_views(out@) =~= prev.push(pv));
                        match decode_profile_lines(all.skip(i + 1)) {
                            Ok(s) => {
                                assert(prev + (seq![pv] + s) =~= prev.push(pv) + s);
                            },
                            Err(_) => {},
                        }
                    }
                },
                Err(e) => {
                    return Err(e);
                },
            }
        }
        i = i + 1;
    }
    proof {
        assert(all.skip(i as int) =~= Seq::<Seq<char>>::empty());
        assert(profile_views(out@) + Seq::<ConnectionProfileView>::empty() =~= profile_views(
            out@,
        ));
    }
    Ok(out)
}

/// Writes a whole profile store.
pub fn render_profile_store(profiles: &[ConnectionProfile]) -> (r: String)
    ensures
        r@ == encode_profile_store_spec(profile_views(profiles@)),
{
    let ghost ps = profile_views(profiles@);
    let ghost encs = encoded_profile_lines(ps);
    let mut out: Vec<char> = Vec::new();
    let mut i: usize = 0;
    while i < profiles.len()
        invariant
            i <= profiles@.len(),
            ps == profile_views(profiles@),
            encs == encoded_profile_lines(ps),
            i == 0 ==> out@ == Seq::<char>::empty(),
            i > 0 ==> out@ == join_fields(encs.take(i as int), '\n').push('\n'),
        decreases profiles@.len() - i,
    {
        let line = encode_profile(&profiles[i]);
        let lc = chars_of(line.as_str());
        proof {
            assert(lc@ == encs[i as int]);
            if i > 0 {
                crate::fields::lemma_join_push(encs.take(i as int), encs[i as int], '\n');
                assert(encs.take(i + 1) =~= encs.take(i as int).push(encs[i as int]));
            } else {
                assert(encs.take(1) =~= seq![encs[0]]);
            }
        }
        crate::text::extend_chars(&mut out, lc.as_slice());
        out.push('\n');
        i = i + 1;
        proof {
            if i == 1 {
                assert(out@ =~= join_fields(encs.take(i as int), '\n').push('\n'));
            } else {
                assert(out@ =~= join_fields(encs.take(i as int), '\n').push('\n'));
            }
        }
    }
    assert(encs.take(profiles@.len() as int) =~= encs);
    string_from_chars(&out)
}

proof fn lemma_profile_line_shape(p: ConnectionProfileView)
    requires
        profile_problem(p) is None,
    ensures
        crate::fields::free_of(encode_profile_spec(p), '\n'),
        encode_profile_spec(p).len() > 0,
        encode_profile_spec(p).last() != '\r',
        !is_blank(encode_profile_spec(p)),
{
    let fs = profile_fields(p);
    crate::codec::lemma_encode_no_separator(p.id);
    crate::codec::lemma_encode_no_separator(p.label);
    crate::codec::lemma_encode_no_separator(p.ssh_user);
    crate::codec::lemma_encode_no_separator(p.ssh_host);
    crate::codec::lemma_encode_no_separator(p.auth_token);
    crate::decimal::lemma_dec(p.local_port as nat);
    crate::decimal::lemma_dec(p.remote_port as nat);
    crate::codec::lemma_encode_not_blank(p.id);
    let line = encode_profile_spec(p);
    let rest = fs.drop_first();
    assert(line == fs[0] + seq!['\t'] + join_fields(rest, '\t'));
    let tail = join_fields(rest, '\t');
    assert(crate::fields::all_free_of(fs, '\n')) by {
        assert forall|k: int| 0 <= k < fs.len() implies crate::fields::free_of(
            #[trigger] fs[k],
            '\n',
        ) by {
            assert forall|i: int| 0 <= i < fs[k].len() implies #[trigger] fs[k][i] != '\n' by {
                if k == 4 || k == 5 {
                    assert(crate::decimal::is_digit(fs[k][i]));
                }
            }
        }
    }
    crate::fields::lemma_join_free(fs, '\t', '\n');
    crate::fields::lemma_join_last(fs, '\t');
    let t = encode_field_spec(p.auth_token);
    if t.len() > 0 {
        assert(t[t.len() - 1] != '\r');
    }
    let j = choose|j: int| 0 <= j < fs[0].len() && !crate::text::is_ws(#[trigger] fs[0][j]);
    assert(line[j] == fs[0][j]);
}

/// Reading the store written for valid profiles gives the same profiles, in order.
pub proof fn lemma_profile_store_round_trip(ps: Seq<ConnectionProfileView>)
    requires
        forall|k: int| 0 <= k < ps.len() ==> profile_problem(#[trigger] ps[k]) is None,
    ensures
        decode_profile_store_spec(encode_profile_store_spec(ps)) == Ok::<
            Seq<ConnectionProfileView>,
            ProfileStoreError,
        >(ps),
{
    if ps.len() == 0 {
        assert(crate::fields::split_fields(Seq::<char>::empty(), '\n') =~= seq![
            Seq::<char>::empty(),
        ]);
        assert(crate::fields::lines_spec(Seq::<char>::empty()) =~= Seq::<Seq<char>>::empty());
        assert(ps =~= Seq::<ConnectionProfileView>::empty());
    } else {
        let encs = encoded_profile_lines(ps);
        assert forall|k: int| 0 <= k < encs.len() implies crate::fields::free_of(
            #[trigger] encs[k],
            '\n',
        ) && encs[k].len() > 0 && encs[k].last() != '\r' && !is_blank(encs[k]) by {
            lemma_profile_line_shape(ps[k]);
        }
        crate::fields::lemma_lines_joined(encs);
        lemma_decode_profile_lines(ps);
    }
}

proof fn lemma_decode_profile_lines(ps: Seq<ConnectionProfileView>)
    requires
        forall|k: int| 0 <= k < ps.len() ==> profile_problem(#[trigger] ps[k]) is None,
        forall|k: int|
            0 <= k < ps.len() ==> !is_blank(#[trigger] encoded_profile_lines(ps)[k]),
    ensures
        decode_profile_lines(encoded_profile_lines(ps)) == Ok::<
            Seq<ConnectionProfileView>,
            ProfileStoreError,
        >(ps),
    decreases ps.len(),
{
    let encs = encoded_profile_lines(ps);
    if ps.len() == 0 {
        assert(encs =~= Seq::<Seq<char>>::empty());
        assert(ps =~= Seq::<ConnectionProfileView>::empty());
    } else {
        let rest = ps.drop_first();
        assert(encs.drop_first() =~= encoded_profile_lines(rest));
        assert forall|k: int| 0 <= k < rest.len() implies !is_blank(
            #[trigger] encoded_profile_lines(rest)[k],
        ) by {
            assert(encoded_profile_lines(rest)[k] == encs[k + 1]);
        }
        assert forall|k: int| 0 <= k < rest.len() implies profile_problem(#[trigger] rest[k])
            is None by {
            assert(rest[k] == ps[k + 1]);
        }
        lemma_decode_profile_lines(rest);
        assert(encs[0] == encode_profile_spec(ps[0]));
        assert(!is_blank(encs[0]));
        lemma_profile_round_trip(ps[0]);
        assert(seq![ps[0]] + rest =~= ps);
    }
}

} // verus!

verus! {

broadcast use {vstd::seq_lib::group_seq_properties, vstd::multiset::group_multiset_axioms};

impl crate::sorting::SortKey for ConnectionProfile {
    /// Profiles are listed by label, ignoring case, then by id.
    open spec fn sort_key(&self) -> (Seq<char>, Seq<char>) {
        (crate::text::lowercase(self.label@), self.id@)
    }

    fn exec_sort_key(&self) -> (r: (Vec<char>, Vec<char>)) {
        let lower = crate::text::to_lowercase(self.label.as_str());
        (chars_of(lower.as_str()), chars_of(self.id.as_str()))
    }
}

/// The profiles in listing order: by label ignoring case, then by id.
pub fn sort_profiles(profiles: Vec<ConnectionProfile>) -> (r: Vec<ConnectionProfile>)
    ensures
        r@.to_multiset() == profiles@.to_multiset(),
        crate::sorting::sorted_by_key(r@),
        forall|k: (Seq<char>, Seq<char>)| #[trigger] r@.filter(crate::sorting::key_is(k))
            == profiles@.filter(crate::sorting::key_is(k)),
{
    crate::sorting::sort_by_key(profiles)
}

pub open spec fn has_other_id(id: Seq<char>) -> spec_fn(ConnectionProfile) -> bool {
    |p: ConnectionProfile| p.id@ != id
}

/// The profiles whose id is not `id`, in their order.
pub fn retain_other_profiles(profiles: &Vec<ConnectionProfile>, id: &str) -> (r: Vec<
    ConnectionProfile,
>)
    ensures
        r@ == profiles@.filter(has_other_id(id@)),
{
    let target = String::from_str(id);
    let mut out: Vec<ConnectionProfile> = Vec::new();
    let mut i: usize = 0;
    assert(profiles@.take(0) =~= Seq::<ConnectionProfile>::empty());
    while i < profiles.len()
        invariant
            i <= profiles@.len(),
            target@ == id@,
            out@ == profiles@.take(i as int).filter(has_other_id(id@)),
        decreases profiles@.len() - i,
    {
        proof {
            assert(profiles@.take(i + 1) =~= profiles@.take(i as int).push(profiles@[i as int]));
            profiles@.take(i as int).lemma_filter_push(profiles@[i as int], has_other_id(id@));
        }
        if profiles[i].id != target {
            out.push(profiles[i].clone());
        }
        i = i + 1;
    }
    assert(profiles@.take(profiles@.len() as int) =~= profiles@);
    out
}

/// The profiles once `profile` is saved: it replaces any profile with the same id, and
/// the result is in listing order. An invalid profile is refused.
pub fn profiles_with_saved(profiles: &Vec<ConnectionProfile>, profile: ConnectionProfile) -> (r:
    Result<Vec<ConnectionProfile>, ProfileStoreError>)
    ensures
        r is Err <==> profile_problem(profile@) is Some,
        r matches Err(e) ==> profile_problem(profile@) matches Some(v) && e
            == ProfileStoreError::InvalidProfile(v),
        r matches Ok(v) ==> v@.to_multiset() == profiles@.filter(has_other_id(profile.id@)).push(
            profile,
        ).to_multiset() && crate::sorting::sorted_by_key(v@),
        r matches Ok(v) ==> v@.contains(profile),
        r matches Ok(v) ==> forall|q: ConnectionProfile| #[trigger]
            v@.contains(q) && q.id@ == profile.id@ ==> q == profile,
        r matches Ok(v) ==> forall|q: ConnectionProfile| #[trigger]
            profiles@.contains(q) && q.id@ != profile.id@ ==> v@.contains(q),
{
    match profile.validate() {
        Err(e) => Err(ProfileStoreError::InvalidProfile(e)),
        Ok(()) => {
            let mut kept = retain_other_profiles(profiles, profile.id.as_str());
            let ghost pv = profile;
            let ghost filtered = kept@;
            kept.push(profile);
            let sorted = sort_profiles(kept);
            proof {
                let s = filtered.push(pv);
                let pred = has_other_id(pv.id@);
                assert(filtered == profiles@.filter(pred));
                s.to_multiset_ensures();
                sorted@.to_multiset_ensures();
                assert(s.contains(pv)) by {
                    assert(s[s.len() - 1] == pv);
                }
                assert(s.to_multiset().count(pv) > 0);
                assert(sorted@.to_multiset().count(pv) > 0);
                assert(sorted@.contains(pv));
                assert forall|q: ConnectionProfile| #[trigger]
                    sorted@.contains(q) && q.id@ == pv.id@ implies q == pv by {
                    assert(s.to_multiset().count(q) > 0);
                    assert(s.contains(q));
                    if q != pv {
                        let k = choose|k: int| 0 <= k < s.len() && s[k] == q;
                        assert(k < filtered.len());
                        assert(filtered[k] == q);
                        profiles@.lemma_filter_pred(pred, k);
                    }
                }
                assert forall|q: ConnectionProfile| #[trigger]
                    profiles@.contains(q) && q.id@ != pv.id@ implies sorted@.contains(q) by {
                    let j = choose|j: int| 0 <= j < profiles@.len() && profiles@[j] == q;
                    profiles@.lemma_filter_contains(pred, j);
                    assert(filtered.contains(q));
                    let k = choose|k: int| 0 <= k < filtered.len() && filtered[k] == q;
                    assert(s[k] == q);
                    assert(s.contains(q));
                    assert(s.to_multiset().count(q) > 0);
                }
            }
            Ok(sorted)
        },
    }
}

} // verus!

verus! {


/// A stored text given as an optional string: `None` stands for a store that does not
/// exist yet.
pub open spec fn stored_text(stored: Option<String>) -> Option<Seq<char>> {
    match stored {
        Some(s) => Some(s@),
        None => None,
    }
}

/// The profiles that a store holds; a store that does not exist yet holds none.
pub open spec fn stored_profiles(stored: Option<Seq<char>>) -> Result<
    Seq<ConnectionProfileView>,
    ProfileStoreError,
> {
    match stored {
        Some(c) => decode_profile_store_spec(c),
        None => Ok(Seq::empty()),
    }
}

/// `v` lists the profiles `ps`: the same profiles, ordered by label ignoring case, then id;
/// profiles with equal keys keep their stored order.
pub open spec fn is_profile_listing(v: Seq<ConnectionProfile>, ps: Seq<ConnectionProfileView>) -> bool {
    &&& crate::sorting::sorted_by_key(v)
    &&& exists|s: Seq<ConnectionProfile>|
        #![trigger s.to_multiset()]
        profile_views(s) == ps && s.to_multiset() == v.to_multiset() && forall|
            k: (Seq<char>, Seq<char>),
        | #[trigger] v.filter(crate::sorting::key_is(k)) == s.filter(crate::sorting::key_is(k))
}

/// The listing key of a stored profile: its label ignoring case, then its id.
pub open spec fn profile_view_key(p: ConnectionProfileView) -> (Seq<char>, Seq<char>) {
    (crate::text::lowercase(p.label), p.id)
}

/// No stored profile is followed by one with a smaller listing key.
pub open spec fn profile_views_sorted(s: Seq<ConnectionProfileView>) -> bool {
    forall|i: int, j: int|
        0 <= i < j < s.len() ==> !crate::sorting::key_lt(
            profile_view_key(#[trigger] s[j]),
            profile_view_key(#[trigger] s[i]),
        )
}

/// What a store holds after `p` was saved into one that held `before`: exactly the profiles
/// of `before` with another id, each as often as before, and `p` once, in listing order. So
/// `p` is there, it is the only profile with its id, every other profile that was there
/// stays, and nothing else appears.
pub open spec fn profile_saved(
    before: Seq<ConnectionProfileView>,
    p: ConnectionProfileView,
    after: Seq<ConnectionProfileView>,
) -> bool {
    &&& after.to_multiset() == before.filter(view_has_other_id(p.id)).push(p).to_multiset()
    &&& profile_views_sorted(after)
    &&& after.contains(p)
    &&& forall|q: ConnectionProfileView| #[trigger] after.contains(q) && q.id == p.id ==> q == p
    &&& forall|q: ConnectionProfileView| #[trigger] before.contains(q) && q.id != p.id ==> after.contains(q)
    &&& forall|q: ConnectionProfileView| #[trigger] after.contains(q) ==> q == p || before.contains(q)
}

pub open spec fn view_has_other_id(id: Seq<char>) -> spec_fn(ConnectionProfileView) -> bool {
    |p: ConnectionProfileView| p.id != id
}

/// Every profile that a store gives back is valid.
pub proof fn lemma_decoded_profiles_valid(ls: Seq<Seq<char>>)
    ensures
        decode_profile_lines(ls) matches Ok(ps) ==> forall|k: int|
            0 <= k < ps.len() ==> profile_problem(#[trigger] ps[k]) is None,
    decreases ls.len(),
{
    if ls.len() > 0 {
        lemma_decoded_profiles_valid(ls.drop_first());
        if !is_blank(ls[0]) {
            match decode_profile_spec(ls[0]) {
                Ok(p) => match decode_profile_lines(ls.drop_first()) {
                    Ok(rest) => {
                        let ps = seq![p] + rest;
                        assert forall|k: int| 0 <= k < ps.len() implies profile_problem(
                            #[trigger] ps[k],
                        ) is None by {
                            if k > 0 {
                                assert(ps[k] == rest[k - 1]);
                            }
                        }
                    },
                    Err(_) => {},
                },
                Err(_) => {},
            }
        }
    }
}

proof fn lemma_views_filter(s: Seq<ConnectionProfile>, id: Seq<char>)
    ensures
        profile_views(s.filter(has_other_id(id))) == profile_views(s).filter(view_has_other_id(id)),
    decreases s.len(),
{
    if s.len() > 0 {
        let init = s.drop_last();
        let x = s.last();
        lemma_views_filter(init, id);
        assert(s =~= init.push(x));
        init.lemma_filter_push(x, has_other_id(id));
        assert(profile_views(s) =~= profile_views(init).push(x@));
        profile_views(init).lemma_filter_push(x@, view_has_other_id(id));
        if x.id@ != id {
            assert(profile_views(init.filter(has_other_id(id)).push(x)) =~= profile_views(
                init.filter(has_other_id(id)),
            ).push(x@));
        }
    } else {
        assert(profile_views(s) =~= Seq::<ConnectionProfileView>::empty());
        assert(s.filter(has_other_id(id)) =~= Seq::<ConnectionProfile>::empty());
    }
}

fn read_stored_profiles(stored: Option<String>) -> (r: Result<Vec<ConnectionProfile>, ProfileStoreError>)
    ensures
        r is Err <==> stored_profiles(stored_text(stored)) is Err,
        r matches Err(e) ==> stored_profiles(stored_text(stored)) == Err::<
            Seq<ConnectionProfileView>,
            ProfileStoreError,
        >(e),
        r matches Ok(v) ==> stored_profiles(stored_text(stored)) == Ok::<
            Seq<ConnectionProfileView>,
            ProfileStoreError,
        >(profile_views(v@)),
        r matches Ok(v) ==> forall|k: int|
            0 <= k < v@.len() ==> profile_problem(#[trigger] v@[k]@) is None,
{
    match stored {
        None => {
            let v: Vec<ConnectionProfile> = Vec::new();
            assert(profile_views(v@) =~= Seq::<ConnectionProfileView>::empty());
            Ok(v)
        },
        Some(contents) => {
            let r = parse_profile_store(contents.as_str());
            proof {
                lemma_decoded_profiles_valid(crate::fields::lines_spec(contents@));
                if r is Ok {
                    let v = r->Ok_0;
                    assert forall|k: int| 0 <= k < v@.len() implies profile_problem(
                        #[trigger] v@[k]@,
                    ) is None by {
                        assert(profile_views(v@)[k] == v@[k]@);
                    }
                }
            }
            r
        },
    }
}

/// The profiles of a store in listing order, from what reading the store gave: its text,
/// `None` where the store does not exist yet, or the read error.
pub fn list_stored_profiles(stored: Result<Option<String>, std::io::Error>) -> (r: Result<
    Vec<ConnectionProfile>,
    ProfileStoreError,
>)
    ensures
        stored matches Err(e) ==> r == Err::<Vec<ConnectionProfile>, ProfileStoreError>(
            ProfileStoreError::Io(e),
        ),
        stored matches Ok(c) ==> (r is Err <==> stored_profiles(stored_text(c)) is Err),
        stored matches Ok(c) ==> (r matches Err(e) ==> stored_profiles(stored_text(c)) == Err::<
            Seq<ConnectionProfileView>,
            ProfileStoreError,
        >(e)),
        stored matches Ok(c) ==> (r matches Ok(v) ==> is_profile_listing(
            v@,
            stored_profiles(stored_text(c))->Ok_0,
        )),
{
    match stored {
        Err(e) => Err(ProfileStoreError::Io(e)),
        Ok(c) => match read_stored_profiles(c) {
            Err(e) => Err(e),
            Ok(v) => {
                let ghost parsed = v@;
                let sorted = sort_profiles(v);
                assert(profile_views(parsed) == stored_profiles(stored_text(c))->Ok_0);
                assert(parsed.to_multiset() == sorted@.to_multiset());
                Ok(sorted)
            },
        },
    }
}

/// The new text of a store once `profile` is saved into it, from what reading the store
/// gave. An invalid profile is refused before the store is looked at.
pub fn save_profile_to_store(
    stored: Result<Option<String>, std::io::Error>,
    profile: ConnectionProfile,
) -> (r: Result<String, ProfileStoreError>)
    ensures
        profile_problem(profile@) matches Some(e) ==> r == Err::<String, ProfileStoreError>(
            ProfileStoreError::InvalidProfile(e),
        ),
        profile_problem(profile@) is None ==> (stored matches Err(e) ==> r == Err::<
            String,
            ProfileStoreError,
        >(ProfileStoreError::Io(e))),
        profile_problem(profile@) is None ==> (stored matches Ok(c) ==> (r is Err <==> stored_profiles(
            stored_text(c),
        ) is Err)),
        profile_problem(profile@) is None ==> (stored matches Ok(c) ==> (r matches Err(e)
            ==> stored_profiles(stored_text(c)) == Err::<
            Seq<ConnectionProfileView>,
            ProfileStoreError,
        >(e))),
        r matches Ok(s) ==> (stored matches Ok(c) && profile_saved(
            stored_profiles(stored_text(c))->Ok_0,
            profile@,
            decode_profile_store_spec(s@)->Ok_0,
        ) && decode_profile_store_spec(s@) is Ok),
{
    match profile.validate() {
        Err(e) => {
            return Err(ProfileStoreError::InvalidProfile(e));
        },
        Ok(()) => {},
    }
    let c = match stored {
        Err(e) => {
            return Err(ProfileStoreError::Io(e));
        },
        Ok(c) => c,
    };
    let ghost text = stored_text(c);
    let profiles = match read_stored_profiles(c) {
        Err(e) => {
            return Err(e);
        },
        Ok(v) => v,
    };
    let ghost pv = profile@;
    let ghost pval = profile;
    let ghost before = profile_views(profiles@);
    let saved = match profiles_with_saved(&profiles, profile) {
        Err(e) => {
            return Err(e);
        },
        Ok(v) => v,
    };
    let out = render_profile_store(saved.as_slice());
    proof {
        let after = profile_views(saved@);
        let pred = has_other_id(pval.id@);
        let filtered = profiles@.filter(pred);
        let s = filtered.push(pval);
        s.to_multiset_ensures();
        saved@.to_multiset_ensures();
        assert forall|k: int| 0 <= k < saved@.len() implies profile_problem(
            #[trigger] saved@[k]@,
        ) is None && (saved@[k] == pval || profiles@.contains(saved@[k])) by {
            let q = saved@[k];
            assert(saved@.contains(q));
            assert(s.to_multiset().count(q) > 0);
            assert(s.contains(q));
            if q != pval {
                let j = choose|j: int| 0 <= j < s.len() && s[j] == q;
                assert(j < filtered.len());
                profiles@.lemma_filter_contains_rev(pred, q);
                let i = choose|i: int| 0 <= i < profiles@.len() && profiles@[i] == q;
                assert(profile_problem(profiles@[i]@) is None);
            }
        }
        assert forall|k: int| 0 <= k < after.len() implies profile_problem(#[trigger] after[k])
            is None by {
            assert(after[k] == saved@[k]@);
        }
        lemma_profile_store_round_trip(after);
        lemma_views_filter(profiles@, pv.id);
        crate::sorting::lemma_map_values_multiset(saved@, s, |x: ConnectionProfile| x@);
        assert(profile_views(saved@) =~= saved@.map_values(|x: ConnectionProfile| x@));
        assert(profile_views(s) =~= s.map_values(|x: ConnectionProfile| x@));
        assert(profile_views(s) =~= profile_views(filtered).push(pv));
        assert forall|i: int, j: int| 0 <= i < j < after.len() implies !crate::sorting::key_lt(
            profile_view_key(#[trigger] after[j]),
            profile_view_key(#[trigger] after[i]),
        ) by {
            assert(after[i] == saved@[i]@ && after[j] == saved@[j]@);
            assert(!crate::sorting::key_lt(
                crate::sorting::SortKey::sort_key(&saved@[j]),
                crate::sorting::SortKey::sort_key(&saved@[i]),
            ));
        }
        assert(after.contains(pv)) by {
            let k = choose|k: int| 0 <= k < saved@.len() && saved@[k] == pval;
            assert(after[k] == pv);
        }
        assert forall|q: ConnectionProfileView| #[trigger]
            after.contains(q) && q.id == pv.id implies q == pv by {
            let k = choose|k: int| 0 <= k < after.len() && after[k] == q;
            assert(saved@[k]@ == q);
            assert(saved@.contains(saved@[k]));
        }
        assert forall|q: ConnectionProfileView| #[trigger]
            before.contains(q) && q.id != pv.id implies after.contains(q) by {
            let k = choose|k: int| 0 <= k < before.len() && before[k] == q;
            assert(profiles@[k]@ == q);
            assert(profiles@.contains(profiles@[k]));
            assert(saved@.contains(profiles@[k]));
            let j = choose|j: int| 0 <= j < saved@.len() && saved@[j] == profiles@[k];
            assert(after[j] == q);
        }
        assert forall|q: ConnectionProfileView| #[trigger]
            after.contains(q) implies q == pv || before.contains(q) by {
            let k = choose|k: int| 0 <= k < after.len() && after[k] == q;
            assert(saved@[k]@ == q);
            if saved@[k] != pval {
                assert(profiles@.contains(saved@[k]));
                let i = choose|i: int| 0 <= i < profiles@.len() && profiles@[i] == saved@[k];
                assert(before[i] == q);
            }
        }
    }
    Ok(out)
}

/// The new text of a store once the profile with id `id` is removed from it, from what
/// reading the store gave; the other profiles keep their order.
pub fn remove_profile_from_store(stored: Result<Option<String>, std::io::Error>, id: &str) -> (r:
    Result<String, ProfileStoreError>)
    ensures
        stored matches Err(e) ==> r == Err::<String, ProfileStoreError>(ProfileStoreError::Io(e)),
        stored matches Ok(c) ==> (r is Err <==> stored_profiles(stored_text(c)) is Err),
        stored matches Ok(c) ==> (r matches Err(e) ==> stored_profiles(stored_text(c)) == Err::<
            Seq<ConnectionProfileView>,
            ProfileStoreError,
        >(e)),
        stored matches Ok(c) ==> (r matches Ok(s) ==> decode_profile_store_spec(s@) == Ok::<
            Seq<ConnectionProfileView>,
            ProfileStoreError,
        >(stored_profiles(stored_text(c))->Ok_0.filter(view_has_other_id(id@)))),
{
    let c = match stored {
        Err(e) => {
            return Err(ProfileStoreError::Io(e));
        },
        Ok(c) => c,
    };
    let profiles = match read_stored_profiles(c) {
        Err(e) => {
            return Err(e);
        },
        Ok(v) => v,
    };
    let kept = retain_other_profiles(&profiles, id);
    let out = render_profile_store(kept.as_slice());
    proof {
        let pred = has_other_id(id@);
        lemma_views_filter(profiles@, id@);
        let after = profile_views(kept@);
        assert forall|k: int| 0 <= k < after.len() implies profile_problem(#[trigger] after[k])
            is None by {
            profiles@.lemma_filter_contains_rev(pred, kept@[k]);
            assert(profiles@.filter(pred)[k] == kept@[k]);
            assert(profiles@.filter(pred).contains(kept@[k]));
            let i = choose|i: int| 0 <= i < profiles@.len() && profiles@[i] == kept@[k];
            assert(after[k] == kept@[k]@);
        }
        lemma_profile_store_round_trip(after);
    }
    Ok(out)
}


/// A profile validates exactly when its id, label, SSH user, SSH host and token are all
/// non-blank and both ports are non-zero; a profile that is complete up to a blank SSH host
/// is refused for the missing host.
pub proof fn lemma_profile_valid_iff_complete(p: ConnectionProfileView)
    ensures
        profile_problem(p) is None <==> (!is_blank(p.id) && !is_blank(p.label) && !is_blank(
            p.ssh_user,
        ) && !is_blank(p.ssh_host) && p.local_port != 0 && p.remote_port != 0 && !is_blank(
            p.auth_token,
        )),
        is_blank(p.id) ==> profile_problem(p) == Some(ProfileValidationError::MissingId),
        !is_blank(p.id) && is_blank(p.label) ==> profile_problem(p) == Some(
            ProfileValidationError::MissingLabel,
        ),
        !is_blank(p.id) && !is_blank(p.label) && is_blank(p.ssh_user) ==> profile_problem(p)
            == Some(ProfileValidationError::MissingSshUser),
        !is_blank(p.id) && !is_blank(p.label) && !is_blank(p.ssh_user) && is_blank(p.ssh_host)
            ==> profile_problem(p) == Some(ProfileValidationError::MissingSshHost),
        !is_blank(p.id) && !is_blank(p.label) && !is_blank(p.ssh_user) && !is_blank(p.ssh_host)
            && (p.local_port == 0 || p.remote_port == 0) ==> profile_problem(p) == Some(
            ProfileValidationError::InvalidSshPort,
        ),
        !is_blank(p.id) && !is_blank(p.label) && !is_blank(p.ssh_user) && !is_blank(p.ssh_host)
            && p.local_port != 0 && p.remote_port != 0 && is_blank(p.auth_token) ==> profile_problem(
            p,
        ) == Some(ProfileValidationError::MissingAuthToken),
{
}

} // verus!
