//! Splitting text into separated fields and lines, and joining fields back.

use vstd::prelude::*;

verus! {

/// The views of a sequence of character vectors.
pub open spec fn views(v: Seq<Vec<char>>) -> Seq<Seq<char>> {
    Seq::new(v.len(), |i: int| v[i]@)
}

/// Adds `p` in front of the first field.
pub open spec fn prepend_first(p: Seq<char>, fs: Seq<Seq<char>>) -> Seq<Seq<char>> {
    fs.update(0, p + fs[0])
}

/// `str::split(sep)`: the pieces between separators; always at least one piece.
pub open spec fn split_fields(s: Seq<char>, sep: char) -> Seq<Seq<char>>
    decreases s.len(),
{
    if s.len() == 0 {
        seq![Seq::<char>::empty()]
    } else if s[0] == sep {
        seq![Seq::<char>::empty()] + split_fields(s.drop_first(), sep)
    } else {
        prepend_first(seq![s[0]], split_fields(s.drop_first(), sep))
    }
}

/// `fields.join(sep)`.
pub open spec fn join_fields(fs: Seq<Seq<char>>, sep: char) -> Seq<char>
    decreases fs.len(),
{
    if fs.len() == 0 {
        Seq::empty()
    } else if fs.len() == 1 {
        fs[0]
    } else {
        fs[0] + seq![sep] + join_fields(fs.drop_first(), sep)
    }
}

pub open spec fn free_of(s: Seq<char>, c: char) -> bool {
    forall|i: int| 0 <= i < s.len() ==> #[trigger] s[i] != c
}

pub open spec fn all_free_of(fs: Seq<Seq<char>>, c: char) -> bool {
    forall|i: int| 0 <= i < fs.len() ==> free_of(#[trigger] fs[i], c)
}

pub proof fn lemma_split_nonempty(s: Seq<char>, sep: char)
    ensures
        split_fields(s, sep).len() >= 1,
    decreases s.len(),
{
    if s.len() > 0 {
        lemma_split_nonempty(s.drop_first(), sep);
    }
}

/// Splitting `a + t` where `a` holds no separator glues `a` to the first piece of `t`.
pub proof fn lemma_split_prefix(a: Seq<char>, t: Seq<char>, sep: char)
    requires
        free_of(a, sep),
    ensures
        split_fields(a + t, sep) == prepend_first(a, split_fields(t, sep)),
    decreases a.len(),
{
    lemma_split_nonempty(t, sep);
    if a.len() == 0 {
        assert(a + t =~= t);
        let fs = split_fields(t, sep);
        assert(prepend_first(a, fs) =~= fs) by {
            assert(a + fs[0] =~= fs[0]);
        }
    } else {
        let rest = a.drop_first();
        assert((a + t).drop_first() =~= rest + t);
        assert((a + t)[0] == a[0]);
        assert(free_of(rest, sep)) by {
            assert forall|i: int| 0 <= i < rest.len() implies #[trigger] rest[i] != sep by {
                assert(rest[i] == a[i + 1]);
            }
        }
        assert(a[0] != sep);
        lemma_split_prefix(rest, t, sep);
        let fs = split_fields(t, sep);
        assert(seq![a[0]] + (rest + fs[0]) =~= a + fs[0]);
        assert(prepend_first(seq![a[0]], prepend_first(rest, fs)) =~= prepend_first(a, fs));
    }
}

/// Splitting the joined fields gives the fields back, when no field holds the separator.
pub proof fn lemma_split_join(fs: Seq<Seq<char>>, sep: char)
    requires
        fs.len() >= 1,
        all_free_of(fs, sep),
    ensures
        split_fields(join_fields(fs, sep), sep) == fs,
    decreases fs.len(),
{
    if fs.len() == 1 {
        assert(free_of(fs[0], sep));
        lemma_split_prefix(fs[0], Seq::empty(), sep);
        assert(fs[0] + Seq::<char>::empty() =~= fs[0]);
        assert(prepend_first(fs[0], seq![Seq::<char>::empty()]) =~= fs) by {
            assert(fs[0] + Seq::<char>::empty() =~= fs[0]);
        }
    } else {
        let rest = fs.drop_first();
        assert(all_free_of(rest, sep)) by {
            assert forall|i: int| 0 <= i < rest.len() implies free_of(#[trigger] rest[i], sep) by {
                assert(rest[i] == fs[i + 1]);
            }
        }
        lemma_split_join(rest, sep);
        let t = seq![sep] + join_fields(rest, sep);
        assert(free_of(fs[0], sep));
        assert(fs[0] + seq![sep] + join_fields(rest, sep) =~= fs[0] + t);
        lemma_split_prefix(fs[0], t, sep);
        assert(t.drop_first() =~= join_fields(rest, sep));
        assert(split_fields(t, sep) =~= seq![Seq::<char>::empty()] + rest);
        assert(prepend_first(fs[0], seq![Seq::<char>::empty()] + rest) =~= fs) by {
            assert(fs[0] + Seq::<char>::empty() =~= fs[0]);
        }
    }
}

/// Joining one more field appends a separator and the field.
pub proof fn lemma_join_push(fs: Seq<Seq<char>>, x: Seq<char>, sep: char)
    requires
        fs.len() >= 1,
    ensures
        join_fields(fs.push(x), sep) == join_fields(fs, sep) + seq![sep] + x,
    decreases fs.len(),
{
    if fs.len() == 1 {
        assert(fs.push(x).drop_first() =~= seq![x]);
        assert(join_fields(seq![x], sep) == x);
    } else {
        assert(fs.push(x).drop_first() =~= fs.drop_first().push(x));
        lemma_join_push(fs.drop_first(), x, sep);
        assert(fs[0] + seq![sep] + (join_fields(fs.drop_first(), sep) + seq![sep] + x) =~= (fs[0]
            + seq![sep] + join_fields(fs.drop_first(), sep)) + seq![sep] + x);
    }
}

/// Splits characters on `sep`, as `str::split` does.
pub fn split_chars(s: &[char], sep: char) -> (r: Vec<Vec<char>>)
    ensures
        views(r@) == split_fields(s@, sep),
{
    let mut done: Vec<Vec<char>> = Vec::new();
    let mut cur: Vec<char> = Vec::new();
    let mut i: usize = 0;
    proof {
        lemma_split_nonempty(s@, sep);
        assert(s@.subrange(0, s@.len() as int) =~= s@);
        let fs = split_fields(s@, sep);
        assert(prepend_first(Seq::empty(), fs) =~= fs) by {
            assert(Seq::<char>::empty() + fs[0] =~= fs[0]);
        }
        assert(views(done@) + fs =~= fs);
    }
    while i < s.len()
        invariant
            i <= s@.len(),
            split_fields(s@, sep) == views(done@) + prepend_first(
                cur@,
                split_fields(s@.subrange(i as int, s@.len() as int), sep),
            ),
        decreases s@.len() - i,
    {
        let c = s[i];
        let ghost t = s@.subrange(i as int, s@.len() as int);
        let ghost t1 = s@.subrange(i + 1, s@.len() as int);
        proof {
            assert(t.drop_first() =~= t1);
            assert(t[0] == c);
            lemma_split_nonempty(t1, sep);
        }
        if c == sep {
            proof {
                let rest = split_fields(t1, sep);
                assert(prepend_first(cur@, seq![Seq::<char>::empty()] + rest) =~= seq![cur@]
                    + rest) by {
                    assert(cur@ + Seq::<char>::empty() =~= cur@);
                }
                assert(prepend_first(Seq::empty(), rest) =~= rest) by {
                    assert(Seq::<char>::empty() + rest[0] =~= rest[0]);
                }
            }
            let finished = cur;
            let ghost fv = finished@;
            done.push(finished);
            cur = Vec::new();
            proof {
                assert(views(done@) =~= views(done@.drop_last()).push(fv));
                assert(views(done@) + split_fields(t1, sep) =~= views(done@.drop_last()) + (
                seq![fv] + split_fields(t1, sep)));
            }
        } else {
            proof {
                let rest = split_fields(t1, sep);
                assert(prepend_first(cur@, prepend_first(seq![c], rest)) =~= prepend_first(
                    cur@.push(c),
                    rest,
                )) by {
                    assert(cur@ + (seq![c] + rest[0]) =~= cur@.push(c) + rest[0]);
                }
            }
            cur.push(c);
        }
        i = i + 1;
    }
    proof {
        assert(s@.subrange(s@.len() as int, s@.len() as int) =~= Seq::<char>::empty());
        assert(prepend_first(cur@, seq![Seq::<char>::empty()]) =~= seq![cur@]) by {
            assert(cur@ + Seq::<char>::empty() =~= cur@);
        }
    }
    let ghost cv = cur@;
    done.push(cur);
    assert(views(done@) =~= views(done@.drop_last()).push(cv));
    assert(views(done@) =~= views(done@.drop_last()) + seq![cv]);
    done
}

} // verus!

verus! {

/// Removes one trailing carriage return.
pub open spec fn strip_cr(l: Seq<char>) -> Seq<char> {
    if l.len() > 0 && l.last() == '\r' {
        l.drop_last()
    } else {
        l
    }
}

/// `str::lines`: pieces ended by `\n` (with a `\r` before it dropped), and a last
/// unterminated piece when it is not empty.
pub open spec fn lines_spec(s: Seq<char>) -> Seq<Seq<char>> {
    let f = split_fields(s, '\n');
    let terminated = f.drop_last().map_values(|l: Seq<char>| strip_cr(l));
    if f.last().len() == 0 {
        terminated
    } else {
        terminated.push(f.last())
    }
}

/// Splits text into lines, as `str::lines` does.
pub fn lines_of(s: &[char]) -> (r: Vec<Vec<char>>)
    ensures
        views(r@) == lines_spec(s@),
{
    let pieces = split_chars(s, '\n');
    proof {
        lemma_split_nonempty(s@, '\n');
    }
    let n = pieces.len();
    let mut out: Vec<Vec<char>> = Vec::new();
    let mut i: usize = 0;
    let ghost f = split_fields(s@, '\n');
    while i + 1 < n
        invariant
            n == pieces@.len(),
            n >= 1,
            views(pieces@) == f,
            i + 1 <= n,
            views(out@) == f.drop_last().take(i as int).map_values(|l: Seq<char>| strip_cr(l)),
        decreases n - i,
    {
        let p = &pieces[i];
        let mut line: Vec<char> = p.clone();
        assert(line@ == f[i as int]) by {
            assert(views(pieces@)[i as int] == pieces@[i as int]@);
        }
        if line.len() > 0 && line[line.len() - 1] == '\r' {
            line.pop();
        }
        let ghost lv = line@;
        assert(lv =~= strip_cr(f[i as int]));
        let ghost prev = views(out@);
        out.push(line);
        proof {
            assert(views(out@) =~= prev.push(lv));
            let target = f.drop_last().take(i + 1).map_values(|l: Seq<char>| strip_cr(l));
            assert forall|j: int| 0 <= j < i + 1 implies #[trigger] target[j] == prev.push(lv)[j] by {
                if j < i {
                    assert(prev[j] == strip_cr(f.drop_last().take(i as int)[j]));
                }
            }
            assert(views(out@) =~= target);
        }
        i = i + 1;
    }
    assert(f.drop_last().take(i as int) =~= f.drop_last());
    let last = &pieces[n - 1];
    assert(last@ == f.last()) by {
        assert(views(pieces@)[n - 1] == pieces@[n - 1]@);
    }
    if last.len() > 0 {
        let l = last.clone();
        let ghost lv = l@;
        out.push(l);
        assert(views(out@) =~= views(out@.drop_last()).push(lv));
    }
    out
}

} // verus!

verus! {

/// Joins character fields with `sep`, as `join` does.
pub fn join_chars(fs: &Vec<Vec<char>>, sep: char) -> (r: Vec<char>)
    ensures
        r@ == join_fields(views(fs@), sep),
{
    let mut out: Vec<char> = Vec::new();
    if fs.len() == 0 {
        assert(views(fs@) =~= Seq::<Seq<char>>::empty());
        return out;
    }
    crate::text::extend_chars(&mut out, fs[0].as_slice());
    let mut i: usize = 1;
    proof {
        assert(views(fs@).take(1) =~= seq![fs@[0]@]);
        assert(out@ =~= fs@[0]@);
    }
    while i < fs.len()
        invariant
            1 <= i <= fs@.len(),
            out@ == join_fields(views(fs@).take(i as int), sep),
        decreases fs@.len() - i,
    {
        proof {
            lemma_join_push(views(fs@).take(i as int), fs@[i as int]@, sep);
            assert(views(fs@).take(i + 1) =~= views(fs@).take(i as int).push(fs@[i as int]@));
        }
        out.push(sep);
        crate::text::extend_chars(&mut out, fs[i].as_slice());
        i = i + 1;
    }
    assert(views(fs@).take(fs@.len() as int) =~= views(fs@));
    out
}

} // verus!

verus! {

/// Joining fields free of `c` with a separator other than `c` gives text free of `c`.
pub proof fn lemma_join_free(fs: Seq<Seq<char>>, sep: char, c: char)
    requires
        all_free_of(fs, c),
        sep != c,
    ensures
        free_of(join_fields(fs, sep), c),
    decreases fs.len(),
{
    if fs.len() > 1 {
        let rest = fs.drop_first();
        assert(all_free_of(rest, c)) by {
            assert forall|k: int| 0 <= k < rest.len() implies free_of(
                #[trigger] rest[k],
                c,
            ) by {
                assert(rest[k] == fs[k + 1]);
            }
        }
        lemma_join_free(rest, sep, c);
        let j = join_fields(fs, sep);
        let a = fs[0];
        let t = join_fields(rest, sep);
        assert(j == a + seq![sep] + t);
        assert(free_of(a, c));
        assert forall|i: int| 0 <= i < j.len() implies #[trigger] j[i] != c by {
            if i < a.len() {
                assert(j[i] == a[i]);
            } else if i == a.len() {
                assert(j[i] == sep);
            } else {
                assert(j[i] == t[i - a.len() - 1]);
            }
        }
    } else if fs.len() == 1 {
        assert(free_of(fs[0], c));
    }
}

/// The joined text ends like its last field, when that field is not empty.
pub proof fn lemma_join_last(fs: Seq<Seq<char>>, sep: char)
    requires
        fs.len() >= 1,
        fs.last().len() > 0,
    ensures
        join_fields(fs, sep).len() > 0,
        join_fields(fs, sep).last() == fs.last().last(),
    decreases fs.len(),
{
    if fs.len() > 1 {
        assert(fs.drop_first().last() == fs.last());
        lemma_join_last(fs.drop_first(), sep);
    }
}

/// Lines joined by `\n`, each ended by `\n`, read back as the same lines.
pub proof fn lemma_lines_joined(ls: Seq<Seq<char>>)
    requires
        ls.len() >= 1,
        forall|k: int|
            0 <= k < ls.len() ==> free_of(#[trigger] ls[k], '\n') && ls[k].len()
                > 0 && ls[k].last() != '\r',
    ensures
        lines_spec(join_fields(ls, '\n').push('\n')) == ls,
{
    let e = Seq::<char>::empty();
    lemma_join_push(ls, e, '\n');
    assert(join_fields(ls, '\n').push('\n') =~= join_fields(ls, '\n') + seq!['\n'] + e);
    let l2 = ls.push(e);
    assert(all_free_of(l2, '\n')) by {
        assert forall|k: int| 0 <= k < l2.len() implies free_of(
            #[trigger] l2[k],
            '\n',
        ) by {
            if k < ls.len() {
                assert(l2[k] == ls[k]);
            }
        }
    }
    lemma_split_join(l2, '\n');
    let f = split_fields(join_fields(ls, '\n').push('\n'), '\n');
    assert(f == l2);
    assert(f.drop_last() =~= ls);
    assert(f.drop_last().map_values(|l: Seq<char>| strip_cr(l)) =~= ls);
}

} // verus!

verus! {

/// `fields.join(sep)` for a separator of several characters.
pub open spec fn join_fields_with(fs: Seq<Seq<char>>, sep: Seq<char>) -> Seq<char>
    decreases fs.len(),
{
    if fs.len() == 0 {
        Seq::empty()
    } else if fs.len() == 1 {
        fs[0]
    } else {
        join_fields_with(fs.drop_last(), sep) + sep + fs.last()
    }
}

/// Joins character fields with the text `sep`.
pub fn join_chars_with(fs: &Vec<Vec<char>>, sep: &str) -> (r: Vec<char>)
    ensures
        r@ == join_fields_with(views(fs@), sep@),
{
    let mut out: Vec<char> = Vec::new();
    if fs.len() == 0 {
        assert(views(fs@) =~= Seq::<Seq<char>>::empty());
        return out;
    }
    let sep_chars = crate::text::chars_of(sep);
    crate::text::extend_chars(&mut out, fs[0].as_slice());
    let mut i: usize = 1;
    proof {
        assert(views(fs@).take(1) =~= seq![fs@[0]@]);
        assert(out@ =~= fs@[0]@);
    }
    while i < fs.len()
        invariant
            1 <= i <= fs@.len(),
            sep_chars@ == sep@,
            out@ == join_fields_with(views(fs@).take(i as int), sep@),
        decreases fs@.len() - i,
    {
        proof {
            let next = views(fs@).take(i + 1);
            assert(next.drop_last() =~= views(fs@).take(i as int));
            assert(next.last() == fs@[i as int]@);
        }
        crate::text::extend_chars(&mut out, sep_chars.as_slice());
        crate::text::extend_chars(&mut out, fs[i].as_slice());
        i = i + 1;
    }
    assert(views(fs@).take(fs@.len() as int) =~= views(fs@));
    out
}

} // verus!
