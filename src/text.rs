//! Label handling for DNS names held as text.
use vstd::prelude::*;

verus! {

/// The text of each string.
pub open spec fn texts(v: Seq<String>) -> Seq<Seq<char>> {
    v.map_values(|s: String| s@)
}

/// `s` cut at every `.`; the empty text gives one empty label.
pub open spec fn split_dots(s: Seq<char>) -> Seq<Seq<char>>
    decreases s.len(),
{
    if s.len() == 0 {
        seq![Seq::<char>::empty()]
    } else {
        let p = split_dots(s.drop_last());
        if s.last() == '.' {
            p.push(Seq::<char>::empty())
        } else {
            p.update(p.len() - 1, p.last().push(s.last()))
        }
    }
}

/// The labels of a name: none for the empty name, else its pieces between dots.
pub open spec fn name_labels(s: Seq<char>) -> Seq<Seq<char>> {
    if s.len() == 0 {
        Seq::empty()
    } else {
        split_dots(s)
    }
}

/// Labels joined with `.` between them.
pub open spec fn join_dots(p: Seq<Seq<char>>) -> Seq<char>
    decreases p.len(),
{
    if p.len() == 0 {
        Seq::empty()
    } else if p.len() == 1 {
        p[0]
    } else {
        join_dots(p.drop_last()) + seq!['.'] + p.last()
    }
}

/// `s` without its backslashes.
pub open spec fn drop_backslashes(s: Seq<char>) -> Seq<char>
    decreases s.len(),
{
    if s.len() == 0 {
        Seq::empty()
    } else if s.last() == '\\' {
        drop_backslashes(s.drop_last())
    } else {
        drop_backslashes(s.drop_last()).push(s.last())
    }
}

/// `s` without one leading underscore.
pub open spec fn drop_leading_underscore(s: Seq<char>) -> Seq<char> {
    if s.len() > 0 && s[0] == '_' {
        s.drop_first()
    } else {
        s
    }
}

pub proof fn lemma_split_dots_nonempty(s: Seq<char>)
    ensures
        split_dots(s).len() >= 1,
    decreases s.len(),
{
    if s.len() > 0 {
        lemma_split_dots_nonempty(s.drop_last());
    }
}

/// Splits a name into its labels.
pub fn split_labels(s: &str) -> (r: Vec<String>)
    ensures
        texts(r@) == name_labels(s@),
{
    let n = s.unicode_len();
    let mut out: Vec<String> = Vec::new();
    if n == 0 {
        assert(texts(out@) =~= name_labels(s@));
        return out;
    }
    let mut start: usize = 0;
    let mut i: usize = 0;
    assert(s@.subrange(0, 0) =~= Seq::<char>::empty());
    assert(texts(out@).push(s@.subrange(0, 0)) =~= split_dots(s@.subrange(0, 0)));
    while i < n
        invariant
            n == s@.len(),
            start <= i <= n,
            texts(out@).push(s@.subrange(start as int, i as int)) == split_dots(
                s@.subrange(0, i as int),
            ),
        decreases n - i,
    {
        let c = s.get_char(i);
        let ghost pre = s@.subrange(0, i as int);
        let ghost cur = s@.subrange(0, i as int + 1);
        assert(cur.drop_last() =~= pre);
        assert(cur.last() == c);
        proof {
            lemma_split_dots_nonempty(pre);
        }
        if c == '.' {
            let piece = s.substring_char(start, i).to_owned();
            out.push(piece);
            start = i + 1;
            assert(s@.subrange(start as int, i as int + 1) =~= Seq::<char>::empty());
            assert(texts(out@).push(s@.subrange(start as int, i as int + 1)) =~= split_dots(cur));
        } else {
            assert(s@.subrange(start as int, i as int + 1) =~= s@.subrange(
                start as int,
                i as int,
            ).push(c));
            assert(texts(out@).push(s@.subrange(start as int, i as int + 1)) =~= split_dots(cur));
        }
        i = i + 1;
    }
    let last = s.substring_char(start, n).to_owned();
    out.push(last);
    assert(s@.subrange(0, n as int) =~= s@);
    assert(texts(out@) =~= name_labels(s@));
    out
}

/// Whether `s` reads exactly `w`.
pub fn text_is(s: &String, w: &str) -> (r: bool)
    ensures
        r == (s@ == w@),
{
    let t = w.to_owned();
    *s == t
}

/// The labels `p[from..to]` joined with dots.
pub fn join_labels(p: &Vec<String>, from: usize, to: usize) -> (r: String)
    requires
        from <= to <= p@.len(),
    ensures
        r@ == join_dots(texts(p@).subrange(from as int, to as int)),
{
    let mut out = String::new();
    let mut i: usize = from;
    assert(texts(p@).subrange(from as int, from as int) =~= Seq::<Seq<char>>::empty());
    while i < to
        invariant
            from <= i <= to <= p@.len(),
            out@ == join_dots(texts(p@).subrange(from as int, i as int)),
        decreases to - i,
    {
        let ghost before = texts(p@).subrange(from as int, i as int);
        let ghost after = texts(p@).subrange(from as int, i as int + 1);
        assert(after.drop_last() =~= before);
        if i > from {
            proof {
                reveal_strlit(".");
            }
            out.append(".");
            out.append(p[i].as_str());
            assert(after.last() == p@[i as int]@);
            assert(out@ =~= join_dots(after));
        } else {
            assert(out@ =~= Seq::<char>::empty());
            out.append(p[i].as_str());
            assert(after.len() == 1 && after[0] == p@[i as int]@);
            assert(out@ =~= join_dots(after));
        }
        i = i + 1;
    }
    out
}

/// `s` without its backslashes.
pub fn remove_backslashes(s: &str) -> (r: String)
    ensures
        r@ == drop_backslashes(s@),
{
    let n = s.unicode_len();
    let mut out = String::new();
    let mut i: usize = 0;
    assert(s@.subrange(0, 0) =~= Seq::<char>::empty());
    while i < n
        invariant
            n == s@.len(),
            i <= n,
            out@ == drop_backslashes(s@.subrange(0, i as int)),
        decreases n - i,
    {
        let ghost cur = s@.subrange(0, i as int + 1);
        assert(cur.drop_last() =~= s@.subrange(0, i as int));
        if s.get_char(i) != '\\' {
            out.append(s.substring_char(i, i + 1));
            assert(out@ =~= drop_backslashes(cur));
        }
        i = i + 1;
    }
    assert(s@.subrange(0, n as int) =~= s@);
    out
}

/// `s` without one leading underscore.
pub fn remove_leading_underscore(s: &str) -> (r: String)
    ensures
        r@ == drop_leading_underscore(s@),
{
    let n = s.unicode_len();
    if n > 0 && s.get_char(0) == '_' {
        let rest = s.substring_char(1, n).to_owned();
        assert(rest@ =~= s@.drop_first());
        rest
    } else {
        s.to_owned()
    }
}

/// Whether `s` begins with an underscore.
pub fn starts_with_underscore(s: &str) -> (r: bool)
    ensures
        r == (s@.len() > 0 && s@[0] == '_'),
{
    s.unicode_len() > 0 && s.get_char(0) == '_'
}

/// A copy of a list of strings.
pub fn clone_strings(v: &Vec<String>) -> (r: Vec<String>)
    ensures
        r@ == v@,
{
    let mut out: Vec<String> = Vec::new();
    let mut i: usize = 0;
    while i < v.len()
        invariant
            i <= v@.len(),
            out@ == v@.subrange(0, i as int),
        decreases v@.len() - i,
    {
        out.push(v[i].clone());
        assert(out@ =~= v@.subrange(0, i as int + 1));
        i = i + 1;
    }
    assert(v@.subrange(0, v@.len() as int) =~= v@);
    out
}

/// Whether one of the strings reads `t`.
pub fn contains_text(v: &Vec<String>, t: &String) -> (r: bool)
    ensures
        r == texts(v@).contains(t@),
{
    let mut i: usize = 0;
    while i < v.len()
        invariant
            i <= v@.len(),
            forall|j: int| 0 <= j < i ==> v@[j]@ != t@,
        decreases v@.len() - i,
    {
        if v[i] == *t {
            assert(texts(v@)[i as int] == t@);
            return true;
        }
        i = i + 1;
    }
    assert(!texts(v@).contains(t@)) by {
        if texts(v@).contains(t@) {
            let j = choose|j: int| 0 <= j < texts(v@).len() && texts(v@)[j] == t@;
            assert(v@[j]@ == t@);
        }
    }
    false
}

} // verus!
