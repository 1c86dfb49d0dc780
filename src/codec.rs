use vstd::prelude::*;

verus! {

/// What separates the entries of a list kept in one text column.
pub open spec fn is_sep(c: char) -> bool {
    c == ';'
}

/// The entries of `s`, cut at every separator, empty ones included: a text
/// with k separators has k + 1 entries.
pub open spec fn split_spec(s: Seq<char>) -> Seq<Seq<char>>
    decreases s.len(),
{
    if s.len() == 0 {
        seq![Seq::empty()]
    } else {
        let r = split_spec(s.drop_last());
        if is_sep(s.last()) {
            r.push(Seq::empty())
        } else {
            r.update(r.len() - 1, r.last().push(s.last()))
        }
    }
}

/// The entries of `parts` with `sep` between each two.
pub open spec fn joined(parts: Seq<Seq<char>>, sep: Seq<char>) -> Seq<char>
    decreases parts.len(),
{
    if parts.len() == 0 {
        Seq::empty()
    } else if parts.len() == 1 {
        parts[0]
    } else {
        joined(parts.drop_last(), sep) + sep + parts.last()
    }
}

/// The entries of `parts` with a `;` between each two.
pub open spec fn join_spec(parts: Seq<Seq<char>>) -> Seq<char> {
    joined(parts, seq![';'])
}

/// The characters of each string of `v`.
pub open spec fn texts(v: Seq<String>) -> Seq<Seq<char>> {
    v.map_values(|p: String| p@)
}

/// Whether `s` holds no separator.
pub open spec fn has_no_sep(s: Seq<char>) -> bool {
    forall|i: int| 0 <= i < s.len() ==> !is_sep(#[trigger] s[i])
}

/// Every text has at least one entry.
pub proof fn lemma_split_nonempty(s: Seq<char>)
    ensures
        split_spec(s).len() >= 1,
    decreases s.len(),
{
    if s.len() > 0 {
        lemma_split_nonempty(s.drop_last());
    }
}

/// Text without a separator only lengthens the last entry.
proof fn lemma_split_append_plain(a: Seq<char>, b: Seq<char>)
    requires
        has_no_sep(b),
    ensures
        split_spec(a + b) == split_spec(a).update(
            split_spec(a).len() - 1,
            split_spec(a).last() + b,
        ),
    decreases b.len(),
{
    lemma_split_nonempty(a);
    if b.len() == 0 {
        assert(a + b =~= a);
        assert(split_spec(a).last() + b =~= split_spec(a).last());
        assert(split_spec(a).update(split_spec(a).len() - 1, split_spec(a).last())
            =~= split_spec(a));
    } else {
        let b0 = b.drop_last();
        assert(has_no_sep(b0)) by {
            assert forall|i: int| 0 <= i < b0.len() implies !is_sep(#[trigger] b0[i]) by {
                assert(b0[i] == b[i]);
            }
        }
        lemma_split_append_plain(a, b0);
        assert((a + b).drop_last() =~= a + b0);
        assert((a + b).last() == b.last());
        assert(!is_sep(b[b.len() - 1]));
        assert(split_spec(a).last() + b0 + seq![b.last()] =~= split_spec(a).last() + b);
        assert((split_spec(a).last() + b0).push(b.last()) =~= split_spec(a).last() + b);
        assert(split_spec(a + b) =~= split_spec(a).update(
            split_spec(a).len() - 1,
            split_spec(a).last() + b,
        ));
    }
}

/// Joining entries that hold no separator, then splitting the result, gives
/// the entries back, in their order.
pub proof fn lemma_split_join(parts: Seq<Seq<char>>)
    requires
        parts.len() >= 1,
        forall|i: int| 0 <= i < parts.len() ==> has_no_sep(#[trigger] parts[i]),
    ensures
        split_spec(join_spec(parts)) == parts,
    decreases parts.len(),
{
    if parts.len() == 1 {
        lemma_split_append_plain(Seq::empty(), parts[0]);
        assert(Seq::<char>::empty() + parts[0] =~= parts[0]);
        assert(split_spec(parts[0]) =~= parts);
    } else {
        let init = parts.drop_last();
        assert forall|i: int| 0 <= i < init.len() implies has_no_sep(#[trigger] init[i]) by {
            assert(init[i] == parts[i]);
        }
        lemma_split_join(init);
        let head = join_spec(init) + seq![';'];
        assert(join_spec(parts) == head + parts.last());
        assert(head.drop_last() =~= join_spec(init));
        assert(split_spec(head) == split_spec(join_spec(init)).push(Seq::empty()));
        assert(has_no_sep(parts[parts.len() - 1]));
        lemma_split_append_plain(head, parts.last());
        assert(Seq::<char>::empty() + parts.last() =~= parts.last());
        assert(split_spec(head + parts.last()) =~= parts);
    }
}

/// Cuts `s` at every separator; empty entries are kept.
pub fn split_entries(s: &str) -> (r: Vec<String>)
    ensures
        texts(r@) == split_spec(s@),
{
    let n = s.unicode_len();
    let mut pieces: Vec<String> = Vec::new();
    let mut start: usize = 0;
    let mut i: usize = 0;
    assert(s@.subrange(0, 0) =~= Seq::<char>::empty());
    assert(texts(pieces@) =~= Seq::<Seq<char>>::empty());
    assert(texts(pieces@) + seq![s@.subrange(0, 0)] =~= split_spec(s@.subrange(0, 0)));
    while i < n
        invariant
            n == s@.len(),
            start <= i <= n,
            texts(pieces@) + seq![s@.subrange(start as int, i as int)] == split_spec(
                s@.subrange(0, i as int),
            ),
        decreases n - i,
    {
        let c = s.get_char(i);
        let ghost before = texts(pieces@);
        let ghost cur = s@.subrange(start as int, i as int);
        let ghost r = split_spec(s@.subrange(0, i as int));
        assert(s@.subrange(0, i + 1).drop_last() =~= s@.subrange(0, i as int));
        assert(s@.subrange(0, i + 1).last() == c);
        assert(r == before + seq![cur]);
        if c == ';' {
            let piece = String::from_str(s.substring_char(start, i));
            pieces.push(piece);
            start = i + 1;
            assert(texts(pieces@) =~= before.push(cur));
            assert(split_spec(s@.subrange(0, i + 1)) == r.push(Seq::empty()));
            assert(s@.subrange(start as int, i + 1) =~= Seq::<char>::empty());
            assert(texts(pieces@) + seq![s@.subrange(start as int, i + 1)] =~= r.push(
                Seq::empty(),
            ));
        } else {
            assert(split_spec(s@.subrange(0, i + 1)) == r.update(r.len() - 1, r.last().push(c)));
            assert(s@.subrange(start as int, i + 1) =~= cur.push(c));
            assert(texts(pieces@) + seq![s@.subrange(start as int, i + 1)] =~= r.update(
                r.len() - 1,
                r.last().push(c),
            ));
        }
        i = i + 1;
    }
    assert(s@.subrange(0, n as int) =~= s@);
    let piece = String::from_str(s.substring_char(start, n));
    pieces.push(piece);
    assert(texts(pieces@) =~= texts(pieces@.drop_last()).push(piece@));
    pieces
}

/// Puts `sep` between each two entries of `parts`.
pub fn join_with(parts: &Vec<String>, sep: &str) -> (r: String)
    ensures
        r@ == joined(texts(parts@), sep@),
{
    if parts.len() == 0 {
        return String::new();
    }
    let mut out = String::from_str(parts[0].as_str());
    let mut i: usize = 1;
    assert(texts(parts@).subrange(0, 1) =~= seq![parts@[0]@]);
    while i < parts.len()
        invariant
            1 <= i <= parts.len(),
            out@ == joined(texts(parts@).subrange(0, i as int), sep@),
        decreases parts.len() - i,
    {
        out.append(sep);
        out.append(parts[i].as_str());
        proof {
            let sub = texts(parts@).subrange(0, i + 1);
            assert(sub.drop_last() =~= texts(parts@).subrange(0, i as int));
        }
        i = i + 1;
    }
    assert(texts(parts@).subrange(0, parts.len() as int) =~= texts(parts@));
    out
}

/// Puts a `;` between each two entries of `parts`.
pub fn join_entries(parts: &Vec<String>) -> (r: String)
    ensures
        r@ == join_spec(texts(parts@)),
{
    let r = join_with(parts, ";");
    proof {
        reveal_strlit(";");
        assert(";"@ =~= seq![';']);
    }
    r
}

} // verus!
