//! Texts as sequences of characters: their order, how they are cut at a
//! separator, and how paths are put together and taken apart.
use vstd::prelude::*;
use vstd::std_specs::iter::IteratorSpec;

verus! {

broadcast use vstd::string::group_string_axioms;

/// `a` comes strictly before `b` in the lexicographic order of their
/// characters, a character counting by its code point. A proper prefix comes
/// before the text it is a prefix of.
pub open spec fn text_lt(a: Seq<char>, b: Seq<char>) -> bool
    decreases a.len(),
{
    if b.len() == 0 {
        false
    } else if a.len() == 0 {
        true
    } else if a[0] != b[0] {
        (a[0] as int) < (b[0] as int)
    } else {
        text_lt(a.drop_first(), b.drop_first())
    }
}

/// `a` comes before `b` or equals it.
pub open spec fn text_le(a: Seq<char>, b: Seq<char>) -> bool {
    !text_lt(b, a)
}

/// No text comes before itself.
pub proof fn lemma_text_lt_irreflexive(a: Seq<char>)
    ensures
        !text_lt(a, a),
    decreases a.len(),
{
    if a.len() > 0 {
        lemma_text_lt_irreflexive(a.drop_first());
    }
}

/// Of two texts at most one comes before the other.
pub proof fn lemma_text_lt_asymmetric(a: Seq<char>, b: Seq<char>)
    ensures
        !(text_lt(a, b) && text_lt(b, a)),
    decreases a.len(),
{
    if a.len() > 0 && b.len() > 0 && a[0] == b[0] {
        lemma_text_lt_asymmetric(a.drop_first(), b.drop_first());
    }
}

/// Two texts of which neither comes before the other are the same text.
pub proof fn lemma_text_lt_connected(a: Seq<char>, b: Seq<char>)
    requires
        !text_lt(a, b),
        !text_lt(b, a),
    ensures
        a == b,
    decreases a.len(),
{
    if a.len() == 0 || b.len() == 0 {
        assert(a =~= b);
    } else {
        lemma_text_lt_connected(a.drop_first(), b.drop_first());
        assert(a =~= seq![a[0]] + a.drop_first());
        assert(b =~= seq![b[0]] + b.drop_first());
    }
}

/// The strict order is transitive.
pub proof fn lemma_text_lt_transitive(a: Seq<char>, b: Seq<char>, c: Seq<char>)
    requires
        text_lt(a, b),
        text_lt(b, c),
    ensures
        text_lt(a, c),
    decreases a.len(),
{
    if a.len() > 0 && a[0] == b[0] && b[0] == c[0] {
        lemma_text_lt_transitive(a.drop_first(), b.drop_first(), c.drop_first());
    }
}

/// The order `text_le` is transitive.
pub proof fn lemma_text_le_transitive(a: Seq<char>, b: Seq<char>, c: Seq<char>)
    requires
        text_le(a, b),
        text_le(b, c),
    ensures
        text_le(a, c),
{
    if text_lt(c, a) {
        if text_lt(a, b) {
            lemma_text_lt_transitive(c, a, b);
        } else {
            lemma_text_lt_connected(a, b);
        }
    }
}

/// Of two texts one comes before the other or equals it.
pub proof fn lemma_text_le_total(a: Seq<char>, b: Seq<char>)
    ensures
        text_le(a, b) || text_le(b, a),
{
    lemma_text_lt_asymmetric(a, b);
}

/// Whether `a` comes strictly before `b`.
pub fn str_lt(a: &str, b: &str) -> (r: bool)
    ensures
        r == text_lt(a@, b@),
{
    let mut left = a.chars();
    let mut right = b.chars();
    loop
        invariant
            text_lt(a@, b@) == text_lt(left.remaining(), right.remaining()),
            left.decrease() is Some,
        decreases left.decrease()->0,
    {
        let x = left.next();
        let y = right.next();
        match y {
            None => {
                return false;
            },
            Some(cy) => match x {
                None => {
                    return true;
                },
                Some(cx) => {
                    if cx != cy {
                        return cx < cy;
                    }
                },
            },
        }
    }
}

/// The characters of `s`, in order.
pub fn chars_of(s: &str) -> (v: Vec<char>)
    ensures
        v@ == s@,
{
    let mut v: Vec<char> = Vec::new();
    let mut rest = s.chars();
    loop
        invariant
            v@ + rest.remaining() == s@,
            rest.decrease() is Some,
        ensures
            v@ == s@,
        decreases rest.decrease()->0,
    {
        match rest.next() {
            Some(c) => {
                v.push(c);
            },
            None => {
                assert(v@ =~= s@);
                break;
            },
        }
    }
    v
}

/// Whether two strings hold the same text.
pub fn str_eq(a: &str, b: &str) -> (r: bool)
    ensures
        r == (a@ == b@),
{
    let x = a.to_owned();
    let y = b.to_owned();
    x == y
}

/// Position of the last `c` in `s`, or -1 where `s` holds none.
pub open spec fn last_index(s: Seq<char>, c: char) -> int
    decreases s.len(),
{
    if s.len() == 0 {
        -1
    } else if s.last() == c {
        s.len() - 1
    } else {
        last_index(s.drop_last(), c)
    }
}

/// `last_index` is a position of `c` after which no `c` follows, and -1 only
/// where `s` holds no `c` at all.
pub proof fn lemma_last_index(s: Seq<char>, c: char)
    ensures
        -1 <= last_index(s, c) < s.len(),
        last_index(s, c) >= 0 ==> s[last_index(s, c)] == c,
        forall|j: int| last_index(s, c) < j < s.len() ==> s[j] != c,
    decreases s.len(),
{
    if s.len() > 0 && s.last() != c {
        lemma_last_index(s.drop_last(), c);
        assert forall|j: int| last_index(s, c) < j < s.len() implies s[j] != c by {
            if j < s.len() - 1 {
                assert(s.drop_last()[j] == s[j]);
            }
        }
    }
}

/// Position of the last `c` among the characters of `v`.
pub fn find_last(v: &Vec<char>, c: char) -> (r: Option<usize>)
    ensures
        match r {
            Some(i) => last_index(v@, c) == i,
            None => last_index(v@, c) == -1,
        },
{
    let mut i: usize = v.len();
    assert(v@.take(i as int) =~= v@);
    while i > 0
        invariant
            i <= v.len(),
            last_index(v@, c) == last_index(v@.take(i as int), c),
        decreases i,
    {
        if v[i - 1] == c {
            return Some(i - 1);
        }
        assert(v@.take(i as int).drop_last() =~= v@.take(i - 1));
        i = i - 1;
    }
    None
}

/// The pieces that `sep` cuts `s` into, in order: one more than `s` holds
/// separators, so a text without separator is its own single piece and an
/// empty piece stands wherever two separators meet or one ends the text.
pub open spec fn split_text(s: Seq<char>, sep: char) -> Seq<Seq<char>>
    decreases s.len(),
{
    if s.len() == 0 {
        seq![Seq::empty()]
    } else {
        let before = split_text(s.drop_last(), sep);
        if s.last() == sep {
            before.push(Seq::empty())
        } else {
            before.drop_last().push(before.last().push(s.last()))
        }
    }
}

/// The pieces put together again, `sep` between each two.
pub open spec fn join_text(pieces: Seq<Seq<char>>, sep: char) -> Seq<char>
    decreases pieces.len(),
{
    if pieces.len() == 0 {
        Seq::empty()
    } else if pieces.len() == 1 {
        pieces[0]
    } else {
        join_text(pieces.drop_last(), sep).push(sep) + pieces.last()
    }
}

/// Cutting a text yields at least one piece, no piece holds the separator,
/// and the pieces joined by the separator are the text again.
pub proof fn lemma_split_text(s: Seq<char>, sep: char)
    ensures
        split_text(s, sep).len() >= 1,
        forall|i: int| 0 <= i < split_text(s, sep).len() ==> !split_text(s, sep)[i].contains(sep),
        join_text(split_text(s, sep), sep) == s,
    decreases s.len(),
{
    let pieces = split_text(s, sep);
    if s.len() == 0 {
        assert(pieces[0] =~= Seq::<char>::empty());
    } else {
        let before = split_text(s.drop_last(), sep);
        lemma_split_text(s.drop_last(), sep);
        if s.last() == sep {
            assert(pieces.drop_last() =~= before);
            assert(join_text(pieces, sep) =~= s);
        } else {
            let grown = before.last().push(s.last());
            assert forall|i: int| 0 <= i < pieces.len() implies !pieces[i].contains(sep) by {
                if i == pieces.len() - 1 {
                    assert(pieces[i] == grown);
                    if grown.contains(sep) {
                        let k = choose|k: int| 0 <= k < grown.len() && grown[k] == sep;
                        assert(before.last()[k] == sep);
                    }
                } else {
                    assert(pieces[i] == before[i]);
                }
            }
            if before.len() == 1 {
                assert(join_text(pieces, sep) =~= s);
            } else {
                assert(pieces.drop_last() =~= before.drop_last());
                let head = join_text(before.drop_last(), sep).push(sep);
                assert(join_text(before, sep) == head + before.last());
                assert(join_text(pieces, sep) == head + grown);
                assert(head + grown =~= (head + before.last()).push(s.last()));
                assert(s.drop_last().push(s.last()) =~= s);
            }
        }
    }
}

/// The pieces that `sep` cuts `s` into.
pub fn split_str(s: &str, sep: char) -> (r: Vec<String>)
    ensures
        r.deep_view() == split_text(s@, sep),
{
    let chars = chars_of(s);
    let mut pieces: Vec<String> = Vec::new();
    let mut start: usize = 0;
    let mut i: usize = 0;
    proof {
        assert(s@.take(0) =~= Seq::<char>::empty());
        assert(pieces.deep_view().push(s@.subrange(0, 0)) =~= seq![Seq::<char>::empty()]);
    }
    while i < chars.len()
        invariant
            chars@ == s@,
            start <= i <= chars.len(),
            pieces.deep_view().push(s@.subrange(start as int, i as int)) == split_text(
                s@.take(i as int),
                sep,
            ),
        decreases chars.len() - i,
    {
        let ghost before = pieces.deep_view();
        let ghost piece = s@.subrange(start as int, i as int);
        proof {
            assert(s@.take(i + 1).drop_last() =~= s@.take(i as int));
            assert(before.push(piece).drop_last() =~= before);
        }
        if chars[i] == sep {
            pieces.push(s.substring_char(start, i).to_owned());
            start = i + 1;
            proof {
                assert(pieces.deep_view() =~= before.push(piece));
                assert(s@.subrange(start as int, i + 1) =~= Seq::<char>::empty());
            }
        } else {
            proof {
                assert(piece.push(s@[i as int]) =~= s@.subrange(start as int, i + 1));
            }
        }
        i = i + 1;
    }
    assert(s@.take(i as int) =~= s@);
    let ghost before = pieces.deep_view();
    pieces.push(s.substring_char(start, i).to_owned());
    assert(pieces.deep_view() =~= before.push(s@.subrange(start as int, i as int)));
    pieces
}

/// The last component of a path: what follows its last `/`.
pub open spec fn base_name(path: Seq<char>) -> Seq<char> {
    path.skip(last_index(path, '/') + 1)
}

/// The last component of `path`.
pub fn base_of(path: &str) -> (r: &str)
    ensures
        r@ == base_name(path@),
{
    let chars = chars_of(path);
    let end = chars.len();
    let cut: usize = match find_last(&chars, '/') {
        Some(i) => {
            proof {
                lemma_last_index(chars@, '/');
            }
            assert(i < end);
            i + 1
        },
        None => 0,
    };
    let base = path.substring_char(cut, end);
    assert(base@ =~= base_name(path@));
    base
}

/// `name` as an entry of the directory `dir`: the two joined by one `/`,
/// which is left out where `dir` is empty or already ends in one.
pub open spec fn join_path(dir: Seq<char>, name: Seq<char>) -> Seq<char> {
    if dir.len() == 0 || dir.last() == '/' {
        dir + name
    } else {
        dir.push('/') + name
    }
}

/// The path of `name` in the directory `dir`.
pub fn join_dir(dir: &str, name: &str) -> (r: String)
    ensures
        r@ == join_path(dir@, name@),
{
    let n = dir.unicode_len();
    if n == 0 || dir.get_char(n - 1) == '/' {
        String::from_str(dir).concat(name)
    } else {
        proof {
            reveal_strlit("/");
            assert("/"@ =~= seq!['/']);
        }
        let r = String::from_str(dir).concat("/").concat(name);
        assert(r@ =~= join_path(dir@, name@));
        r
    }
}

/// A copy of an optional text.
pub fn clone_text(text: &Option<String>) -> (r: Option<String>)
    ensures
        r.deep_view() == text.deep_view(),
{
    match text {
        Some(s) => Some(s.clone()),
        None => None,
    }
}

/// A copy of a list of texts.
pub fn clone_texts(texts: &Vec<String>) -> (r: Vec<String>)
    ensures
        r.deep_view() == texts.deep_view(),
{
    let mut copy: Vec<String> = Vec::new();
    let mut k: usize = 0;
    while k < texts.len()
        invariant
            k <= texts.len(),
            copy.deep_view() == texts.deep_view().take(k as int),
        decreases texts.len() - k,
    {
        let ghost before = copy.deep_view();
        copy.push(texts[k].clone());
        assert(copy.deep_view() =~= before.push(texts.deep_view()[k as int]));
        k = k + 1;
        assert(copy.deep_view() =~= texts.deep_view().take(k as int));
    }
    assert(texts.deep_view().take(k as int) =~= texts.deep_view());
    copy
}

} // verus!
