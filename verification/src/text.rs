use vstd::prelude::*;
use vstd::utf8::*;

verus! {

broadcast use vstd::utf8::char_is_scalar;

/// Number of bytes that the UTF-8 encoding of `c` takes.
pub open spec fn char_width(c: char) -> nat {
    if (c as u32) < 0x80 {
        1
    } else if (c as u32) < 0x800 {
        2
    } else if (c as u32) < 0x10000 {
        3
    } else {
        4
    }
}

/// Number of bytes of the UTF-8 encoding of `s`: what `str::len` returns.
pub open spec fn byte_len(s: Seq<char>) -> nat {
    encode_utf8(s).len()
}

/// `b` is the byte offset at which some character of `s` starts, or the end of `s`.
pub open spec fn is_boundary(s: Seq<char>, b: int) -> bool {
    exists|k: int| 0 <= k <= s.len() && #[trigger] byte_len(s.take(k)) == b
}

/// The number of characters that lie before byte offset `b` of `s` (meaningful at a boundary).
pub open spec fn char_index(s: Seq<char>, b: int) -> int {
    choose|k: int| 0 <= k <= s.len() && #[trigger] byte_len(s.take(k)) == b
}

/// The characters of `s` before byte offset `b`.
pub open spec fn before_byte(s: Seq<char>, b: int) -> Seq<char> {
    s.take(char_index(s, b))
}

/// The characters of `s` from byte offset `b` on.
pub open spec fn from_byte(s: Seq<char>, b: int) -> Seq<char> {
    s.skip(char_index(s, b))
}

pub proof fn lemma_char_width(c: char)
    ensures
        encode_scalar(c as u32).len() == char_width(c),
        1 <= char_width(c) <= 4,
{
}

pub proof fn lemma_byte_len_empty()
    ensures
        byte_len(Seq::<char>::empty()) == 0,
{
}

pub proof fn lemma_byte_len_concat(a: Seq<char>, b: Seq<char>)
    ensures
        byte_len(a + b) == byte_len(a) + byte_len(b),
    decreases a.len(),
{
    if a.len() == 0 {
        assert(a + b =~= b);
    } else {
        assert((a + b).drop_first() =~= a.drop_first() + b);
        assert((a + b)[0] == a[0]);
        lemma_byte_len_concat(a.drop_first(), b);
    }
}

pub proof fn lemma_byte_len_single(c: char)
    ensures
        byte_len(seq![c]) == char_width(c),
{
    lemma_char_width(c);
    reveal_with_fuel(encode_utf8, 2);
    assert(seq![c].drop_first() =~= Seq::<char>::empty());
}

pub proof fn lemma_byte_len_push(s: Seq<char>, c: char)
    ensures
        byte_len(s.push(c)) == byte_len(s) + char_width(c),
{
    assert(s.push(c) =~= s + seq![c]);
    lemma_byte_len_concat(s, seq![c]);
    lemma_byte_len_single(c);
}

/// Byte offsets of character positions grow strictly.
pub proof fn lemma_take_strict(s: Seq<char>, i: int, j: int)
    requires
        0 <= i < j <= s.len(),
    ensures
        byte_len(s.take(i)) + (j - i) <= byte_len(s.take(j)),
    decreases j - i,
{
    assert(s.take(j) =~= s.take(j - 1).push(s[j - 1]));
    lemma_byte_len_push(s.take(j - 1), s[j - 1]);
    lemma_char_width(s[j - 1]);
    if i < j - 1 {
        lemma_take_strict(s, i, j - 1);
    }
}

/// At character position `k`, the byte offset is a boundary whose character index is `k`.
pub proof fn lemma_char_index(s: Seq<char>, k: int)
    requires
        0 <= k <= s.len(),
    ensures
        is_boundary(s, byte_len(s.take(k)) as int),
        char_index(s, byte_len(s.take(k)) as int) == k,
        before_byte(s, byte_len(s.take(k)) as int) == s.take(k),
        from_byte(s, byte_len(s.take(k)) as int) == s.skip(k),
{
    let b = byte_len(s.take(k)) as int;
    assert(0 <= k <= s.len() && byte_len(s.take(k)) == b);
    let j = char_index(s, b);
    if j < k {
        lemma_take_strict(s, j, k);
    } else if k < j {
        lemma_take_strict(s, k, j);
    }
}

/// The end of a text is a boundary, at its last character.
pub proof fn lemma_boundary_end(s: Seq<char>)
    ensures
        is_boundary(s, byte_len(s) as int),
        char_index(s, byte_len(s) as int) == s.len(),
        before_byte(s, byte_len(s) as int) == s,
        from_byte(s, byte_len(s) as int) == Seq::<char>::empty(),
{
    assert(s.take(s.len() as int) =~= s);
    lemma_char_index(s, s.len() as int);
    assert(s.skip(s.len() as int) =~= Seq::<char>::empty());
}

/// A boundary lies within the text.
pub proof fn lemma_boundary_bound(s: Seq<char>, b: int)
    requires
        is_boundary(s, b),
    ensures
        0 <= char_index(s, b) <= s.len(),
        byte_len(s.take(char_index(s, b))) == b,
        0 <= b <= byte_len(s),
{
    let k = char_index(s, b);
    assert(s =~= s.take(k) + s.skip(k));
    lemma_byte_len_concat(s.take(k), s.skip(k));
}

/// The length of the text in bytes of its UTF-8 encoding (what `String::len` returns).
pub fn string_byte_len(s: &String) -> (r: usize)
    ensures
        r == byte_len(s@),
{
    s.as_str().as_bytes().len()
}

// ---------------------------------------------------------------------
// Calls into std's `String` that vstd gives no specification.

/// `String::insert`: inserts `c` at byte offset `idx`; std panics unless `idx` is a char boundary.
#[verifier::external_body]
pub(crate) fn string_insert(s: &mut String, idx: usize, c: char)
    requires
        is_boundary(old(s)@, idx as int),
    ensures
        final(s)@ == before_byte(old(s)@, idx as int).push(c) + from_byte(old(s)@, idx as int),
{
    s.insert(idx, c)
}

/// `String::remove`: removes and returns the character that starts at byte offset `idx`;
/// std panics unless `idx` is a char boundary before the end.
#[verifier::external_body]
pub(crate) fn string_remove(s: &mut String, idx: usize) -> (c: char)
    requires
        is_boundary(old(s)@, idx as int),
        idx < byte_len(old(s)@),
    ensures
        c == old(s)@[char_index(old(s)@, idx as int)],
        final(s)@ == old(s)@.remove(char_index(old(s)@, idx as int)),
{
    s.remove(idx)
}

/// `String::split_off`: keeps the bytes before `at` and returns the rest; std panics unless
/// `at` is a char boundary.
#[verifier::external_body]
pub(crate) fn string_split_off(s: &mut String, at: usize) -> (rest: String)
    requires
        is_boundary(old(s)@, at as int),
    ensures
        final(s)@ == before_byte(old(s)@, at as int),
        rest@ == from_byte(old(s)@, at as int),
{
    s.split_off(at)
}

/// `String::insert_str`: inserts `t` at byte offset `idx`; std panics unless `idx` is a char
/// boundary.
#[verifier::external_body]
pub(crate) fn string_insert_str(s: &mut String, idx: usize, t: &str)
    requires
        is_boundary(old(s)@, idx as int),
    ensures
        final(s)@ == before_byte(old(s)@, idx as int) + t@ + from_byte(old(s)@, idx as int),
{
    s.insert_str(idx, t)
}

/// `String::push`: appends one character.
#[verifier::external_body]
pub(crate) fn string_push(s: &mut String, c: char)
    ensures
        final(s)@ == old(s)@.push(c),
{
    s.push(c)
}

/// `String::pop`: removes and returns the last character, if any.
#[verifier::external_body]
pub(crate) fn string_pop(s: &mut String) -> (r: Option<char>)
    ensures
        old(s)@.len() == 0 ==> r is None && final(s)@ == old(s)@,
        old(s)@.len() > 0 ==> r == Some(old(s)@.last()) && final(s)@ == old(s)@.drop_last(),
{
    s.pop()
}

/// `s` holds `p` at some character position.
pub open spec fn contains_text(s: Seq<char>, p: Seq<char>) -> bool {
    exists|i: int| 0 <= i && i + p.len() <= s.len() && #[trigger] s.subrange(i, i + p.len()) == p
}

/// `str::contains` with a string pattern: whether `p` occurs in `s`.
#[verifier::external_body]
pub(crate) fn str_contains(s: &str, p: &str) -> (r: bool)
    ensures
        r == contains_text(s@, p@),
{
    s.contains(p)
}



// ---------------------------------------------------------------------
// Splitting and joining lines.

/// The texts of a list of strings.
pub open spec fn texts(v: Seq<String>) -> Seq<Seq<char>> {
    v.map_values(|x: String| x@)
}

/// The pieces of `s` between occurrences of `sep` (what `str::split` with a character yields).
pub open spec fn split_on(s: Seq<char>, sep: char) -> Seq<Seq<char>>
    decreases s.len(),
{
    if s.len() == 0 {
        seq![Seq::<char>::empty()]
    } else {
        let p = split_on(s.drop_last(), sep);
        if s.last() == sep {
            p.push(Seq::<char>::empty())
        } else {
            p.update(p.len() - 1, p.last().push(s.last()))
        }
    }
}

/// `l` without one final carriage return.
pub open spec fn strip_cr(l: Seq<char>) -> Seq<char> {
    if l.len() > 0 && l.last() == '\r' {
        l.drop_last()
    } else {
        l
    }
}

/// `l` without all its final carriage returns (what `trim_end_matches('\r')` yields).
pub open spec fn trim_cr(l: Seq<char>) -> Seq<char>
    decreases l.len(),
{
    if l.len() > 0 && l.last() == '\r' {
        trim_cr(l.drop_last())
    } else {
        l
    }
}

/// The lines of `s` as `str::lines` yields them: split at `'\n'`, a `'\r'` before a `'\n'`
/// dropped, and no empty line after a final `'\n'`.
pub open spec fn lines_of(s: Seq<char>) -> Seq<Seq<char>> {
    let p = split_on(s, '\n');
    let body = p.drop_last().map_values(|l: Seq<char>| strip_cr(l));
    if p.last().len() == 0 {
        body
    } else {
        body.push(p.last())
    }
}

/// The rows joined with `sep` between each two.
pub open spec fn join(rows: Seq<Seq<char>>, sep: char) -> Seq<char>
    decreases rows.len(),
{
    if rows.len() == 0 {
        Seq::<char>::empty()
    } else if rows.len() == 1 {
        rows[0]
    } else {
        join(rows.drop_last(), sep).push(sep) + rows.last()
    }
}

pub proof fn lemma_split_on_nonempty(s: Seq<char>, sep: char)
    ensures
        split_on(s, sep).len() >= 1,
    decreases s.len(),
{
    if s.len() > 0 {
        lemma_split_on_nonempty(s.drop_last(), sep);
    }
}

/// Splitting a text at `sep` and joining the pieces with `sep` gives the text back.
pub proof fn lemma_join_split(s: Seq<char>, sep: char)
    ensures
        join(split_on(s, sep), sep) == s,
        forall|i: int|
            0 <= i < split_on(s, sep).len() ==> !(#[trigger] split_on(s, sep)[i]).contains(sep),
    decreases s.len(),
{
    if s.len() > 0 {
        let t = s.drop_last();
        let p = split_on(t, sep);
        lemma_split_on_nonempty(t, sep);
        lemma_join_split(t, sep);
        assert(s =~= t.push(s.last()));
        if s.last() == sep {
            let q = p.push(Seq::<char>::empty());
            assert(q.drop_last() =~= p);
            assert(join(q, sep) =~= join(p, sep).push(sep) + Seq::<char>::empty());
            assert forall|i: int| 0 <= i < q.len() implies !(#[trigger] q[i]).contains(sep) by {
                if i < p.len() {
                    assert(q[i] == p[i]);
                }
            }
        } else {
            let q = p.update(p.len() - 1, p.last().push(s.last()));
            assert forall|i: int| 0 <= i < q.len() implies !(#[trigger] q[i]).contains(sep) by {
                if i < p.len() - 1 {
                    assert(q[i] == p[i]);
                } else {
                    assert(q[i] == p.last().push(s.last()));
                    assert(!p[p.len() - 1].contains(sep));
                    if q[i].contains(sep) {
                        let j = choose|j: int| 0 <= j < q[i].len() && q[i][j] == sep;
                        if j < p.last().len() {
                            assert(p.last()[j] == sep);
                        }
                    }
                }
            }
            if p.len() == 1 {
                assert(join(p, sep) == p[0]);
                assert(join(q, sep) == q[0]);
            } else {
                assert(q.drop_last() =~= p.drop_last());
                assert(join(q, sep) =~= join(p.drop_last(), sep).push(sep) + q.last());
                assert(join(p, sep) =~= join(p.drop_last(), sep).push(sep) + p.last());
            }
        }
    }
}

/// Appending a text without `sep` extends the last piece.
pub proof fn lemma_split_on_append(t: Seq<char>, b: Seq<char>, sep: char)
    requires
        !b.contains(sep),
    ensures
        split_on(t + b, sep) == split_on(t, sep).update(
            split_on(t, sep).len() - 1,
            split_on(t, sep).last() + b,
        ),
    decreases b.len(),
{
    lemma_split_on_nonempty(t, sep);
    if b.len() == 0 {
        assert(t + b =~= t);
        assert(split_on(t, sep).last() + b =~= split_on(t, sep).last());
        assert(split_on(t, sep).update(split_on(t, sep).len() - 1, split_on(t, sep).last())
            =~= split_on(t, sep));
    } else {
        let b1 = b.drop_last();
        let c = b.last();
        assert(!b1.contains(sep)) by {
            if b1.contains(sep) {
                let j = choose|j: int| 0 <= j < b1.len() && b1[j] == sep;
                assert(b[j] == sep);
            }
        }
        assert(c != sep) by {
            assert(b[b.len() - 1] == c);
        }
        lemma_split_on_append(t, b1, sep);
        assert((t + b).drop_last() =~= t + b1);
        assert((t + b).last() == c);
        lemma_split_on_nonempty(t + b1, sep);
        assert(split_on(t, sep).last() + b1 + seq![c] =~= split_on(t, sep).last() + b);
        assert((split_on(t, sep).last() + b1).push(c) =~= split_on(t, sep).last() + b);
    }
}

/// Splitting the rows joined by `sep` gives the rows back, when none holds `sep`.
pub proof fn lemma_split_join(rows: Seq<Seq<char>>, sep: char)
    requires
        rows.len() >= 1,
        forall|i: int| 0 <= i < rows.len() ==> !(#[trigger] rows[i]).contains(sep),
    ensures
        split_on(join(rows, sep), sep) == rows,
    decreases rows.len(),
{
    if rows.len() == 1 {
        assert(rows[0] =~= Seq::<char>::empty() + rows[0]);
        lemma_split_on_append(Seq::<char>::empty(), rows[0], sep);
        assert(seq![Seq::<char>::empty()].update(0, Seq::<char>::empty() + rows[0]) =~= rows);
    } else {
        let r1 = rows.drop_last();
        assert forall|i: int| 0 <= i < r1.len() implies !(#[trigger] r1[i]).contains(sep) by {
            assert(r1[i] == rows[i]);
        }
        lemma_split_join(r1, sep);
        let a = join(r1, sep).push(sep);
        assert(a.drop_last() =~= join(r1, sep));
        assert(split_on(a, sep) == r1.push(Seq::<char>::empty()));
        assert(!rows.last().contains(sep)) by {
            assert(rows.last() == rows[rows.len() - 1]);
        }
        lemma_split_on_append(a, rows.last(), sep);
        assert(Seq::<char>::empty() + rows.last() =~= rows.last());
        assert(r1.push(Seq::<char>::empty()).update(r1.len() as int, rows.last()) =~= rows);
    }
}

/// The characters of `s`, in order.
pub fn chars_of(s: &str) -> (r: Vec<char>)
    ensures
        r@ == s@,
{
    let mut r: Vec<char> = Vec::new();
    for c in it: s.chars()
        invariant
            r@ == it.seq().take(it.index() as int),
            it.seq() == s@,
    {
        r.push(c);
    }
    r
}

/// The pieces of `s` between its `'\n'` characters.
pub fn split_newlines(s: &str) -> (pieces: Vec<String>)
    ensures
        texts(pieces@) == split_on(s@, '\n'),
{
    let cs = chars_of(s);
    let mut pieces: Vec<String> = Vec::new();
    let mut cur = String::new();
    let n = cs.len();
    for i in 0..n
        invariant
            n == cs@.len(),
            cs@ == s@,
            texts(pieces@).push(cur@) == split_on(cs@.take(i as int), '\n'),
    {
        let c = cs[i];
        proof {
            assert(cs@.take(i + 1).drop_last() =~= cs@.take(i as int));
            lemma_split_on_nonempty(cs@.take(i as int), '\n');
        }
        if c == '\n' {
            let done = cur;
            pieces.push(done);
            cur = String::new();
            assert(texts(pieces@).push(cur@) =~= split_on(cs@.take(i as int), '\n').push(
                Seq::<char>::empty(),
            ));
        } else {
            let ghost before = texts(pieces@).push(cur@);
            string_push(&mut cur, c);
            assert(texts(pieces@).push(cur@) =~= before.update(
                before.len() - 1,
                before.last().push(c),
            ));
        }
    }
    assert(cs@.take(n as int) =~= cs@);
    pieces.push(cur);
    assert(texts(pieces@) =~= split_on(s@, '\n'));
    pieces
}

/// `s` without its final carriage returns.
pub fn trim_end_cr(s: &str) -> (r: String)
    ensures
        r@ == trim_cr(s@),
{
    let cs = chars_of(s);
    let mut end = cs.len();
    assert(cs@.take(end as int) =~= cs@);
    while end > 0 && cs[end - 1] == '\r'
        invariant
            end <= cs@.len(),
            cs@ == s@,
            trim_cr(cs@.take(end as int)) == trim_cr(s@),
        decreases end,
    {
        assert(cs@.take(end as int).drop_last() =~= cs@.take(end - 1));
        end = end - 1;
    }
    let mut r = String::new();
    for i in 0..end
        invariant
            end <= cs@.len(),
            r@ == cs@.take(i as int),
    {
        string_push(&mut r, cs[i]);
        assert(cs@.take(i + 1) =~= cs@.take(i as int).push(cs@[i as int]));
    }
    assert(trim_cr(cs@.take(end as int)) == cs@.take(end as int));
    r
}

/// The lines of `s`, as `str::lines` yields them.
pub fn lines_text(s: &str) -> (lines: Vec<String>)
    ensures
        texts(lines@) == lines_of(s@),
{
    let pieces = split_newlines(s);
    proof {
        lemma_split_on_nonempty(s@, '\n');
    }
    let n = pieces.len();
    let mut lines: Vec<String> = Vec::new();
    for i in 0..n - 1
        invariant
            n == pieces@.len(),
            n >= 1,
            texts(pieces@) == split_on(s@, '\n'),
            texts(lines@) == texts(pieces@).take(i as int).map_values(|l: Seq<char>| strip_cr(l)),
    {
        let mut line = pieces[i].clone();
        let cs = chars_of(line.as_str());
        if cs.len() > 0 && cs[cs.len() - 1] == '\r' {
            string_pop(&mut line);
        }
        assert(line@ == strip_cr(pieces@[i as int]@));
        assert(texts(pieces@)[i as int] == pieces@[i as int]@);
        let ghost old_lines = texts(lines@);
        lines.push(line);
        assert(texts(lines@) =~= old_lines.push(strip_cr(texts(pieces@)[i as int])));
        assert(texts(pieces@).take(i + 1) =~= texts(pieces@).take(i as int).push(texts(pieces@)[i as int]));
        assert(texts(lines@) =~= texts(pieces@).take(i + 1).map_values(
            |l: Seq<char>| strip_cr(l),
        ));
    }
    let last = pieces[n - 1].clone();
    assert(texts(pieces@).take(n - 1) =~= split_on(s@, '\n').drop_last());
    if string_byte_len(&last) > 0 {
        proof {
            lemma_byte_len_empty();
        }
        lines.push(last);
        assert(texts(lines@) =~= lines_of(s@));
    } else {
        proof {
            if last@.len() > 0 {
                assert(last@ =~= last@.take(1) + last@.skip(1));
                lemma_byte_len_concat(last@.take(1), last@.skip(1));
                lemma_byte_len_single(last@[0]);
                assert(last@.take(1) =~= seq![last@[0]]);
            }
        }
        assert(texts(lines@) =~= lines_of(s@));
    }
    lines
}

/// The rows joined with `sep` between each two.
pub fn join_text(rows: &Vec<String>, sep: char) -> (r: String)
    ensures
        r@ == join(texts(rows@), sep),
{
    let mut r = String::new();
    let n = rows.len();
    for i in 0..n
        invariant
            n == rows@.len(),
            r@ == join(texts(rows@).take(i as int), sep),
    {
        let ghost prev = texts(rows@).take(i as int);
        if i > 0 {
            string_push(&mut r, sep);
        }
        r.append(rows[i].as_str());
        proof {
            let cur = texts(rows@).take(i + 1);
            assert(cur.drop_last() =~= prev);
            if i == 0 {
                assert(r@ =~= cur[0]);
            } else {
                assert(r@ =~= join(prev, sep).push(sep) + cur.last());
            }
        }
    }
    assert(texts(rows@).take(n as int) =~= texts(rows@));
    r
}

// ---------------------------------------------------------------------
// Ordering texts.

/// `a` comes no later than `b` in lexicographic order of code points, which is the byte order
/// of their UTF-8 encodings (the order of `String` and of `Path` components).
pub open spec fn text_le(a: Seq<char>, b: Seq<char>) -> bool
    decreases a.len(),
{
    if a.len() == 0 {
        true
    } else if b.len() == 0 {
        false
    } else if (a[0] as u32) < (b[0] as u32) {
        true
    } else if (a[0] as u32) > (b[0] as u32) {
        false
    } else {
        text_le(a.drop_first(), b.drop_first())
    }
}

/// The texts stand in ascending order.
pub open spec fn sorted_texts(v: Seq<Seq<char>>) -> bool {
    forall|i: int, j: int| 0 <= i < j < v.len() ==> text_le(#[trigger] v[i], #[trigger] v[j])
}

pub proof fn lemma_text_le_total(a: Seq<char>, b: Seq<char>)
    ensures
        text_le(a, b) || text_le(b, a),
    decreases a.len(),
{
    if a.len() > 0 && b.len() > 0 && (a[0] as u32) == (b[0] as u32) {
        lemma_text_le_total(a.drop_first(), b.drop_first());
    }
}

pub proof fn lemma_text_le_trans(a: Seq<char>, b: Seq<char>, c: Seq<char>)
    requires
        text_le(a, b),
        text_le(b, c),
    ensures
        text_le(a, c),
    decreases a.len(),
{
    if a.len() > 0 && b.len() > 0 && c.len() > 0 {
        if (a[0] as u32) == (b[0] as u32) && (b[0] as u32) == (c[0] as u32) {
            lemma_text_le_trans(a.drop_first(), b.drop_first(), c.drop_first());
        }
    }
}

/// Whether `a` comes no later than `b` in the order of `text_le`.
pub fn text_le_exec(a: &String, b: &String) -> (r: bool)
    ensures
        r == text_le(a@, b@),
{
    let ca = chars_of(a.as_str());
    let cb = chars_of(b.as_str());
    let mut i: usize = 0;
    assert(ca@.skip(0) =~= ca@);
    assert(cb@.skip(0) =~= cb@);
    while i < ca.len() && i < cb.len() && (ca[i] as u32) == (cb[i] as u32)
        invariant
            i <= ca@.len(),
            i <= cb@.len(),
            ca@ == a@,
            cb@ == b@,
            text_le(a@, b@) == text_le(ca@.skip(i as int), cb@.skip(i as int)),
        decreases ca@.len() - i,
    {
        assert(ca@.skip(i as int).drop_first() =~= ca@.skip(i + 1));
        assert(cb@.skip(i as int).drop_first() =~= cb@.skip(i + 1));
        i = i + 1;
    }
    if i == ca.len() {
        true
    } else if i == cb.len() {
        false
    } else {
        (ca[i] as u32) < (cb[i] as u32)
    }
}

/// The strings of `v` in ascending order of `text_le`.
pub fn sort_texts(v: Vec<String>) -> (r: Vec<String>)
    ensures
        sorted_texts(texts(r@)),
        texts(r@).to_multiset() == texts(v@).to_multiset(),
{
    let mut out: Vec<String> = Vec::new();
    let n = v.len();
    assert(texts(out@) =~= texts(v@).take(0));
    for i in 0..n
        invariant
            n == v@.len(),
            sorted_texts(texts(out@)),
            texts(out@).to_multiset() == texts(v@).take(i as int).to_multiset(),
    {
        let x = v[i].clone();
        let mut p: usize = 0;
        while p < out.len() && text_le_exec(&out[p], &x)
            invariant
                p <= out@.len(),
                forall|j: int| 0 <= j < p ==> text_le(#[trigger] out@[j]@, x@),
            decreases out@.len() - p,
        {
            p = p + 1;
        }
        let ghost old_out = texts(out@);
        proof {
            assert forall|j: int| p <= j < old_out.len() implies text_le(x@, #[trigger] old_out[j]) by {
                assert(!text_le(old_out[p as int], x@));
                lemma_text_le_total(old_out[p as int], x@);
                if j > p {
                    lemma_text_le_trans(x@, old_out[p as int], old_out[j]);
                }
            }
        }
        out.insert(p, x);
        let ghost new_out = texts(out@);
        assert(new_out =~= old_out.insert(p as int, x@));
        assert forall|a: int, b: int| 0 <= a < b < new_out.len() implies text_le(
            #[trigger] new_out[a],
            #[trigger] new_out[b],
        ) by {
            if b < p {
            } else if b == p {
            } else if a < p {
                lemma_text_le_trans(new_out[a], x@, new_out[b]);
            } else if a == p {
            } else {
            }
        }
        assert(new_out.remove(p as int) =~= old_out);
        assert(new_out[p as int] == x@);
        assert(texts(v@).take(i + 1) =~= texts(v@).take(i as int).push(x@));
        proof {
            texts(v@).take(i as int).to_multiset_ensures();
        }
        proof {
            new_out.to_multiset_ensures();
        }
        assert(new_out.remove(p as int).to_multiset() =~= new_out.to_multiset().remove(x@));
        assert(new_out.contains(x@));
        assert(new_out.to_multiset().count(x@) > 0);
        assert(new_out.to_multiset() =~= old_out.to_multiset().insert(x@));
    }
    assert(texts(v@).take(n as int) =~= texts(v@));
    out
}

// ---------------------------------------------------------------------
// Numbers as text.

/// The decimal digit `d` (0 to 9) as a character.
pub open spec fn digit_char(d: int) -> char {
    (48 + d) as char
}

/// The decimal representation of `n`, without leading zeros (what `Display` prints for an
/// unsigned integer).
pub open spec fn decimal(n: nat) -> Seq<char>
    decreases n,
{
    if n < 10 {
        seq![digit_char(n as int)]
    } else {
        decimal(n / 10).push(digit_char((n % 10) as int))
    }
}

/// `s` preceded by spaces up to `width` characters (what `{:width}` prints for a number).
pub open spec fn pad_left(s: Seq<char>, width: nat) -> Seq<char> {
    if s.len() >= width {
        s
    } else {
        Seq::new((width - s.len()) as nat, |i: int| ' ') + s
    }
}

/// The decimal representation of `n`.
pub fn decimal_text(n: u64) -> (r: String)
    ensures
        r@ == decimal(n as nat),
{
    let mut digits: Vec<char> = Vec::new();
    let mut m = n;
    loop
        invariant_except_break
            decimal(n as nat) == decimal(m as nat) + digits@.reverse(),
        ensures
            decimal(n as nat) == digits@.reverse(),
        decreases m,
    {
        let d = (m % 10) as u8;
        let c = (48u8 + d) as char;
        assert(c == digit_char((m % 10) as int));
        if m < 10 {
            let ghost old_digits = digits@;
            digits.push(c);
            assert(decimal(m as nat) =~= seq![c]);
            assert(digits@.reverse() =~= seq![c] + old_digits.reverse());
            break;
        }
        let ghost old_digits = digits@;
        digits.push(c);
        assert(digits@.reverse() =~= seq![c] + old_digits.reverse());
        assert(decimal(m as nat) == decimal((m / 10) as nat).push(c));
        assert(decimal((m / 10) as nat).push(c) + old_digits.reverse() =~= decimal((m / 10) as nat)
            + (seq![c] + old_digits.reverse()));
        m = m / 10;
    }
    let mut r = String::new();
    let k = digits.len();
    for i in 0..k
        invariant
            k == digits@.len(),
            r@ == digits@.reverse().take(i as int),
    {
        string_push(&mut r, digits[k - 1 - i]);
        assert(digits@.reverse().take(i + 1) =~= digits@.reverse().take(i as int).push(digits@[k - 1 - i]));
    }
    assert(digits@.reverse().take(k as int) =~= digits@.reverse());
    r
}

/// `s` preceded by spaces up to `width` characters.
pub fn pad_left_text(s: String, width: usize) -> (r: String)
    ensures
        r@ == pad_left(s@, width as nat),
{
    let n = s.as_str().unicode_len();
    if n >= width {
        return s;
    }
    let mut r = String::new();
    for i in 0..width - n
        invariant
            n < width,
            r@ == Seq::new(i as nat, |j: int| ' '),
    {
        string_push(&mut r, ' ');
        assert(r@ =~= Seq::new((i + 1) as nat, |j: int| ' '));
    }
    r.append(s.as_str());
    r
}

} // verus!
