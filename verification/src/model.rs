use vstd::prelude::*;
use crate::error::MonitorError;
use crate::text::{chars_of, string_push, texts};

verus! {

/// Whether `c` is white space in Unicode's sense (what `char::is_whitespace` tests).
pub open spec fn is_space(c: char) -> bool {
    let u = c as u32;
    (0x9 <= u <= 0xD) || u == 0x20 || u == 0x85 || u == 0xA0 || u == 0x1680 || (0x2000 <= u
        <= 0x200A) || u == 0x2028 || u == 0x2029 || u == 0x202F || u == 0x205F || u == 0x3000
}

/// Whether `c` is white space in Unicode's sense.
pub fn is_space_exec(c: char) -> (b: bool)
    ensures
        b == is_space(c),
{
    let u = c as u32;
    (0x9 <= u && u <= 0xD) || u == 0x20 || u == 0x85 || u == 0xA0 || u == 0x1680 || (0x2000 <= u
        && u <= 0x200A) || u == 0x2028 || u == 0x2029 || u == 0x202F || u == 0x205F || u == 0x3000
}

/// The words of `s`: its longest runs of characters that are not white space, in order (what
/// `str::split_whitespace` yields).
pub open spec fn words(s: Seq<char>) -> Seq<Seq<char>>
    decreases s.len(),
{
    if s.len() == 0 {
        Seq::<Seq<char>>::empty()
    } else {
        let w = words(s.drop_last());
        let c = s.last();
        if is_space(c) {
            w
        } else if s.len() >= 2 && !is_space(s[s.len() - 2]) {
            w.update(w.len() - 1, w.last().push(c))
        } else {
            w.push(seq![c])
        }
    }
}

pub proof fn lemma_words_nonempty(s: Seq<char>)
    requires
        s.len() >= 1,
        !is_space(s.last()),
    ensures
        words(s).len() >= 1,
    decreases s.len(),
{
    if s.len() >= 2 && !is_space(s[s.len() - 2]) {
        assert(s.drop_last().last() == s[s.len() - 2]);
        lemma_words_nonempty(s.drop_last());
    }
}

/// The words of `data`.
pub fn split_words(data: &str) -> (r: Vec<String>)
    ensures
        texts(r@) == words(data@),
{
    let cs = chars_of(data);
    let mut r: Vec<String> = Vec::new();
    let n = cs.len();
    for i in 0..n
        invariant
            n == cs@.len(),
            cs@ == data@,
            texts(r@) == words(cs@.take(i as int)),
    {
        let c = cs[i];
        let ghost t = cs@.take(i + 1);
        assert(t.drop_last() =~= cs@.take(i as int));
        assert(t.last() == c);
        if is_space_exec(c) {
        } else if i >= 1 && !is_space_exec(cs[i - 1]) {
            assert(t[t.len() - 2] == cs@[i - 1]);
            proof {
                assert(cs@.take(i as int).last() == cs@[i - 1]);
                lemma_words_nonempty(cs@.take(i as int));
            }
            let last = r.len() - 1;
            let ghost before = texts(r@);
            let mut w = r[last].clone();
            string_push(&mut w, c);
            r.set(last, w);
            assert(texts(r@) =~= before.update(last as int, before.last().push(c)));
        } else {
            let mut w = String::new();
            string_push(&mut w, c);
            let ghost before = texts(r@);
            r.push(w);
            assert(texts(r@) =~= before.push(seq![c]));
        }
    }
    assert(cs@.take(n as int) =~= cs@);
    r
}

/// The label and the value text of a reading such as `"CPU 45.2"`: its first two words, or
/// `InvalidFormat` when it has fewer than two.
pub fn stat_fields(data: &str) -> (r: Result<(String, String), MonitorError>)
    ensures
        words(data@).len() < 2 ==> r matches Err(MonitorError::InvalidFormat),
        words(data@).len() >= 2 ==> (r matches Ok(f) && f.0@ == words(data@)[0] && f.1@ == words(data@)[1]),
{
    let parts = split_words(data);
    if parts.len() < 2 {
        return Err(MonitorError::InvalidFormat);
    }
    assert(texts(parts@)[0] == parts@[0]@);
    assert(texts(parts@)[1] == parts@[1]@);
    Ok((parts[0].clone(), parts[1].clone()))
}

} // verus!
