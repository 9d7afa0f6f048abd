use vstd::prelude::*;
use crate::text::{sort_texts, sorted_texts, texts};

verus! {

/// A listing of one directory: its parent first (when there is one), then the directories,
/// then the files, each group in ascending order; `selected` marks one entry.
pub struct Explorer {
    pub current_path: String,
    pub items: Vec<String>,
    pub selected: usize,
}

/// `n - 1`, or 0 for 0.
pub open spec fn last_index(n: int) -> int {
    if n > 0 {
        n - 1
    } else {
        0
    }
}

/// The path `p` with its last component taken off (what `Path::parent` gives), or nothing when
/// `p` is a root or empty.
pub uninterp spec fn parent_of(p: Seq<char>) -> Option<Seq<char>>;

/// Whether the paths `a` and `b` are equal as `Path` compares them: component by component.
pub uninterp spec fn same_path(a: Seq<char>, b: Seq<char>) -> bool;

/// Whether the path `item` names the directory that holds the path `current`.
pub open spec fn is_parent_of(item: Seq<char>, current: Seq<char>) -> bool {
    match parent_of(current) {
        Some(p) => same_path(item, p),
        None => false,
    }
}

/// The last component of the path `p`, or nothing when it has none (such as `/` or a path
/// ending in `..`).
pub uninterp spec fn file_name_of(p: Seq<char>) -> Seq<char>;

/// `Path::parent`: `p` without its last component, or nothing for a root or an empty path.
#[verifier::external_body]
pub(crate) fn path_parent(p: &str) -> (r: Option<String>)
    ensures
        (match r {
            Some(q) => parent_of(p@) == Some(q@),
            None => parent_of(p@) is None,
        }),
{
    match std::path::Path::new(p).parent() {
        Some(q) => Some(q.to_string_lossy().into_owned()),
        None => None,
    }
}

/// `==` on `Path`: whether `a` and `b` name the same path, component by component.
#[verifier::external_body]
pub(crate) fn paths_equal(a: &str, b: &str) -> (r: bool)
    ensures
        r == same_path(a@, b@),
{
    std::path::Path::new(a) == std::path::Path::new(b)
}

/// Whether `item` is the parent of `current`.
pub(crate) fn is_parent_path(item: &str, current: &str) -> (b: bool)
    ensures
        b == is_parent_of(item@, current@),
{
    match path_parent(current) {
        Some(p) => paths_equal(item, p.as_str()),
        None => false,
    }
}

/// `Path::file_name`: the last component of `p`, or the empty text when there is none.
#[verifier::external_body]
pub(crate) fn path_file_name(p: &str) -> (r: String)
    ensures
        r@ == file_name_of(p@),
{
    std::path::Path::new(p).file_name().unwrap_or_default().to_string_lossy().into_owned()
}

impl Explorer {
    /// An explorer of `current_path` with nothing listed yet.
    pub fn with_path(current_path: String) -> (e: Self)
        ensures
            e.current_path@ == current_path@,
            e.items@.len() == 0,
            e.selected == 0,
    {
        Explorer { current_path, items: Vec::new(), selected: 0 }
    }

    /// Lists the directory again, from the entries `dirs` and `files` read from it: the parent of
    /// `current_path` (when it has one), then the directories and then the files, each in
    /// ascending order. The selection moves to the last entry when it lies past the end.
    pub fn refresh(&mut self, dirs: Vec<String>, files: Vec<String>)
        ensures
            ({
                let parent = parent_of(old(self).current_path@);
                let k: int = if parent is Some { 1 } else { 0 };
                let items = texts(final(self).items@);
                let d = items.subrange(k, k + dirs@.len());
                let f = items.subrange(k + dirs@.len(), items.len() as int);
                &&& items.len() == k + dirs@.len() + files@.len()
                &&& parent matches Some(p) ==> items[0] == p
                &&& sorted_texts(d)
                &&& d.to_multiset() == texts(dirs@).to_multiset()
                &&& sorted_texts(f)
                &&& f.to_multiset() == texts(files@).to_multiset()
            }),
            final(self).selected == if old(self).selected >= final(self).items@.len() {
                last_index(final(self).items@.len() as int) as usize
            } else {
                old(self).selected
            },
            final(self).current_path == old(self).current_path,
    {
        let mut items: Vec<String> = Vec::new();
        let parent = path_parent(self.current_path.as_str());
        let k: usize = match parent {
            Some(p) => {
                items.push(p);
                1
            },
            None => 0,
        };
        let ghost pre = texts(items@);
        let ghost dirs_t = texts(dirs@);
        let ghost files_t = texts(files@);
        let nd = dirs.len();
        let nf = files.len();
        let sd = sort_texts(dirs);
        let sf = sort_texts(files);
        proof {
            sd@.to_multiset_ensures();
            sf@.to_multiset_ensures();
            texts(sd@).to_multiset_ensures();
            texts(sf@).to_multiset_ensures();
            texts(dirs@).to_multiset_ensures();
            texts(files@).to_multiset_ensures();
        }
        let ghost sdt = texts(sd@);
        let ghost sft = texts(sf@);
        assert(sdt.len() == nd);
        assert(sft.len() == nf);
        for i in 0..sd.len()
            invariant
                texts(items@) == pre + sdt.take(i as int),
                sdt == texts(sd@),
                sdt.len() == sd@.len(),
                pre.len() == k,
        {
            let ghost before = texts(items@);
            items.push(sd[i].clone());
            assert(texts(items@) =~= before.push(sdt[i as int]));
            assert(texts(items@) =~= pre + sdt.take(i + 1));
        }
        assert(sdt.take(sdt.len() as int) =~= sdt);
        for i in 0..sf.len()
            invariant
                texts(items@) == pre + sdt + sft.take(i as int),
                sft == texts(sf@),
                sdt == texts(sd@),
                sft.len() == sf@.len(),
                pre.len() == k,
        {
            let ghost before = texts(items@);
            items.push(sf[i].clone());
            assert(texts(items@) =~= before.push(sft[i as int]));
            assert(texts(items@) =~= pre + sdt + sft.take(i + 1));
        }
        assert(sft.take(sft.len() as int) =~= sft);
        let ghost it = texts(items@);
        assert(it.subrange(k as int, k + nd) =~= sdt);
        assert(it.subrange(k + nd, it.len() as int) =~= sft);
        self.items = items;
        if self.selected >= self.items.len() {
            self.selected = self.items.len().saturating_sub(1);
        }
    }

    /// Moves the selection one entry down, unless it is on the last entry.
    pub fn next(&mut self)
        ensures
            final(self).selected == if old(self).selected < last_index(old(self).items@.len() as int) {
                old(self).selected + 1
            } else {
                old(self).selected as int
            },
            final(self).items == old(self).items,
            final(self).current_path == old(self).current_path,
    {
        if self.selected < self.items.len().saturating_sub(1) {
            self.selected += 1;
        }
    }

    /// Moves the selection one entry up, unless it is on the first entry.
    pub fn previous(&mut self)
        ensures
            final(self).selected == if old(self).selected > 0 {
                old(self).selected - 1
            } else {
                0
            },
            final(self).items == old(self).items,
            final(self).current_path == old(self).current_path,
    {
        if self.selected > 0 {
            self.selected -= 1;
        }
    }
}

} // verus!
