//! Where the `.olean` file of a module lies under a search path, and the order
//! in which files and their imports are loaded: breadth-first from the roots,
//! each file once.
use vstd::prelude::*;

use crate::name::{limb_text, Limb, Name};
use crate::text::{chars_of, str_eq, string_from_chars};

verus! {

/// The index of the last `.` of a file name that is not its first character:
/// the start of its extension.
pub open spec fn ext_dot(f: Seq<char>) -> Option<int>
    decreases f.len(),
{
    if f.len() <= 1 {
        None
    } else if f.last() == '.' {
        Some(f.len() - 1)
    } else {
        ext_dot(f.drop_last())
    }
}

/// File name `f` with its extension, if it has one, replaced by `olean`.
pub open spec fn with_olean_ext(f: Seq<char>) -> Seq<char> {
    let stem = match ext_dot(f) {
        Some(k) => f.take(k),
        None => f,
    };
    stem + seq!['.', 'o', 'l', 'e', 'a', 'n']
}

/// The path pieces of the file of the module with components `v`: one
/// directory per component, the last one being the file itself.
pub open spec fn module_file_pieces(v: Seq<Limb>) -> Seq<Seq<char>> {
    v.drop_last().map_values(|l: Limb| limb_text(l)).push(with_olean_ext(limb_text(v.last())))
}

/// Where the extension of the file name `cs` starts, if it has one.
fn find_ext_dot(cs: &[char]) -> (r: Option<usize>)
    ensures
        r matches Some(k) ==> 0 < k < cs@.len() && ext_dot(cs@) == Some(k as int),
        r is None ==> ext_dot(cs@) is None,
{
    let mut j: usize = cs.len();
    proof {
        assert(cs@.take(j as int) == cs@);
    }
    while j > 1
        invariant
            j <= cs@.len(),
            ext_dot(cs@) == ext_dot(cs@.take(j as int)),
        decreases j,
    {
        proof {
            assert(cs@.take(j as int).drop_last() == cs@.take(j - 1));
            assert(cs@.take(j as int).last() == cs@[j - 1]);
        }
        if cs[j - 1] == '.' {
            return Some(j - 1);
        }
        j = j - 1;
    }
    None
}

/// The path pieces of the `.olean` file of module `name`, relative to a search
/// path (`Init.Prelude` gives `Init` and `Prelude.olean`); `None` for the
/// anonymous name.
pub fn module_file_parts(name: &Name) -> (r: Option<Vec<String>>)
    ensures
        r is None <==> name@.len() == 0,
        r matches Some(v) ==> v@.map_values(|s: String| s@) == module_file_pieces(name@),
{
    let mut parts = name.components();
    proof {
        assert(parts@.len() == parts@.map_values(|s: String| s@).len());
    }
    if parts.len() == 0 {
        return None;
    }
    let ghost all = parts@;
    let last = parts.pop().unwrap();
    proof {
        assert(last@ == all.map_values(|s: String| s@)[all.len() - 1]);
    }
    let cs = chars_of(last.as_str());
    let mut out: Vec<char> = Vec::new();
    let stop = match find_ext_dot(cs.as_slice()) {
        Some(k) => k,
        None => cs.len(),
    };
    let mut i: usize = 0;
    while i < stop
        invariant
            i <= stop <= cs@.len(),
            out@ == cs@.take(i as int),
        decreases stop - i,
    {
        out.push(cs[i]);
        proof {
            assert(cs@.take(i + 1) == cs@.take(i as int).push(cs@[i as int]));
        }
        i = i + 1;
    }
    out.push('.');
    out.push('o');
    out.push('l');
    out.push('e');
    out.push('a');
    out.push('n');
    proof {
        assert(cs@.take(cs@.len() as int) == cs@);
        assert(out@ == with_olean_ext(cs@));
    }
    let file = string_from_chars(out.as_slice());
    parts.push(file);
    proof {
        let v = name@;
        assert(all.map_values(|s: String| s@) == v.map_values(|l: Limb| limb_text(l)));
        let a = v.drop_last().map_values(|l: Limb| limb_text(l));
        let b = all.drop_last().map_values(|s: String| s@);
        let va = v.map_values(|l: Limb| limb_text(l));
        let vb = all.map_values(|s: String| s@);
        assert forall|k: int| 0 <= k < a.len() implies #[trigger] a[k] == b[k] by {
            assert(va[k] == vb[k]);
        }
        assert(a =~= b);
        assert(limb_text(v.last()) == all.map_values(|s: String| s@)[all.len() - 1]);
        assert(parts@.map_values(|s: String| s@) == module_file_pieces(v));
    }
    Some(parts)
}

/// The first search path under which the file was found, given for each search
/// path, in order, whether the file exists there.
pub fn first_found(found: &[bool]) -> (r: Option<usize>)
    ensures
        r matches Some(i) ==> i < found@.len() && found@[i as int] && forall|j: int|
            0 <= j < i ==> !found@[j],
        r is None ==> forall|j: int| 0 <= j < found@.len() ==> !found@[j],
{
    let mut i: usize = 0;
    while i < found.len()
        invariant
            i <= found@.len(),
            forall|j: int| 0 <= j < i ==> !found@[j],
        decreases found@.len() - i,
    {
        if found[i] {
            return Some(i);
        }
        i = i + 1;
    }
    None
}

/// The files still to be looked at, the files loaded so far in the order they
/// were loaded, and the module name recorded for each file reached as an
/// import.
pub struct LoadPlan {
    queue: Vec<String>,
    head: usize,
    loaded: Vec<String>,
    names: Vec<(String, Name)>,
    current: Option<String>,
}

/// The strings' texts.
pub open spec fn texts(v: Seq<String>) -> Seq<Seq<char>> {
    v.map_values(|s: String| s@)
}

impl LoadPlan {
    /// The position in the queue lies within it, no file was loaded twice,
    /// and the file handed out last, if any, has not been loaded yet.
    pub closed spec fn wf(self) -> bool {
        &&& self.head <= self.queue@.len()
        &&& self.done().no_duplicates()
        &&& self.current matches Some(c) ==> !self.done().contains(c@)
    }

    /// The file handed out last and not yet recorded as loaded.
    pub closed spec fn in_hand(self) -> Option<Seq<char>> {
        match self.current {
            Some(c) => Some(c@),
            None => None,
        }
    }

    /// The files still to be looked at, in order.
    pub closed spec fn pending(self) -> Seq<Seq<char>> {
        texts(self.queue@).skip(self.head as int)
    }

    /// The files loaded so far, in the order they were loaded.
    pub closed spec fn done(self) -> Seq<Seq<char>> {
        texts(self.loaded@)
    }

    /// The import files reached so far with their module names, in order.
    pub closed spec fn named(self) -> Seq<(Seq<char>, Seq<Limb>)> {
        self.names@.map_values(|e: (String, Name)| (e.0@, e.1@))
    }

    /// A plan that starts from the given files.
    pub fn new(roots: Vec<String>) -> (r: Self)
        ensures
            r.wf(),
            r.pending() == texts(roots@),
            r.done() == Seq::<Seq<char>>::empty(),
            r.named() == Seq::<(Seq<char>, Seq<Limb>)>::empty(),
    {
        let r = LoadPlan {
            queue: roots,
            head: 0,
            loaded: Vec::new(),
            names: Vec::new(),
            current: None,
        };
        proof {
            assert(texts(r.queue@).skip(0) == texts(r.queue@));
        }
        r
    }

    /// Whether file `path` has been loaded.
    fn is_loaded(&self, path: &str) -> (b: bool)
        ensures
            b == self.done().contains(path@),
    {
        let mut i: usize = 0;
        while i < self.loaded.len()
            invariant
                i <= self.loaded@.len(),
                forall|j: int| 0 <= j < i ==> self.done()[j] != path@,
            decreases self.loaded@.len() - i,
        {
            if str_eq(self.loaded[i].as_str(), path) {
                proof {
                    assert(self.done()[i as int] == path@);
                }
                return true;
            }
            i = i + 1;
        }
        false
    }

    /// The next file to load: files already loaded are passed over; `None`
    /// once every file still to be looked at has been loaded.
    pub fn next_file(&mut self) -> (r: Option<String>)
        requires
            old(self).wf(),
        ensures
            final(self).wf(),
            final(self).done() == old(self).done(),
            final(self).named() == old(self).named(),
            r is None ==> final(self).pending().len() == 0 && forall|j: int|
                0 <= j < old(self).pending().len() ==> old(self).done().contains(
                    #[trigger] old(self).pending()[j],
                ),
            r matches Some(p) ==> final(self).in_hand() == Some(p@),
            r is None ==> final(self).in_hand() == old(self).in_hand(),
            r matches Some(p) ==> exists|k: int|
                0 <= k < old(self).pending().len() && #[trigger] old(self).pending()[k] == p@
                    && !old(self).done().contains(p@) && (forall|j: int|
                    0 <= j < k ==> old(self).done().contains(#[trigger] old(self).pending()[j]))
                    && final(self).pending() == old(self).pending().skip(k + 1),
    {
        let ghost start = self.head as int;
        while self.head < self.queue.len()
            invariant
                start <= self.head <= self.queue@.len(),
                self.queue == old(self).queue,
                self.loaded == old(self).loaded,
                self.names == old(self).names,
                self.current == old(self).current,
                start == old(self).head,
                old(self).wf(),
                forall|j: int|
                    start <= j < self.head ==> old(self).done().contains(
                        #[trigger] texts(self.queue@)[j],
                    ),
            decreases self.queue@.len() - self.head,
        {
            let h = self.head;
            let is_done = self.is_loaded(self.queue[h].as_str());
            self.head = h + 1;
            if !is_done {
                let p = self.queue[h].clone();
                proof {
                    let k = h - start;
                    assert(old(self).pending()[k] == texts(self.queue@)[h as int]);
                    assert forall|j: int| 0 <= j < k implies old(self).done().contains(
                        #[trigger] old(self).pending()[j],
                    ) by {
                        assert(old(self).pending()[j] == texts(self.queue@)[start + j]);
                    }
                    assert(self.pending() == old(self).pending().skip(k + 1));
                }
                self.current = Some(self.queue[h].clone());
                return Some(p);
            }
        }
        proof {
            assert forall|j: int| 0 <= j < old(self).pending().len() implies old(
                self,
            ).done().contains(#[trigger] old(self).pending()[j]) by {
                assert(old(self).pending()[j] == texts(self.queue@)[start + j]);
            }
        }
        None
    }

    /// Record that the file handed out last was loaded, with the files of its
    /// imports that were found and their module names; those files are to be
    /// looked at after the ones already waiting.
    pub fn record_loaded(&mut self, imports: Vec<(String, Name)>)
        requires
            old(self).wf(),
            old(self).in_hand() is Some,
        ensures
            final(self).wf(),
            final(self).in_hand() is None,
            final(self).done() == old(self).done().push(old(self).in_hand()->0),
            final(self).pending() == old(self).pending() + imports@.map_values(
                |e: (String, Name)| e.0@,
            ),
            final(self).named() == old(self).named() + imports@.map_values(
                |e: (String, Name)| (e.0@, e.1@),
            ),
    {
        let mut i: usize = 0;
        while i < imports.len()
            invariant
                i <= imports@.len(),
                old(self).head <= old(self).queue@.len(),
                self.head == old(self).head,
                self.loaded == old(self).loaded,
                self.current == old(self).current,
                self.queue@ == old(self).queue@ + imports@.take(i as int).map_values(
                    |e: (String, Name)| e.0,
                ),
                self.names@ == old(self).names@ + imports@.take(i as int),
            decreases imports@.len() - i,
        {
            let f = imports[i].0.clone();
            let n = imports[i].1.clone();
            self.queue.push(f);
            self.names.push((imports[i].0.clone(), n));
            proof {
                assert(imports@.take(i + 1) == imports@.take(i as int).push(imports@[i as int]));
                assert(imports@.take(i + 1).map_values(|e: (String, Name)| e.0) == imports@.take(
                    i as int,
                ).map_values(|e: (String, Name)| e.0).push(imports@[i as int].0));
            }
            i = i + 1;
        }
        let path = match self.current.take() {
            Some(p) => p,
            None => String::new(),
        };
        self.loaded.push(path);
        proof {
            assert(self.done() == old(self).done().push(old(self).in_hand()->0));
            assert(self.done().no_duplicates()) by {
                let d = old(self).done();
                let c = old(self).in_hand()->0;
                assert forall|a: int, b: int|
                    0 <= a < b < self.done().len() implies self.done()[a] != self.done()[b] by {
                    if b == d.len() {
                        assert(d[a] == self.done()[a]);
                        assert(d.contains(d[a]));
                    }
                }
            }
            assert(imports@.take(imports@.len() as int) == imports@);
            let q0 = texts(old(self).queue@);
            let add = imports@.map_values(|e: (String, Name)| e.0@);
            assert(texts(self.queue@) == q0 + add);
            assert(self.pending() == q0.skip(self.head as int) + add);
            assert(self.named() == old(self).named() + imports@.map_values(
                |e: (String, Name)| (e.0@, e.1@),
            ));
        }
    }

    /// The module name last recorded for file `path`, if any.
    pub fn module_name(&self, path: &str) -> (r: Option<Name>)
        ensures
            r is None <==> forall|k: int| 0 <= k < self.named().len() ==> #[trigger] self.named()[k].0
                != path@,
            r matches Some(n) ==> exists|k: int|
                0 <= k < self.named().len() && #[trigger] self.named()[k] == (path@, n@) && forall|
                    j: int,
                | k < j < self.named().len() ==> #[trigger] self.named()[j].0 != path@,
    {
        let mut i: usize = self.names.len();
        while i > 0
            invariant
                i <= self.names@.len(),
                forall|j: int| i <= j < self.named().len() ==> #[trigger] self.named()[j].0 != path@,
            decreases i,
        {
            i = i - 1;
            if str_eq(self.names[i].0.as_str(), path) {
                let n = self.names[i].1.clone();
                proof {
                    assert(self.named()[i as int] == (path@, n@));
                    assert(self.named()[i as int].0 == path@);
                }
                return Some(n);
            }
        }
        None
    }

    /// The files loaded so far, in the order they were loaded.
    pub fn loaded_files(&self) -> (r: &[String])
        ensures
            texts(r@) == self.done(),
    {
        self.loaded.as_slice()
    }
}

} // verus!

verus! {

/// However files and imports come, a plan loads each file at most once.
pub proof fn law_each_file_loaded_once(plan: LoadPlan)
    requires
        plan.wf(),
    ensures
        plan.done().no_duplicates(),
{
}

} // verus!
