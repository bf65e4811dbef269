//! Paths in the namespace: an absolute (or, transiently, relative) sequence
//! of segment names. Segment names are never empty and never contain the
//! `/` separator; parsing collapses repeated separators.

use vstd::prelude::*;
use vstd::string::StrSliceExecFns;
use vstd::string::StringExecFns;

verus! {

/// Mathematical model of a path: whether it is absolute, and its segments.
pub ghost struct PathModel {
    pub absolute: bool,
    pub segments: Seq<Seq<char>>,
}

/// A well-formed segment: non-empty, and free of the separator.
pub open spec fn seg_wf(s: Seq<char>) -> bool {
    s.len() > 0 && forall|i: int| 0 <= i < s.len() ==> s[i] != '/'
}

/// A well-formed segment list: all segments well-formed.
pub open spec fn segs_wf(segs: Seq<Seq<char>>) -> bool {
    forall|i: int| 0 <= i < segs.len() ==> seg_wf(#[trigger] segs[i])
}

/// Length of the leading run of non-separator characters.
pub open spec fn run_len(s: Seq<char>) -> nat
    decreases s.len(),
{
    if s.len() == 0 || s[0] == '/' {
        0
    } else {
        1 + run_len(s.skip(1))
    }
}

/// The segments of a string: maximal runs of non-separator characters.
pub open spec fn split_segments(s: Seq<char>) -> Seq<Seq<char>>
    decreases s.len(),
    via split_segments_decreases
{
    if s.len() == 0 {
        Seq::empty()
    } else if s[0] == '/' {
        split_segments(s.skip(1))
    } else {
        seq![s.take(run_len(s) as int)] + split_segments(s.skip(run_len(s) as int))
    }
}

#[via_fn]
proof fn split_segments_decreases(s: Seq<char>) {
    if s.len() != 0 && s[0] != '/' {
        lemma_run_len_bounds(s);
        assert(run_len(s) >= 1);
        assert(s.skip(run_len(s) as int).len() < s.len());
    }
}

/// The printed form of a segment list, one leading `/` before each segment.
pub open spec fn segs_string(segs: Seq<Seq<char>>) -> Seq<char>
    decreases segs.len(),
{
    if segs.len() == 0 {
        Seq::empty()
    } else {
        seq!['/'] + segs[0] + segs_string(segs.skip(1))
    }
}

/// The printed form of a segment list without the leading separator.
pub open spec fn rel_segs_string(segs: Seq<Seq<char>>) -> Seq<char> {
    if segs.len() == 0 {
        Seq::empty()
    } else {
        segs[0] + segs_string(segs.skip(1))
    }
}

/// The printed form of a path: `/` for the absolute root, `/a/b` for an
/// absolute path, `a/b` for a relative one.
pub open spec fn path_string(p: PathModel) -> Seq<char> {
    if p.absolute {
        if p.segments.len() == 0 {
            seq!['/']
        } else {
            segs_string(p.segments)
        }
    } else {
        rel_segs_string(p.segments)
    }
}

pub proof fn lemma_run_len_bounds(s: Seq<char>)
    ensures
        run_len(s) <= s.len(),
        forall|m: int| 0 <= m < run_len(s) ==> s[m] != '/',
        run_len(s) < s.len() ==> s[run_len(s) as int] == '/',
    decreases s.len(),
{
    if s.len() == 0 || s[0] == '/' {
    } else {
        lemma_run_len_bounds(s.skip(1));
        assert forall|m: int| 0 <= m < run_len(s) implies s[m] != '/' by {
            if m > 0 {
                assert(s.skip(1)[m - 1] == s[m]);
            }
        }
        if run_len(s) < s.len() {
            assert(s.skip(1)[run_len(s) - 1] == s[run_len(s) as int]);
        }
    }
}

pub proof fn lemma_run_len_exact(s: Seq<char>, k: int)
    requires
        0 <= k <= s.len(),
        forall|m: int| 0 <= m < k ==> s[m] != '/',
        k == s.len() || s[k] == '/',
    ensures
        run_len(s) == k,
    decreases k,
{
    if k == 0 {
    } else {
        assert(s[0] != '/');
        assert forall|m: int| 0 <= m < k - 1 implies s.skip(1)[m] != '/' by {
            assert(s.skip(1)[m] == s[m + 1]);
        }
        if k < s.len() {
            assert(s.skip(1)[k - 1] == s[k]);
        }
        lemma_run_len_exact(s.skip(1), k - 1);
    }
}

/// Every segment that parsing produces is well-formed.
pub proof fn lemma_split_segments_wf(s: Seq<char>)
    ensures
        segs_wf(split_segments(s)),
    decreases s.len(),
{
    if s.len() == 0 {
    } else if s[0] == '/' {
        lemma_split_segments_wf(s.skip(1));
    } else {
        lemma_run_len_bounds(s);
        lemma_split_segments_wf(s.skip(run_len(s) as int));
        let head = s.take(run_len(s) as int);
        assert(seg_wf(head)) by {
            assert(forall|i: int| 0 <= i < head.len() ==> head[i] == s[i]);
        }
        assert(forall|i: int|
            1 <= i < split_segments(s).len() ==> split_segments(s)[i] == split_segments(
                s.skip(run_len(s) as int),
            )[i - 1]);
    }
}

/// The model of the absolute root path.
pub open spec fn root_path_model() -> PathModel {
    PathModel { absolute: true, segments: Seq::empty() }
}

/// The model of a path's parent: one segment shorter; the root's parent is
/// the root itself.
pub open spec fn parent_path_model(p: PathModel) -> PathModel {
    PathModel {
        absolute: p.absolute,
        segments: if p.segments.len() > 0 {
            p.segments.drop_last()
        } else {
            p.segments
        },
    }
}

/// Path concatenation: an absolute name replaces the base path entirely,
/// a relative one appends its segments.
pub open spec fn joined_path(base: PathModel, name: Seq<char>) -> PathModel {
    if name.len() > 0 && name[0] == '/' {
        PathModel { absolute: true, segments: split_segments(name) }
    } else {
        PathModel { absolute: base.absolute, segments: base.segments + split_segments(name) }
    }
}

/// A path in the namespace.
pub struct FsPath {
    absolute: bool,
    segments: Vec<String>,
}

impl View for FsPath {
    type V = PathModel;

    closed spec fn view(&self) -> PathModel {
        PathModel { absolute: self.absolute, segments: self.segments.deep_view() }
    }
}

impl Clone for FsPath {
    fn clone(&self) -> (r: Self)
        ensures
            r@ == self@,
    {
        let segments = self.segments.clone();
        proof {
            assert forall|i: int| 0 <= i < segments.len() implies segments.deep_view()[i]
                == self.segments.deep_view()[i] by {
                assert(cloned::<String>(self.segments[i], segments[i]));
            }
            assert(segments.deep_view() =~= self.segments.deep_view());
        }
        FsPath { absolute: self.absolute, segments }
    }
}

impl FsPath {
    /// The invariant every constructor establishes: segments are non-empty
    /// and separator-free.
    pub open spec fn wf(&self) -> bool {
        segs_wf(self@.segments)
    }

    pub open spec fn is_root_spec(&self) -> bool {
        self@.absolute && self@.segments.len() == 0
    }

    /// The absolute root path `/`.
    pub fn root() -> (r: FsPath)
        ensures
            r@ == root_path_model(),
            r.wf(),
    {
        let r = FsPath { absolute: true, segments: Vec::new() };
        proof {
            assert(r@.segments =~= root_path_model().segments);
        }
        r
    }

    pub fn is_absolute(&self) -> (r: bool)
        ensures
            r == self@.absolute,
    {
        self.absolute
    }

    pub fn is_root(&self) -> (r: bool)
        ensures
            r == self.is_root_spec(),
    {
        self.absolute && self.segments.len() == 0
    }

    pub fn segment_count(&self) -> (r: usize)
        ensures
            r == self@.segments.len(),
    {
        self.segments.len()
    }

    /// Parse a string: absolute iff it starts with `/`; segments are the
    /// maximal separator-free runs.
    pub fn from_string(s: &str) -> (r: FsPath)
        ensures
            r@.absolute == (s@.len() > 0 && s@[0] == '/'),
            r@.segments == split_segments(s@),
            r.wf(),
    {
        let n = s.unicode_len();
        let absolute = n > 0 && s.get_char(0) == '/';
        let segments = collect_segments(s, 0);
        proof {
            assert(s@.skip(0) =~= s@);
            lemma_split_segments_wf(s@);
        }
        FsPath { absolute, segments }
    }

    /// The printed form of the path.
    pub fn to_string(&self) -> (r: String)
        ensures
            r@ == path_string(self@),
    {
        let mut out = String::new();
        if self.absolute && self.segments.len() == 0 {
            out.append("/");
            proof {
                reveal_strlit("/");
                assert(out@ =~= path_string(self@));
            }
            return out;
        }
        let ghost segs = self@.segments;
        let mut i: usize = 0;
        while i < self.segments.len()
            invariant
                0 <= i <= segs.len(),
                segs == self@.segments,
                self.absolute == self@.absolute,
                self@.absolute ==> out@ == segs_string(segs.take(i as int)),
                !self@.absolute ==> out@ == rel_segs_string(segs.take(i as int)),
            decreases segs.len() - i,
        {
            if self.absolute || i > 0 {
                out.append("/");
                proof {
                    reveal_strlit("/");
                }
            }
            out.append(self.segments[i].as_str());
            proof {
                if self.absolute {
                    lemma_segs_string_snoc(segs, i as int);
                    assert(out@ =~= segs_string(segs.take(i + 1)));
                } else {
                    lemma_rel_segs_string_snoc(segs, i as int);
                    assert(out@ =~= rel_segs_string(segs.take(i + 1)));
                }
            }
            i = i + 1;
        }
        proof {
            assert(segs.take(segs.len() as int) =~= segs);
        }
        out
    }

    /// Join a name onto this path; see `joined_path`.
    pub fn join(&self, name: &str) -> (r: FsPath)
        ensures
            r@ == joined_path(self@, name@),
            self.wf() ==> r.wf(),
    {
        let mut parsed = FsPath::from_string(name);
        if parsed.absolute {
            proof {
                lemma_split_segments_wf(name@);
            }
            parsed
        } else {
            let mut joined = self.clone();
            let ghost base = self@.segments;
            let ghost added = parsed@.segments;
            let mut k: usize = 0;
            while k < parsed.segments.len()
                invariant
                    0 <= k <= added.len(),
                    added == parsed@.segments,
                    joined.absolute == self@.absolute,
                    joined.segments.deep_view() == base + added.take(k as int),
                decreases added.len() - k,
            {
                let ghost old_dv = joined.segments.deep_view();
                let ghost old_vec = joined.segments@;
                let seg = parsed.segments[k].clone();
                proof {
                    assert(seg@ == added[k as int]);
                }
                joined.segments.push(seg);
                proof {
                    assert(joined.segments@ == old_vec.push(seg));
                    assert(joined.segments@.len() == old_vec.len() + 1);
                    assert(old_dv.len() == old_vec.len());
                    assert(old_dv.len() == base.len() + k);
                    let dv = joined.segments.deep_view();
                    let rhs = base + added.take(k + 1);
                    assert forall|i: int| 0 <= i < dv.len() implies dv[i] == rhs[i] by {
                        if i < old_dv.len() {
                            assert(dv[i] == old_dv[i]);
                            assert(old_dv[i] == (base + added.take(k as int))[i]);
                            if i < base.len() {
                                assert(rhs[i] == base[i]);
                                assert((base + added.take(k as int))[i] == base[i]);
                            } else {
                                assert((base + added.take(k as int))[i] == added.take(
                                    k as int,
                                )[i - base.len()]);
                                assert(added.take(k as int)[i - base.len()] == added[i
                                    - base.len()]);
                                assert(rhs[i] == added.take(k + 1)[i - base.len()]);
                                assert(added.take(k + 1)[i - base.len()] == added[i - base.len()]);
                            }
                        } else {
                            assert(dv[i] == seg@);
                            assert(rhs[i] == added.take(k + 1)[k as int]);
                        }
                    }
                    assert(dv.len() == joined.segments@.len());
                    assert(joined.segments@.len() == base.len() + k + 1);
                    assert(rhs.len() == base.len() + k + 1);
                    assert(joined.segments.deep_view() =~= base + added.take(k + 1));
                }
                k = k + 1;
            }
            proof {
                assert(added.take(added.len() as int) =~= added);
                lemma_split_segments_wf(name@);
                if self.wf() {
                    assert forall|i: int| 0 <= i < (base + added).len() implies seg_wf(
                        #[trigger] (base + added)[i],
                    ) by {
                        if i < base.len() {
                            assert((base + added)[i] == base[i]);
                        } else {
                            assert((base + added)[i] == added[i - base.len()]);
                        }
                    }
                }
            }
            joined
        }
    }

    /// The parent path: one segment shorter; the parent of the root (or of
    /// any empty path) is itself.
    pub fn parent(&self) -> (r: FsPath)
        ensures
            r@ == parent_path_model(self@),
            self.wf() ==> r.wf(),
    {
        let mut r = self.clone();
        if r.segments.len() > 0 {
            r.segments.pop();
            proof {
                assert(r.segments.deep_view() =~= self@.segments.drop_last());
            }
        }
        r
    }

    /// The segment names, in order.
    pub fn segments(&self) -> (r: &Vec<String>)
        ensures
            r.deep_view() == self@.segments,
    {
        &self.segments
    }

    /// The same path with its final segment replaced by `name`.
    pub fn replace_last(&self, name: String) -> (r: FsPath)
        requires
            self@.segments.len() > 0,
        ensures
            r@.absolute == self@.absolute,
            r@.segments == self@.segments.update(self@.segments.len() - 1, name@),
    {
        let mut r = self.clone();
        let ghost olds = self@.segments;
        r.segments.pop();
        let ghost popped = r.segments.deep_view();
        proof {
            assert(popped.len() == r.segments@.len());
        }
        r.segments.push(name);
        proof {
            let dv = r.segments.deep_view();
            let target = olds.update(olds.len() - 1, name@);
            assert(dv.len() == target.len());
            assert forall|i: int| 0 <= i < dv.len() implies dv[i] == target[i] by {
                if i < dv.len() - 1 {
                    assert(dv[i] == popped[i]);
                    assert(popped[i] == olds[i]);
                } else {
                    assert(dv[i] == name@);
                }
            }
            assert(dv =~= target);
        }
        r
    }

    /// The final segment, if any.
    pub fn file_name(&self) -> (r: Option<String>)
        ensures
            self@.segments.len() > 0 ==> (r matches Some(s) && s@ == self@.segments.last()),
            self@.segments.len() == 0 ==> r is None,
    {
        if self.segments.len() > 0 {
            let s = self.segments[self.segments.len() - 1].clone();
            proof {
                assert(cloned::<String>(self.segments[self.segments.len() - 1], s));
            }
            Some(s)
        } else {
            None
        }
    }
}

/// The segments of the suffix of `s` that starts at character `i`.
fn collect_segments(s: &str, i: usize) -> (r: Vec<String>)
    requires
        i <= s@.len(),
    ensures
        r.deep_view() == split_segments(s@.skip(i as int)),
    decreases s@.len() - i,
{
    let n = s.unicode_len();
    if i == n {
        let r = Vec::<String>::new();
        proof {
            assert(r.deep_view() =~= split_segments(s@.skip(i as int)));
        }
        r
    } else if s.get_char(i) == '/' {
        let r = collect_segments(s, i + 1);
        proof {
            assert(s@.skip(i as int).skip(1) =~= s@.skip(i + 1));
        }
        r
    } else {
        let ghost suffix = s@.skip(i as int);
        let mut j: usize = i;
        while j < n && s.get_char(j) != '/'
            invariant
                i <= j <= n,
                n == s@.len(),
                i < s@.len(),
                forall|m: int| i <= m < j ==> s@[m] != '/',
            decreases n - j,
        {
            j = j + 1;
        }
        proof {
            assert forall|m: int| 0 <= m < j - i implies suffix[m] != '/' by {
                assert(suffix[m] == s@[i + m]);
            }
            if j < n {
                assert(suffix[j - i] == s@[j as int]);
            }
            lemma_run_len_exact(suffix, j - i);
        }
        let seg_str = s.substring_char(i, j);
        let seg = String::from_str(seg_str);
        let mut rest = collect_segments(s, j);
        rest.insert(0, seg);
        proof {
            assert(seg@ =~= suffix.take(run_len(suffix) as int));
            assert(suffix.skip(run_len(suffix) as int) =~= s@.skip(j as int));
            assert(rest.deep_view() =~= seq![suffix.take(run_len(suffix) as int)]
                + split_segments(s@.skip(j as int)));
        }
        rest
    }
}

proof fn lemma_segs_string_snoc(segs: Seq<Seq<char>>, i: int)
    requires
        0 <= i < segs.len(),
    ensures
        segs_string(segs.take(i + 1)) == segs_string(segs.take(i)) + seq!['/'] + segs[i],
    decreases i,
{
    let a = segs.take(i + 1);
    let b = segs.take(i);
    if i == 0 {
        assert(a.skip(1) =~= Seq::<Seq<char>>::empty());
        assert(a.len() == 1);
        assert(segs_string(a) == seq!['/'] + a[0] + segs_string(a.skip(1)));
        assert(segs_string(a.skip(1)) == Seq::<char>::empty());
        assert(b.len() == 0);
        assert(segs_string(b) == Seq::<char>::empty());
        assert(a[0] == segs[0]);
        assert(segs_string(a) =~= segs_string(b) + seq!['/'] + segs[0]);
    } else {
        lemma_segs_string_snoc(segs.skip(1), i - 1);
        assert(a.skip(1) =~= segs.skip(1).take(i));
        assert(b.skip(1) =~= segs.skip(1).take(i - 1));
        assert(segs.skip(1)[i - 1] == segs[i]);
        assert(segs_string(a) == seq!['/'] + a[0] + segs_string(segs.skip(1).take(i)));
        assert(segs_string(b) == seq!['/'] + b[0] + segs_string(segs.skip(1).take(i - 1)));
        assert(segs_string(a) =~= segs_string(b) + seq!['/'] + segs[i]);
    }
}

proof fn lemma_rel_segs_string_snoc(segs: Seq<Seq<char>>, i: int)
    requires
        0 <= i < segs.len(),
    ensures
        i == 0 ==> rel_segs_string(segs.take(1)) == rel_segs_string(segs.take(0)) + segs[0],
        i > 0 ==> rel_segs_string(segs.take(i + 1)) == rel_segs_string(segs.take(i)) + seq!['/']
            + segs[i],
{
    let a = segs.take(i + 1);
    let b = segs.take(i);
    if i == 0 {
        assert(a.skip(1) =~= Seq::<Seq<char>>::empty());
        assert(rel_segs_string(a) =~= rel_segs_string(b) + segs[0]);
    } else {
        lemma_segs_string_snoc(segs.skip(1), i - 1);
        assert(a.skip(1) =~= segs.skip(1).take(i));
        assert(b.skip(1) =~= segs.skip(1).take(i - 1));
        assert(segs.skip(1)[i - 1] == segs[i]);
        assert(rel_segs_string(a) == a[0] + segs_string(segs.skip(1).take(i)));
        assert(rel_segs_string(b) == b[0] + segs_string(segs.skip(1).take(i - 1)));
        assert(rel_segs_string(a) =~= rel_segs_string(b) + seq!['/'] + segs[i]);
    }
}

/// Printing well-formed segments and parsing the result gives them back.
pub proof fn lemma_segs_string_parse(segs: Seq<Seq<char>>)
    requires
        segs_wf(segs),
    ensures
        split_segments(segs_string(segs)) == segs,
        segs.len() > 0 ==> segs_string(segs).len() > 0 && segs_string(segs)[0] == '/',
    decreases segs.len(),
{
    if segs.len() == 0 {
        assert(segs_string(segs).len() == 0);
        assert(split_segments(segs_string(segs)) =~= segs);
    } else {
        let s0 = segs[0];
        let tail = segs_string(segs.skip(1));
        let s = segs_string(segs);
        assert(s == seq!['/'] + s0 + tail);
        assert(s[0] == '/');
        assert forall|i: int| 0 <= i < segs.skip(1).len() implies seg_wf(
            #[trigger] segs.skip(1)[i],
        ) by {
            assert(segs.skip(1)[i] == segs[i + 1]);
        }
        lemma_segs_string_parse(segs.skip(1));
        let rest = s0 + tail;
        assert(s.skip(1) =~= rest);
        assert(seg_wf(s0));
        assert forall|m: int| 0 <= m < s0.len() implies rest[m] != '/' by {
            assert(rest[m] == s0[m]);
        }
        if segs.skip(1).len() > 0 {
            assert(rest[s0.len() as int] == tail[0]);
            assert(tail[0] == '/');
        }
        lemma_run_len_exact(rest, s0.len() as int);
        assert(rest.take(s0.len() as int) =~= s0);
        assert(rest.skip(s0.len() as int) =~= tail);
        assert(split_segments(s) == split_segments(rest));
        assert(split_segments(rest) == seq![s0] + split_segments(tail));
        assert(split_segments(s) =~= segs);
    }
}

/// The root path of every namespace.
pub fn root_path() -> (r: FsPath)
    ensures
        r@ == root_path_model(),
        r.wf(),
{
    FsPath::root()
}

/// Whether two strings hold the same characters.
pub(crate) fn str_eq(a: &str, b: &str) -> (r: bool)
    ensures
        r == (a@ == b@),
{
    let x = a.to_owned();
    let y = b.to_owned();
    x == y
}

/// Whether a path is absolute.
pub fn is_absolute(path: &FsPath) -> (r: bool)
    ensures
        r == path@.absolute,
{
    path.is_absolute()
}

} // verus!
