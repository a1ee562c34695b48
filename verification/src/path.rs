//! Paths as lists of segments.
//!
//! A path is either absolute or relative and consists of the names that lead
//! from its start to its end. Its text writes the segments with `/` between
//! them, and with a leading `/` when the path is absolute.

use vstd::prelude::*;

verus! {

/// What a path is: whether it starts at the root, and the names along it.
pub struct PathModel {
    pub absolute: bool,
    pub segments: Seq<Seq<char>>,
}

/// A name that may stand in a path: not empty, and free of separators.
pub open spec fn valid_segment(name: Seq<char>) -> bool {
    name.len() > 0 && forall|i: int| 0 <= i < name.len() ==> name[i] != '/'
}

/// The segments written one after another with a separator between neighbours.
pub open spec fn join_segments(segments: Seq<Seq<char>>) -> Seq<char>
    decreases segments.len(),
{
    if segments.len() == 0 {
        Seq::empty()
    } else if segments.len() == 1 {
        segments[0]
    } else {
        join_segments(segments.drop_last()) + seq!['/'] + segments.last()
    }
}

/// Progress of reading a text from left to right: the segments that a
/// separator has closed, and the characters read since the last separator.
pub struct ScanState {
    pub closed: Seq<Seq<char>>,
    pub open: Seq<char>,
}

/// The closed segments, with the open one added unless it is empty.
pub open spec fn close(state: ScanState) -> Seq<Seq<char>> {
    if state.open.len() > 0 {
        state.closed.push(state.open)
    } else {
        state.closed
    }
}

/// Reading one more character: a separator closes the open segment, any
/// other character extends it.
pub open spec fn scan_step(state: ScanState, c: char) -> ScanState {
    if c == '/' {
        ScanState { closed: close(state), open: Seq::empty() }
    } else {
        ScanState { closed: state.closed, open: state.open.push(c) }
    }
}

/// The state after reading all of `text`.
pub open spec fn scan(text: Seq<char>) -> ScanState
    decreases text.len(),
{
    if text.len() == 0 {
        ScanState { closed: Seq::empty(), open: Seq::empty() }
    } else {
        scan_step(scan(text.drop_last()), text.last())
    }
}

/// The non-empty pieces of `text` between separators, in order.
pub open spec fn split_segments(text: Seq<char>) -> Seq<Seq<char>> {
    close(scan(text))
}

/// The path that a text denotes. Repeated and trailing separators are ignored.
pub open spec fn parse_text(text: Seq<char>) -> PathModel {
    PathModel {
        absolute: text.len() > 0 && text[0] == '/',
        segments: split_segments(text),
    }
}

impl PathModel {
    /// Every segment is a valid name.
    pub open spec fn wf(self) -> bool {
        forall|i: int| 0 <= i < self.segments.len() ==> valid_segment(#[trigger] self.segments[i])
    }

    /// The path without its last segment; a path without segments is its own
    /// parent.
    pub open spec fn parent(self) -> PathModel {
        if self.segments.len() > 0 {
            PathModel { absolute: self.absolute, segments: self.segments.drop_last() }
        } else {
            self
        }
    }

    /// The parent taken `levels` times.
    pub open spec fn ancestor(self, levels: nat) -> PathModel
        decreases levels,
    {
        if levels == 0 {
            self
        } else {
            self.ancestor((levels - 1) as nat).parent()
        }
    }

    /// `other` resolved against this path: an absolute `other` stands for
    /// itself, a relative one is appended.
    pub open spec fn join(self, other: PathModel) -> PathModel {
        if other.absolute {
            other
        } else {
            PathModel { absolute: self.absolute, segments: self.segments + other.segments }
        }
    }

    /// This path extended by one name.
    pub open spec fn child(self, name: Seq<char>) -> PathModel {
        PathModel { absolute: self.absolute, segments: self.segments.push(name) }
    }

    /// The text of the path.
    pub open spec fn text(self) -> Seq<char> {
        if self.absolute {
            seq!['/'] + join_segments(self.segments)
        } else {
            join_segments(self.segments)
        }
    }
}

/// The views of a list of strings.
pub open spec fn text_views(items: Seq<String>) -> Seq<Seq<char>> {
    Seq::new(items.len(), |i: int| items[i]@)
}

/// A path in the file system, to a directory or to a file.
#[derive(Debug, PartialEq, Eq)]
pub struct FsPath {
    pub absolute: bool,
    pub segments: Vec<String>,
}

impl View for FsPath {
    type V = PathModel;

    open spec fn view(&self) -> PathModel {
        PathModel { absolute: self.absolute, segments: text_views(self.segments@) }
    }
}

/// A copy of a list of strings.
pub fn clone_texts(items: &Vec<String>) -> (copy: Vec<String>)
    ensures
        text_views(copy@) == text_views(items@),
{
    let mut copy: Vec<String> = Vec::new();
    let mut i: usize = 0;
    while i < items.len()
        invariant
            i <= items.len(),
            copy.len() == i,
            forall|j: int| 0 <= j < i ==> copy@[j]@ == items@[j]@,
        decreases items.len() - i,
    {
        copy.push(items[i].clone());
        i += 1;
    }
    assert(text_views(copy@) =~= text_views(items@));
    copy
}

/// Whether two lists of strings hold the same texts in the same order.
pub fn same_texts(left: &Vec<String>, right: &Vec<String>) -> (same: bool)
    ensures
        same == (text_views(left@) == text_views(right@)),
{
    if left.len() != right.len() {
        assert(text_views(left@).len() != text_views(right@).len());
        return false;
    }
    let mut i: usize = 0;
    while i < left.len()
        invariant
            i <= left.len(),
            left.len() == right.len(),
            forall|j: int| 0 <= j < i ==> left@[j]@ == right@[j]@,
        decreases left.len() - i,
    {
        if left[i] != right[i] {
            assert(text_views(left@)[i as int] != text_views(right@)[i as int]);
            return false;
        }
        i += 1;
    }
    assert(text_views(left@) =~= text_views(right@));
    true
}

impl Clone for FsPath {
    fn clone(&self) -> (copy: Self)
        ensures
            copy@ == self@,
    {
        FsPath { absolute: self.absolute, segments: clone_texts(&self.segments) }
    }
}

/// The views of a list of paths.
pub open spec fn path_views(paths: Seq<FsPath>) -> Seq<PathModel> {
    Seq::new(paths.len(), |i: int| paths[i]@)
}

/// A copy of a list of paths.
pub fn clone_paths(paths: &Vec<FsPath>) -> (copy: Vec<FsPath>)
    ensures
        path_views(copy@) == path_views(paths@),
{
    let mut copy: Vec<FsPath> = Vec::new();
    let mut i: usize = 0;
    while i < paths.len()
        invariant
            i <= paths.len(),
            copy.len() == i,
            forall|j: int| 0 <= j < i ==> copy@[j]@ == paths@[j]@,
        decreases paths.len() - i,
    {
        copy.push(paths[i].clone());
        i += 1;
    }
    assert(path_views(copy@) =~= path_views(paths@));
    copy
}

impl FsPath {
    /// The path with the given segments.
    pub fn new(absolute: bool, segments: Vec<String>) -> (path: FsPath)
        ensures
            path@ == (PathModel { absolute, segments: text_views(segments@) }),
    {
        FsPath { absolute, segments }
    }

    /// Reads a path from its text.
    pub fn parse(text: &str) -> (path: FsPath)
        ensures
            path@ == parse_text(text@),
    {
        let n = text.unicode_len();
        let mut segments: Vec<String> = Vec::new();
        let mut start: usize = 0;
        let mut i: usize = 0;
        proof {
            assert(text@.take(0) =~= Seq::<char>::empty());
            assert(text_views(segments@) =~= Seq::<Seq<char>>::empty());
            assert(text@.subrange(0, 0) =~= Seq::<char>::empty());
        }
        while i < n
            invariant
                n == text@.len(),
                start <= i <= n,
                scan(text@.take(i as int)) == (ScanState {
                    closed: text_views(segments@),
                    open: text@.subrange(start as int, i as int),
                }),
            decreases n - i,
        {
            let c = text.get_char(i);
            proof {
                let before = text@.take(i as int);
                let after = text@.take(i + 1);
                assert(after.drop_last() =~= before);
                assert(after.last() == c);
            }
            if c == '/' {
                if start < i {
                    let ghost closed = text_views(segments@);
                    segments.push(String::from_str(text.substring_char(start, i)));
                    assert(text_views(segments@) =~= closed.push(
                        text@.subrange(start as int, i as int),
                    ));
                }
                start = i + 1;
                assert(text@.subrange(start as int, i + 1) =~= Seq::<char>::empty());
            } else {
                assert(text@.subrange(start as int, i + 1) =~= text@.subrange(
                    start as int,
                    i as int,
                ).push(c));
            }
            i += 1;
        }
        assert(text@.take(n as int) =~= text@);
        if start < n {
            let ghost closed = text_views(segments@);
            segments.push(String::from_str(text.substring_char(start, n)));
            assert(text_views(segments@) =~= closed.push(text@.subrange(start as int, n as int)));
        }
        let absolute = n > 0 && text.get_char(0) == '/';
        FsPath { absolute, segments }
    }

    /// Writes the path as text.
    pub fn render(&self) -> (text: String)
        ensures
            text@ == self@.text(),
    {
        let mut text = String::new();
        proof {
            reveal_strlit("/");
        }
        if self.absolute {
            text.append("/");
        }
        let ghost prefix = text@;
        let ghost names = text_views(self.segments@);
        assert(prefix =~= if self.absolute {
            seq!['/']
        } else {
            Seq::<char>::empty()
        });
        let mut i: usize = 0;
        while i < self.segments.len()
            invariant
                i <= self.segments.len(),
                names == text_views(self.segments@),
                "/"@ == seq!['/'],
                text@ == prefix + join_segments(names.take(i as int)),
            decreases self.segments.len() - i,
        {
            proof {
                assert(names.take(i + 1).drop_last() =~= names.take(i as int));
                assert(names.take(i + 1).last() == self.segments@[i as int]@);
                if i == 0 {
                    assert(join_segments(names.take(0)) =~= Seq::<char>::empty());
                }
            }
            if i > 0 {
                text.append("/");
            }
            text.append(self.segments[i].as_str());
            i += 1;
            assert(text@ =~= prefix + join_segments(names.take(i as int)));
        }
        assert(names.take(i as int) =~= names);
        assert(text@ =~= self@.text());
        text
    }

    /// Whether the path has a last segment to drop.
    pub fn has_parent(&self) -> (has: bool)
        ensures
            has == (self@.segments.len() > 0),
    {
        self.segments.len() > 0
    }

    /// Drops the last segment, if there is one, and says whether it did.
    pub fn pop(&mut self) -> (moved: bool)
        ensures
            final(self)@ == old(self)@.parent(),
            moved == (old(self)@.segments.len() > 0),
    {
        let ghost before = text_views(self.segments@);
        let dropped = self.segments.pop();
        assert(text_views(self.segments@) =~= if before.len() > 0 {
            before.drop_last()
        } else {
            before
        });
        dropped.is_some()
    }

    /// The path without its last segment, or `None` for a path without
    /// segments.
    pub fn parent(&self) -> (parent: Option<FsPath>)
        ensures
            self@.segments.len() == 0 ==> parent is None,
            self@.segments.len() > 0 ==> parent is Some && parent->Some_0@ == self@.parent(),
    {
        if self.segments.len() == 0 {
            None
        } else {
            let mut parent = self.clone();
            parent.pop();
            Some(parent)
        }
    }

    /// `other` resolved against this path.
    pub fn join(&self, other: &FsPath) -> (joined: FsPath)
        ensures
            joined@ == self@.join(other@),
    {
        if other.absolute {
            other.clone()
        } else {
            let mut segments = clone_texts(&self.segments);
            let mut tail = clone_texts(&other.segments);
            let ghost head = segments@;
            let ghost rest = tail@;
            segments.append(&mut tail);
            assert(text_views(segments@) =~= text_views(head) + text_views(rest));
            FsPath { absolute: self.absolute, segments }
        }
    }

    /// This path extended by one name.
    pub fn child(&self, name: &str) -> (extended: FsPath)
        ensures
            extended@ == self@.child(name@),
    {
        let mut segments = clone_texts(&self.segments);
        let ghost head = segments@;
        segments.push(String::from_str(name));
        assert(text_views(segments@) =~= text_views(head).push(name@));
        FsPath { absolute: self.absolute, segments }
    }

    /// Whether two paths are the same path.
    pub fn same_as(&self, other: &FsPath) -> (same: bool)
        ensures
            same == (self@ == other@),
    {
        self.absolute == other.absolute && same_texts(&self.segments, &other.segments)
    }
}

/// Taking the parent `levels` times drops that many segments from the end,
/// as far as there are any.
pub proof fn law_ancestor_drops_segments(path: PathModel, levels: nat)
    ensures
        path.ancestor(levels).absolute == path.absolute,
        path.ancestor(levels).segments == path.segments.take(
            if levels <= path.segments.len() {
                path.segments.len() - levels
            } else {
                0
            },
        ),
    decreases levels,
{
    if levels == 0 {
        assert(path.segments.take(path.segments.len() as int) =~= path.segments);
    } else {
        law_ancestor_drops_segments(path, (levels - 1) as nat);
        let before = path.ancestor((levels - 1) as nat);
        if before.segments.len() > 0 {
            assert(before.segments.drop_last() =~= path.segments.take(
                path.segments.len() - levels,
            ));
        } else {
            assert(before.segments =~= path.segments.take(0));
        }
    }
}

/// Reading a text that ends in a separator-free run extends the open segment
/// by that run.
proof fn lemma_scan_run(head: Seq<char>, run: Seq<char>)
    requires
        forall|i: int| 0 <= i < run.len() ==> run[i] != '/',
    ensures
        scan(head + run) == (ScanState {
            closed: scan(head).closed,
            open: scan(head).open + run,
        }),
    decreases run.len(),
{
    if run.len() == 0 {
        assert(head + run =~= head);
        assert(scan(head).open + run =~= scan(head).open);
    } else {
        lemma_scan_run(head, run.drop_last());
        assert((head + run).drop_last() =~= head + run.drop_last());
        assert((head + run).last() == run.last());
        assert((scan(head).open + run.drop_last()).push(run.last()) =~= scan(head).open + run);
    }
}

/// Reading one separator after `head` closes the open segment.
proof fn lemma_scan_separator(head: Seq<char>)
    ensures
        scan(head + seq!['/']) == (ScanState {
            closed: close(scan(head)),
            open: Seq::empty(),
        }),
{
    let text = head + seq!['/'];
    assert(text.drop_last() =~= head);
    assert(text.last() == '/');
}

/// Reading the joined text of valid segments after a point where no segment
/// is open leaves the last of them open and the others closed.
proof fn lemma_scan_joined(head: Seq<char>, segments: Seq<Seq<char>>)
    requires
        scan(head).open.len() == 0,
        segments.len() > 0,
        forall|i: int| 0 <= i < segments.len() ==> valid_segment(#[trigger] segments[i]),
    ensures
        scan(head + join_segments(segments)) == (ScanState {
            closed: scan(head).closed + segments.drop_last(),
            open: segments.last(),
        }),
    decreases segments.len(),
{
    let last = segments.last();
    assert(valid_segment(last));
    if segments.len() == 1 {
        lemma_scan_run(head, last);
        assert(scan(head).open + last =~= last);
        assert(scan(head).closed + segments.drop_last() =~= scan(head).closed);
    } else {
        let front = segments.drop_last();
        assert forall|i: int| 0 <= i < front.len() implies valid_segment(#[trigger] front[i]) by {
            assert(front[i] == segments[i]);
        }
        lemma_scan_joined(head, front);
        let read_front = head + join_segments(front);
        lemma_scan_separator(read_front);
        assert(valid_segment(front.last()));
        let read_sep = read_front + seq!['/'];
        assert(scan(read_sep).closed =~= scan(head).closed + front);
        lemma_scan_run(read_sep, last);
        assert(head + join_segments(segments) =~= read_sep + last);
        assert(scan(read_sep).open + last =~= last);
    }
}

/// While reading, every closed segment is a valid name and the open segment
/// holds no separator.
proof fn lemma_scan_valid(text: Seq<char>)
    ensures
        forall|i: int|
            0 <= i < scan(text).closed.len() ==> valid_segment(#[trigger] scan(text).closed[i]),
        forall|i: int| 0 <= i < scan(text).open.len() ==> scan(text).open[i] != '/',
    decreases text.len(),
{
    if text.len() > 0 {
        lemma_scan_valid(text.drop_last());
        let before = scan(text.drop_last());
        let after = scan(text);
        if text.last() == '/' {
            assert forall|i: int| 0 <= i < after.closed.len() implies valid_segment(
                #[trigger] after.closed[i],
            ) by {
                if i < before.closed.len() {
                    assert(after.closed[i] == before.closed[i]);
                } else {
                    assert(after.closed[i] == before.open);
                }
            }
        } else {
            assert forall|i: int| 0 <= i < after.open.len() implies after.open[i] != '/' by {
                if i < before.open.len() {
                    assert(after.open[i] == before.open[i]);
                }
            }
        }
    }
}

/// Every text denotes a well-formed path.
pub proof fn law_parse_well_formed(text: Seq<char>)
    ensures
        parse_text(text).wf(),
{
    lemma_scan_valid(text);
}

/// Reading the text of a well-formed path gives the path back.
pub proof fn law_parse_inverts_text(path: PathModel)
    requires
        path.wf(),
    ensures
        parse_text(path.text()) == path,
{
    let empty = Seq::<char>::empty();
    let slash = seq!['/'];
    if path.absolute {
        lemma_scan_separator(empty);
        assert(empty + slash =~= slash);
        assert(scan(slash).closed =~= Seq::<Seq<char>>::empty());
        if path.segments.len() > 0 {
            lemma_scan_joined(slash, path.segments);
            assert(valid_segment(path.segments.last()));
            assert(split_segments(path.text()) =~= path.segments);
        } else {
            assert(path.text() =~= slash);
            assert(split_segments(path.text()) =~= path.segments);
        }
        assert(path.text()[0] == '/');
    } else {
        if path.segments.len() > 0 {
            lemma_scan_joined(empty, path.segments);
            assert(empty + join_segments(path.segments) =~= path.text());
            assert(valid_segment(path.segments.last()));
            assert(split_segments(path.text()) =~= path.segments);
            lemma_joined_starts_with_name(path.segments);
            assert(valid_segment(path.segments[0]));
        } else {
            assert(split_segments(path.text()) =~= path.segments);
        }
    }
}

/// The joined text of at least one segment begins with the first segment.
proof fn lemma_joined_starts_with_name(segments: Seq<Seq<char>>)
    requires
        segments.len() > 0,
        segments[0].len() > 0,
    ensures
        join_segments(segments).len() > 0,
        join_segments(segments)[0] == segments[0][0],
    decreases segments.len(),
{
    if segments.len() > 1 {
        lemma_joined_starts_with_name(segments.drop_last());
    }
}

} // verus!
