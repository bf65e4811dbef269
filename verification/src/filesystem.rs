//! The namespace store: a tree of directories and files addressed by
//! absolute paths. Mutating operations create every missing intermediate
//! directory on the way down; lookup never creates anything.

use vstd::prelude::*;
use vstd::string::StrSliceExecFns;
use vstd::string::StringExecFns;

use crate::fs_path::FsPath;
use crate::fs_path::PathModel;

verus! {

/// The platform message identifier a file's content lives under.
pub type MessageId = i32;

/// A node of the namespace tree.
pub enum FileSystemNode {
    File { message_id: MessageId, created_at: u64, size: u64, mime_type: Option<String> },
    Directory { created_at: u64, nodes: FileSystemNodes },
}

/// The children of a directory: an association list from segment name to
/// node, kept sorted by name and free of duplicates.
pub type FileSystemNodes = Vec<(String, FileSystemNode)>;

/// Mathematical model of a node. Creation times are abstracted away: no
/// operation's result depends on them.
pub ghost enum NodeModel {
    File { message_id: int, size: int, mime_type: Option<Seq<char>> },
    Directory { children: Seq<(Seq<char>, NodeModel)> },
}

/// Errors the store can report.
pub ghost enum FsErr {
    NotAbsolute,
    NotFound,
    NotADirectory,
    ParentNotDirectory,
    InvalidPath,
    NodeNotFound,
}

/// The message each error is reported with.
pub open spec fn err_msg(e: FsErr) -> Seq<char> {
    match e {
        FsErr::NotAbsolute => "Path must be absolute"@,
        FsErr::NotFound => "Path not found"@,
        FsErr::NotADirectory => "Not a directory"@,
        FsErr::ParentNotDirectory => "Parent is not a directory"@,
        FsErr::InvalidPath => "Invalid path"@,
        FsErr::NodeNotFound => "Node not found"@,
    }
}

/// Strict lexicographic order on segment names, by character value.
pub open spec fn seq_lt(a: Seq<char>, b: Seq<char>) -> bool
    decreases a.len(),
{
    if b.len() == 0 {
        false
    } else if a.len() == 0 {
        true
    } else if a[0] != b[0] {
        (a[0] as int) < (b[0] as int)
    } else {
        seq_lt(a.skip(1), b.skip(1))
    }
}

pub open spec fn children_model(s: Seq<(String, FileSystemNode)>) -> Seq<(Seq<char>, NodeModel)>
    decreases s,
{
    if s.len() == 0 {
        Seq::empty()
    } else {
        seq![(s[0].0@, node_model(s[0].1))] + children_model(s.skip(1))
    }
}

/// The model of a node: its metadata, and its children recursively.
pub open spec fn node_model(n: FileSystemNode) -> NodeModel
    decreases n,
{
    match n {
        FileSystemNode::File { message_id, created_at, size, mime_type } => NodeModel::File {
            message_id: message_id as int,
            size: size as int,
            mime_type: mime_type.deep_view(),
        },
        FileSystemNode::Directory { created_at, nodes } => NodeModel::Directory {
            children: children_model(nodes@),
        },
    }
}

impl View for FileSystemNode {
    type V = NodeModel;

    open spec fn view(&self) -> NodeModel {
        node_model(*self)
    }
}

/// Keys of an association list, in stored order.
pub open spec fn keys_of(s: Seq<(Seq<char>, NodeModel)>) -> Seq<Seq<char>> {
    Seq::new(s.len(), |i: int| s[i].0)
}

/// Strictly ascending keys: sorted, hence also unique.
pub open spec fn sorted_keys(s: Seq<(Seq<char>, NodeModel)>) -> bool {
    forall|i: int, j: int| 0 <= i < j < s.len() ==> seq_lt(s[i].0, s[j].0)
}

pub open spec fn children_all_wf(s: Seq<(Seq<char>, NodeModel)>) -> bool
    decreases s,
{
    if s.len() == 0 {
        true
    } else {
        model_wf(s[0].1) && children_all_wf(s.skip(1))
    }
}

/// Well-formedness of a tree: every directory's children are sorted by
/// name, and well-formed in turn.
pub open spec fn model_wf(m: NodeModel) -> bool
    decreases m,
{
    match m {
        NodeModel::File { .. } => true,
        NodeModel::Directory { children } => sorted_keys(children) && children_all_wf(children),
    }
}

/// The model of a freshly created, empty directory.
pub open spec fn empty_dir() -> NodeModel {
    NodeModel::Directory { children: Seq::empty() }
}

/// First binding of a name in an association list.
pub open spec fn lookup(s: Seq<(Seq<char>, NodeModel)>, name: Seq<char>) -> Option<NodeModel>
    decreases s.len(),
{
    if s.len() == 0 {
        None
    } else if s[0].0 == name {
        Some(s[0].1)
    } else {
        lookup(s.skip(1), name)
    }
}

/// Bind a name in an association list, keeping it sorted: replaces an
/// existing binding, otherwise inserts at the ordered position.
pub open spec fn insert_child(
    s: Seq<(Seq<char>, NodeModel)>,
    name: Seq<char>,
    node: NodeModel,
) -> Seq<(Seq<char>, NodeModel)>
    decreases s.len(),
{
    if s.len() == 0 {
        seq![(name, node)]
    } else if seq_lt(name, s[0].0) {
        seq![(name, node)] + s
    } else if s[0].0 == name {
        seq![(name, node)] + s.skip(1)
    } else {
        seq![s[0]] + insert_child(s.skip(1), name, node)
    }
}

/// Drop the binding of a name from an association list, if any.
pub open spec fn remove_child(s: Seq<(Seq<char>, NodeModel)>, name: Seq<char>) -> Seq<
    (Seq<char>, NodeModel),
>
    decreases s.len(),
{
    if s.len() == 0 {
        s
    } else if s[0].0 == name {
        s.skip(1)
    } else {
        seq![s[0]] + remove_child(s.skip(1), name)
    }
}

/// Resolution of a path under a node: walks segment by segment; a file met
/// before the path is exhausted is returned itself, with the trailing
/// segments ignored.
pub open spec fn resolve_at(m: NodeModel, segs: Seq<Seq<char>>) -> Result<NodeModel, FsErr>
    decreases segs.len(),
{
    if segs.len() == 0 {
        Ok(m)
    } else {
        match m {
            NodeModel::File { .. } => Ok(m),
            NodeModel::Directory { children } => match lookup(children, segs[0]) {
                Option::None => Err(FsErr::NotFound),
                Option::Some(c) => resolve_at(c, segs.skip(1)),
            },
        }
    }
}

/// Insertion of a node at a path under a node, creating every missing
/// intermediate directory; fails if an existing intermediate is a file.
/// On failure nothing has been created.
pub open spec fn insert_at(m: NodeModel, segs: Seq<Seq<char>>, leaf: NodeModel) -> Result<
    NodeModel,
    FsErr,
>
    decreases segs.len(),
{
    match m {
        NodeModel::File { .. } => Err(FsErr::ParentNotDirectory),
        NodeModel::Directory { children } => {
            if segs.len() <= 1 {
                Ok(NodeModel::Directory { children: insert_child(children, segs[0], leaf) })
            } else {
                let child = match lookup(children, segs[0]) {
                    Option::Some(c) => c,
                    Option::None => empty_dir(),
                };
                match insert_at(child, segs.skip(1), leaf) {
                    Ok(sub) => Ok(
                        NodeModel::Directory { children: insert_child(children, segs[0], sub) },
                    ),
                    Err(e) => Err(e),
                }
            }
        },
    }
}

/// Removal of the node at a path. The walk to the parent creates missing
/// intermediate directories, so a removal that fails with `NodeNotFound`
/// can still have extended the tree; the resulting tree is therefore part
/// of the outcome in every case.
pub open spec fn remove_at(m: NodeModel, segs: Seq<Seq<char>>) -> (Result<NodeModel, FsErr>,
    NodeModel)
    decreases segs.len(),
{
    match m {
        NodeModel::File { .. } => (Err(FsErr::ParentNotDirectory), m),
        NodeModel::Directory { children } => {
            if segs.len() <= 1 {
                match lookup(children, segs[0]) {
                    Option::None => (Err(FsErr::NodeNotFound), m),
                    Option::Some(c) => (
                        Ok(c),
                        NodeModel::Directory { children: remove_child(children, segs[0]) },
                    ),
                }
            } else {
                let child = match lookup(children, segs[0]) {
                    Option::Some(c) => c,
                    Option::None => empty_dir(),
                };
                if child is File {
                    (Err(FsErr::ParentNotDirectory), m)
                } else {
                    let r = remove_at(child, segs.skip(1));
                    (
                        r.0,
                        NodeModel::Directory { children: insert_child(children, segs[0], r.1) },
                    )
                }
            }
        },
    }
}

/// What `get_node` returns.
pub open spec fn get_node_spec(root: NodeModel, p: PathModel) -> Result<NodeModel, FsErr> {
    if !p.absolute {
        Err(FsErr::NotAbsolute)
    } else {
        resolve_at(root, p.segments)
    }
}

/// What `insert_node` (and so `mkdir` and file creation) does to the tree.
pub open spec fn insert_node_spec(root: NodeModel, p: PathModel, leaf: NodeModel) -> Result<
    NodeModel,
    FsErr,
> {
    if !p.absolute {
        Err(FsErr::NotAbsolute)
    } else if p.segments.len() == 0 {
        Err(FsErr::InvalidPath)
    } else {
        insert_at(root, p.segments, leaf)
    }
}

/// What `remove_node` does: the removed node (or the error), and the tree
/// it leaves behind.
pub open spec fn remove_node_spec(root: NodeModel, p: PathModel) -> (Result<NodeModel, FsErr>,
    NodeModel) {
    if !p.absolute {
        (Err(FsErr::NotAbsolute), root)
    } else if p.segments.len() == 0 {
        (Err(FsErr::InvalidPath), root)
    } else {
        remove_at(root, p.segments)
    }
}

/// Three-way comparison of the suffixes of two strings starting at
/// character `i`: negative, zero or positive as the first orders below,
/// equal to, or above the second.
fn str_cmp_from(a: &str, b: &str, i: usize) -> (r: i8)
    requires
        i <= a@.len(),
        i <= b@.len(),
    ensures
        r == -1 || r == 0 || r == 1,
        r == -1 <==> seq_lt(a@.skip(i as int), b@.skip(i as int)),
        r == 0 <==> a@.skip(i as int) == b@.skip(i as int),
        r == 1 <==> seq_lt(b@.skip(i as int), a@.skip(i as int)),
    decreases a@.len() - i,
{
    let na = a.unicode_len();
    let nb = b.unicode_len();
    let ghost sa = a@.skip(i as int);
    let ghost sb = b@.skip(i as int);
    if i == na && i == nb {
        proof {
            assert(sa =~= sb);
        }
        0
    } else if i == na {
        proof {
            assert(sb.len() > 0);
            assert(sa.len() == 0);
            assert(sa != sb);
        }
        -1
    } else if i == nb {
        proof {
            assert(sa.len() > 0);
            assert(sa != sb);
        }
        1
    } else {
        let ca = a.get_char(i);
        let cb = b.get_char(i);
        proof {
            assert(sa[0] == a@[i as int]);
            assert(sb[0] == b@[i as int]);
        }
        if ca < cb {
            proof {
                assert(sa != sb);
            }
            -1
        } else if cb < ca {
            proof {
                assert(sa != sb);
            }
            1
        } else {
            let r = str_cmp_from(a, b, i + 1);
            proof {
                assert(sa.skip(1) =~= a@.skip(i + 1));
                assert(sb.skip(1) =~= b@.skip(i + 1));
                if a@.skip(i + 1) == b@.skip(i + 1) {
                    assert(sa.len() == sb.len());
                    assert forall|k: int| 0 <= k < sa.len() implies sa[k] == sb[k] by {
                        if k == 0 {
                        } else {
                            assert(sa[k] == sa.skip(1)[k - 1]);
                            assert(sb[k] == sb.skip(1)[k - 1]);
                        }
                    }
                    assert(sa =~= sb);
                }
                if sa == sb {
                    assert(sa.skip(1) == sb.skip(1));
                }
            }
            r
        }
    }
}

pub proof fn lemma_children_model(s: Seq<(String, FileSystemNode)>)
    ensures
        children_model(s).len() == s.len(),
        forall|i: int|
            0 <= i < s.len() ==> #[trigger] children_model(s)[i] == (
                s[i].0@,
                node_model(s[i].1),
            ),
    decreases s,
{
    if s.len() == 0 {
    } else {
        lemma_children_model(s.skip(1));
        assert forall|i: int| 0 <= i < s.len() implies #[trigger] children_model(s)[i] == (
            s[i].0@,
            node_model(s[i].1),
        ) by {
            if i > 0 {
                assert(children_model(s)[i] == children_model(s.skip(1))[i - 1]);
                assert(s.skip(1)[i - 1] == s[i]);
            }
        }
    }
}

/// The order is irreflexive and asymmetric, so distinct keys compare.
pub proof fn lemma_seq_lt_asymmetric(a: Seq<char>, b: Seq<char>)
    ensures
        seq_lt(a, b) ==> !seq_lt(b, a),
        seq_lt(a, b) ==> a != b,
    decreases a.len(),
{
    if a.len() > 0 && b.len() > 0 && a[0] == b[0] {
        lemma_seq_lt_asymmetric(a.skip(1), b.skip(1));
        if seq_lt(a, b) && a == b {
            assert(a.skip(1) == b.skip(1));
        }
    }
}

/// The order is transitive.
pub proof fn lemma_seq_lt_transitive(a: Seq<char>, b: Seq<char>, c: Seq<char>)
    ensures
        seq_lt(a, b) && seq_lt(b, c) ==> seq_lt(a, c),
    decreases a.len(),
{
    if seq_lt(a, b) && seq_lt(b, c) {
        if a.len() > 0 && b.len() > 0 && c.len() > 0 {
            if a[0] == b[0] && b[0] == c[0] {
                lemma_seq_lt_transitive(a.skip(1), b.skip(1), c.skip(1));
            }
        }
    }
}

/// Where a name lands in a sorted association list: every key before `j`
/// orders below `name`. `insert_child` then replaces at `j`, splices in at
/// `j`, or appends.
pub proof fn lemma_insert_child_at(
    s: Seq<(Seq<char>, NodeModel)>,
    name: Seq<char>,
    node: NodeModel,
    j: int,
)
    requires
        0 <= j <= s.len(),
        forall|k: int| 0 <= k < j ==> seq_lt(#[trigger] s[k].0, name),
    ensures
        j < s.len() && s[j].0 == name ==> insert_child(s, name, node) == s.update(j, (name, node)),
        j < s.len() && seq_lt(name, s[j].0) ==> insert_child(s, name, node) == s.take(j) + seq![
            (name, node),
        ] + s.skip(j),
        j == s.len() ==> insert_child(s, name, node) == s + seq![(name, node)],
    decreases j,
{
    if j == 0 {
        if j < s.len() && s[j].0 == name {
            assert(insert_child(s, name, node) =~= s.update(0, (name, node))) by {
                lemma_seq_lt_asymmetric(name, s[0].0);
                lemma_seq_lt_asymmetric(s[0].0, name);
                if seq_lt(name, s[0].0) {
                    lemma_seq_lt_asymmetric(name, s[0].0);
                }
            }
        }
        if j < s.len() && seq_lt(name, s[j].0) {
            lemma_seq_lt_asymmetric(name, s[0].0);
            assert(insert_child(s, name, node) =~= s.take(0) + seq![(name, node)] + s.skip(0));
        }
        if j == s.len() {
            assert(insert_child(s, name, node) =~= s + seq![(name, node)]);
        }
    } else {
        assert(seq_lt(s[0].0, name));
        lemma_seq_lt_asymmetric(s[0].0, name);
        assert forall|k: int| 0 <= k < j - 1 implies seq_lt(#[trigger] s.skip(1)[k].0, name) by {
            assert(s.skip(1)[k] == s[k + 1]);
        }
        lemma_insert_child_at(s.skip(1), name, node, j - 1);
        assert(insert_child(s, name, node) == seq![s[0]] + insert_child(s.skip(1), name, node));
        if j < s.len() && s[j].0 == name {
            assert(s.skip(1)[j - 1] == s[j]);
            assert(insert_child(s, name, node) =~= s.update(j, (name, node)));
        }
        if j < s.len() && seq_lt(name, s[j].0) {
            assert(s.skip(1)[j - 1] == s[j]);
            assert(s.skip(1).take(j - 1) =~= s.take(j).skip(1));
            assert(s.skip(1).skip(j - 1) =~= s.skip(j));
            assert(insert_child(s, name, node) =~= s.take(j) + seq![(name, node)] + s.skip(j));
        }
        if j == s.len() {
            assert(insert_child(s, name, node) =~= s + seq![(name, node)]);
        }
    }
}

/// Where a found name sits in an association list whose earlier keys all
/// differ from it, `lookup` returns that binding; absent everywhere, it
/// returns nothing.
pub proof fn lemma_lookup_at(s: Seq<(Seq<char>, NodeModel)>, name: Seq<char>, j: int)
    requires
        0 <= j <= s.len(),
        forall|k: int| 0 <= k < j ==> (#[trigger] s[k].0) != name,
    ensures
        j < s.len() && s[j].0 == name ==> lookup(s, name) == Some(s[j].1),
        j == s.len() ==> lookup(s, name) is None,
    decreases j,
{
    if j == 0 {
    } else {
        assert forall|k: int| 0 <= k < j - 1 implies (#[trigger] s.skip(1)[k].0) != name by {
            assert(s.skip(1)[k] == s[k + 1]);
        }
        lemma_lookup_at(s.skip(1), name, j - 1);
        if j < s.len() {
            assert(s.skip(1)[j - 1] == s[j]);
        }
    }
}

/// `remove_child` of a name found at `j`, with the earlier keys all
/// different, deletes exactly that element.
pub proof fn lemma_remove_child_at(s: Seq<(Seq<char>, NodeModel)>, name: Seq<char>, j: int)
    requires
        0 <= j < s.len(),
        s[j].0 == name,
        forall|k: int| 0 <= k < j ==> (#[trigger] s[k].0) != name,
    ensures
        remove_child(s, name) == s.remove(j),
    decreases j,
{
    if j == 0 {
        assert(remove_child(s, name) =~= s.remove(0));
    } else {
        assert forall|k: int| 0 <= k < j - 1 implies (#[trigger] s.skip(1)[k].0) != name by {
            assert(s.skip(1)[k] == s[k + 1]);
        }
        assert(s.skip(1)[j - 1] == s[j]);
        lemma_remove_child_at(s.skip(1), name, j - 1);
        assert(remove_child(s, name) == seq![s[0]] + remove_child(s.skip(1), name));
        assert(s.skip(1).remove(j - 1) =~= s.remove(j).skip(1));
        assert(remove_child(s, name) =~= s.remove(j));
    }
}

/// Three-way comparison of two segment names in the listing order.
fn str_compare(a: &str, b: &str) -> (r: i8)
    ensures
        r == -1 || r == 0 || r == 1,
        r == -1 <==> seq_lt(a@, b@),
        r == 0 <==> a@ == b@,
        r == 1 <==> seq_lt(b@, a@),
{
    let r = str_cmp_from(a, b, 0);
    proof {
        assert(a@.skip(0) =~= a@);
        assert(b@.skip(0) =~= b@);
    }
    r
}

impl FileSystemNode {
    /// A fresh file node carrying the platform reference and metadata,
    /// stamped with the creation time the caller read from its clock.
    pub fn new_file(
        message_id: MessageId,
        size: u64,
        mime_type: Option<String>,
        created_at: u64,
    ) -> (r: Self)
        ensures
            r@ == (NodeModel::File {
                message_id: message_id as int,
                size: size as int,
                mime_type: mime_type.deep_view(),
            }),
    {
        Self::File { message_id, created_at, size, mime_type }
    }

    /// A fresh, empty directory node, stamped with the creation time the
    /// caller read from its clock.
    pub fn new_directory(created_at: u64) -> (r: Self)
        ensures
            r@ == empty_dir(),
            model_wf(r@),
    {
        let r = Self::Directory { created_at, nodes: Vec::new() };
        proof {
            assert(children_model(Seq::<(String, FileSystemNode)>::empty()) =~= Seq::<
                (Seq<char>, NodeModel),
            >::empty());
        }
        r
    }

    pub fn is_directory(&self) -> (r: bool)
        ensures
            r == (self@ is Directory),
    {
        match self {
            Self::Directory { .. } => true,
            Self::File { .. } => false,
        }
    }

    pub fn is_file(&self) -> (r: bool)
        ensures
            r == (self@ is File),
    {
        match self {
            Self::File { .. } => true,
            Self::Directory { .. } => false,
        }
    }

    /// The children of a directory node.
    pub fn get_nodes(&self) -> (r: &FileSystemNodes)
        requires
            self@ is Directory,
        ensures
            children_model(r@) == self@->children,
    {
        match self {
            Self::Directory { nodes, .. } => nodes,
            Self::File { .. } => unreached(),
        }
    }

    pub fn file_message_id(&self) -> (r: Option<MessageId>)
        ensures
            self@ matches NodeModel::File { message_id, .. } ==> r == Some(message_id as MessageId),
            self@ is Directory ==> r is None,
    {
        if let Self::File { message_id, .. } = self {
            Some(*message_id)
        } else {
            None
        }
    }

    pub fn file_mime_type(&self) -> (r: Option<String>)
        ensures
            self@ matches NodeModel::File { mime_type, .. } ==> r.deep_view() == mime_type,
            self@ is Directory ==> r is None,
    {
        if let Self::File { mime_type, .. } = self {
            match mime_type {
                Some(m) => {
                    let c = m.clone();
                    proof {
                        assert(c@ == m@);
                    }
                    Some(c)
                },
                None => None,
            }
        } else {
            None
        }
    }
}

/// First index binding `name` at or after `i`, if any.
fn find_child_from(nodes: &FileSystemNodes, name: &str, i: usize) -> (r: Option<usize>)
    requires
        i <= nodes@.len(),
    ensures
        r matches Some(j) ==> i <= j < nodes@.len() && nodes@[j as int].0@ == name@ && (forall|
            k: int,
        |
            i <= k < j ==> (#[trigger] nodes@[k].0@) != name@),
        r is None ==> forall|k: int| i <= k < nodes@.len() ==> (#[trigger] nodes@[k].0@) != name@,
    decreases nodes@.len() - i,
{
    if i == nodes.len() {
        None
    } else {
        let c = str_compare(nodes[i].0.as_str(), name);
        if c == 0 {
            Some(i)
        } else {
            find_child_from(nodes, name, i + 1)
        }
    }
}

/// Index of the binding of `name`, with what `lookup` finds there.
fn find_child(nodes: &FileSystemNodes, name: &str) -> (r: Option<usize>)
    ensures
        r matches Some(j) ==> j < nodes@.len() && nodes@[j as int].0@ == name@ && lookup(
            children_model(nodes@),
            name@,
        ) == Some(node_model(nodes@[j as int].1)) && (forall|k: int|
            0 <= k < j ==> (#[trigger] nodes@[k].0@) != name@),
        r is None ==> lookup(children_model(nodes@), name@) is None,
{
    let r = find_child_from(nodes, name, 0);
    proof {
        lemma_children_model(nodes@);
        let cm = children_model(nodes@);
        match r {
            Option::Some(j) => {
                assert forall|k: int| 0 <= k < j implies (#[trigger] cm[k].0) != name@ by {
                    assert(cm[k] == (nodes@[k].0@, node_model(nodes@[k].1)));
                }
                lemma_lookup_at(cm, name@, j as int);
            },
            Option::None => {
                assert forall|k: int| 0 <= k < cm.len() implies (#[trigger] cm[k].0) != name@ by {
                    assert(cm[k] == (nodes@[k].0@, node_model(nodes@[k].1)));
                }
                lemma_lookup_at(cm, name@, cm.len() as int);
            },
        }
    }
    r
}

/// First index at or after `i` whose key does not order below `name`,
/// and whether it binds `name` itself.
fn find_insert_pos(nodes: &FileSystemNodes, name: &str) -> (r: (usize, bool))
    ensures
        r.0 <= nodes@.len(),
        forall|k: int| 0 <= k < r.0 ==> seq_lt(#[trigger] nodes@[k].0@, name@),
        r.1 ==> r.0 < nodes@.len() && nodes@[r.0 as int].0@ == name@,
        !r.1 ==> r.0 == nodes@.len() || seq_lt(name@, nodes@[r.0 as int].0@),
{
    let mut j: usize = 0;
    loop
        invariant
            0 <= j <= nodes@.len(),
            forall|k: int| 0 <= k < j ==> seq_lt(#[trigger] nodes@[k].0@, name@),
        decreases nodes@.len() - j,
    {
        if j == nodes.len() {
            return (j, false);
        }
        let c = str_compare(nodes[j].0.as_str(), name);
        if c == 0 {
            return (j, true);
        }
        if c == 1 {
            return (j, false);
        }
        j = j + 1;
    }
}

/// Bind `name` to `node` among the children, keeping the list sorted.
fn set_child(nodes: &mut FileSystemNodes, name: String, node: FileSystemNode)
    ensures
        children_model(final(nodes)@) == insert_child(
            children_model(old(nodes)@),
            name@,
            node_model(node),
        ),
{
    let ghost oldv = nodes@;
    let ghost cm = children_model(nodes@);
    let (j, eq) = find_insert_pos(nodes, name.as_str());
    proof {
        lemma_children_model(oldv);
        assert forall|k: int| 0 <= k < j implies seq_lt(#[trigger] cm[k].0, name@) by {
            assert(cm[k] == (oldv[k].0@, node_model(oldv[k].1)));
        }
        lemma_insert_child_at(cm, name@, node_model(node), j as int);
    }
    let ghost nm = node_model(node);
    if eq {
        nodes[j] = (name, node);
        proof {
            assert(nodes@ == oldv.update(j as int, nodes@[j as int]));
            lemma_children_model(nodes@);
            let target = cm.update(j as int, (name@, nm));
            assert forall|i: int| 0 <= i < nodes@.len() implies #[trigger] children_model(
                nodes@,
            )[i] == target[i] by {
                assert(children_model(nodes@)[i] == (nodes@[i].0@, node_model(nodes@[i].1)));
                if i != j {
                    assert(nodes@[i] == oldv[i]);
                    assert(cm[i] == (oldv[i].0@, node_model(oldv[i].1)));
                }
            }
            assert(children_model(nodes@) =~= target);
        }
    } else {
        nodes.insert(j, (name, node));
        proof {
            assert(nodes@ == oldv.insert(j as int, nodes@[j as int]));
            lemma_children_model(nodes@);
            let target = cm.take(j as int) + seq![(name@, nm)] + cm.skip(j as int);
            if j < oldv.len() {
                assert(insert_child(cm, name@, nm) == target);
            } else {
                assert(cm.take(j as int) =~= cm);
                assert(cm.skip(j as int) =~= Seq::<(Seq<char>, NodeModel)>::empty());
                assert(cm + seq![(name@, nm)] =~= target);
            }
            assert forall|i: int| 0 <= i < nodes@.len() implies #[trigger] children_model(
                nodes@,
            )[i] == target[i] by {
                assert(children_model(nodes@)[i] == (nodes@[i].0@, node_model(nodes@[i].1)));
                if i < j {
                    assert(nodes@[i] == oldv[i]);
                    assert(cm[i] == (oldv[i].0@, node_model(oldv[i].1)));
                    assert(target[i] == cm.take(j as int)[i]);
                } else if i == j {
                    assert(target[i] == (name@, nm));
                } else {
                    assert(nodes@[i] == oldv[i - 1]);
                    assert(cm[i - 1] == (oldv[i - 1].0@, node_model(oldv[i - 1].1)));
                    assert(target[i] == cm.skip(j as int)[i - j - 1]);
                    assert(cm.skip(j as int)[i - j - 1] == cm[i - 1]);
                }
            }
            assert(children_model(nodes@) =~= target);
        }
    }
}

/// Drop the binding of `name` from the children, if present.
fn drop_child(nodes: &mut FileSystemNodes, name: &str) -> (r: Option<FileSystemNode>)
    ensures
        r matches Some(n) ==> lookup(children_model(old(nodes)@), name@) == Some(node_model(n))
            && children_model(final(nodes)@) == remove_child(children_model(old(nodes)@), name@),
        r is None ==> lookup(children_model(old(nodes)@), name@) is None && final(nodes)@ == old(
            nodes,
        )@,
{
    let ghost oldv = nodes@;
    let ghost cm = children_model(nodes@);
    match find_child(nodes, name) {
        Option::Some(j) => {
            let pair = nodes.remove(j);
            proof {
                lemma_children_model(oldv);
                assert forall|k: int| 0 <= k < j implies (#[trigger] cm[k].0) != name@ by {
                    assert(cm[k] == (oldv[k].0@, node_model(oldv[k].1)));
                }
                lemma_remove_child_at(cm, name@, j as int);
                lemma_children_model(nodes@);
                assert forall|i: int| 0 <= i < nodes@.len() implies #[trigger] children_model(
                    nodes@,
                )[i] == cm.remove(j as int)[i] by {
                    assert(children_model(nodes@)[i] == (nodes@[i].0@, node_model(nodes@[i].1)));
                    if i < j {
                        assert(nodes@[i] == oldv[i]);
                        assert(cm[i] == (oldv[i].0@, node_model(oldv[i].1)));
                    } else {
                        assert(nodes@[i] == oldv[i + 1]);
                        assert(cm[i + 1] == (oldv[i + 1].0@, node_model(oldv[i + 1].1)));
                    }
                }
                assert(children_model(nodes@) =~= cm.remove(j as int));
            }
            Some(pair.1)
        },
        Option::None => None,
    }
}

/// `children_all_wf` is well-formedness of every child.
pub proof fn lemma_children_all_wf(s: Seq<(Seq<char>, NodeModel)>)
    ensures
        children_all_wf(s) <==> (forall|i: int| 0 <= i < s.len() ==> model_wf(#[trigger] s[i].1)),
    decreases s,
{
    if s.len() == 0 {
    } else {
        lemma_children_all_wf(s.skip(1));
        assert(forall|i: int| 1 <= i < s.len() ==> s.skip(1)[i - 1] == s[i]);
        if model_wf(s[0].1) && (forall|i: int|
            0 <= i < s.skip(1).len() ==> model_wf(#[trigger] s.skip(1)[i].1)) {
            assert forall|i: int| 0 <= i < s.len() implies model_wf(#[trigger] s[i].1) by {
                if i > 0 {
                    assert(s[i] == s.skip(1)[i - 1]);
                }
            }
        }
    }
}

/// Any two names are ordered or equal.
pub proof fn lemma_seq_lt_trichotomy(a: Seq<char>, b: Seq<char>)
    ensures
        seq_lt(a, b) || a == b || seq_lt(b, a),
    decreases a.len(),
{
    if b.len() == 0 {
        if a.len() == 0 {
            assert(a =~= b);
        }
    } else if a.len() == 0 {
    } else if a[0] != b[0] {
    } else {
        lemma_seq_lt_trichotomy(a.skip(1), b.skip(1));
        if a.skip(1) == b.skip(1) {
            assert(a.skip(1).len() == a.len() - 1);
            assert(b.skip(1).len() == b.len() - 1);
            assert(a.len() == b.len());
            assert forall|k: int| 0 <= k < a.len() implies a[k] == b[k] by {
                if k > 0 {
                    assert(a[k] == a.skip(1)[k - 1]);
                    assert(b[k] == b.skip(1)[k - 1]);
                }
            }
            assert(a =~= b);
        }
    }
}

/// Binding a well-formed node keeps the children sorted and well-formed,
/// and introduces no key other than the bound one.
pub proof fn lemma_insert_child_sorted(
    s: Seq<(Seq<char>, NodeModel)>,
    name: Seq<char>,
    v: NodeModel,
)
    requires
        sorted_keys(s),
        children_all_wf(s),
        model_wf(v),
    ensures
        sorted_keys(insert_child(s, name, v)),
        children_all_wf(insert_child(s, name, v)),
        forall|t: int|
            0 <= t < insert_child(s, name, v).len() ==> (#[trigger] insert_child(s, name, v)[t].0)
                == name || exists|u: int| 0 <= u < s.len() && s[u].0 == insert_child(s, name, v)[t].0,
    decreases s.len(),
{
    let res = insert_child(s, name, v);
    lemma_children_all_wf(s);
    if s.len() == 0 {
        assert(res[0] == (name, v));
        lemma_children_all_wf(res);
    } else if seq_lt(name, s[0].0) {
        assert(res == seq![(name, v)] + s);
        assert forall|i: int, j: int| 0 <= i < j < res.len() implies seq_lt(
            res[i].0,
            res[j].0,
        ) by {
            if i == 0 {
                assert(res[j] == s[j - 1]);
                if j > 1 {
                    assert(seq_lt(s[0].0, s[j - 1].0));
                    lemma_seq_lt_transitive(name, s[0].0, s[j - 1].0);
                }
            } else {
                assert(res[i] == s[i - 1]);
                assert(res[j] == s[j - 1]);
            }
        }
        assert forall|t: int| 0 <= t < res.len() implies model_wf(#[trigger] res[t].1) by {
            if t > 0 {
                assert(res[t] == s[t - 1]);
            }
        }
        lemma_children_all_wf(res);
        assert forall|t: int|
            0 <= t < res.len() implies (#[trigger] res[t].0) == name || exists|u: int|
            0 <= u < s.len() && s[u].0 == res[t].0 by {
            if t > 0 {
                assert(res[t] == s[t - 1]);
                assert(s[t - 1].0 == res[t].0);
            }
        }
    } else if s[0].0 == name {
        assert(res == seq![(name, v)] + s.skip(1));
        assert forall|i: int, j: int| 0 <= i < j < res.len() implies seq_lt(
            res[i].0,
            res[j].0,
        ) by {
            if i == 0 {
                assert(res[j] == s.skip(1)[j - 1]);
                assert(s.skip(1)[j - 1] == s[j]);
                assert(seq_lt(s[0].0, s[j].0));
            } else {
                assert(res[i] == s[i]);
                assert(res[j] == s[j]);
            }
        }
        assert forall|t: int| 0 <= t < res.len() implies model_wf(#[trigger] res[t].1) by {
            if t > 0 {
                assert(res[t] == s[t]);
            }
        }
        lemma_children_all_wf(res);
        assert forall|t: int|
            0 <= t < res.len() implies (#[trigger] res[t].0) == name || exists|u: int|
            0 <= u < s.len() && s[u].0 == res[t].0 by {
            if t > 0 {
                assert(res[t] == s[t]);
                assert(s[t].0 == res[t].0);
            }
        }
    } else {
        lemma_seq_lt_trichotomy(name, s[0].0);
        assert(seq_lt(s[0].0, name));
        assert forall|i: int, j: int| 0 <= i < j < s.skip(1).len() implies seq_lt(
            #[trigger] s.skip(1)[i].0,
            #[trigger] s.skip(1)[j].0,
        ) by {
            assert(s.skip(1)[i] == s[i + 1]);
            assert(s.skip(1)[j] == s[j + 1]);
        }
        assert forall|t: int| 0 <= t < s.skip(1).len() implies model_wf(
            #[trigger] s.skip(1)[t].1,
        ) by {
            assert(s.skip(1)[t] == s[t + 1]);
        }
        lemma_children_all_wf(s.skip(1));
        lemma_insert_child_sorted(s.skip(1), name, v);
        let sub = insert_child(s.skip(1), name, v);
        assert(res == seq![s[0]] + sub);
        lemma_children_all_wf(sub);
        assert forall|i: int, j: int| 0 <= i < j < res.len() implies seq_lt(
            res[i].0,
            res[j].0,
        ) by {
            if i == 0 {
                assert(res[j] == sub[j - 1]);
                if sub[j - 1].0 == name {
                } else {
                    let u = choose|u: int| 0 <= u < s.skip(1).len() && s.skip(1)[u].0 == sub[j
                        - 1].0;
                    assert(s.skip(1)[u] == s[u + 1]);
                    assert(seq_lt(s[0].0, s[u + 1].0));
                }
            } else {
                assert(res[i] == sub[i - 1]);
                assert(res[j] == sub[j - 1]);
            }
        }
        assert forall|t: int| 0 <= t < res.len() implies model_wf(#[trigger] res[t].1) by {
            if t > 0 {
                assert(res[t] == sub[t - 1]);
            }
        }
        lemma_children_all_wf(res);
        assert forall|t: int|
            0 <= t < res.len() implies (#[trigger] res[t].0) == name || exists|u: int|
            0 <= u < s.len() && s[u].0 == res[t].0 by {
            if t == 0 {
                assert(s[0].0 == res[0].0);
            } else {
                assert(res[t] == sub[t - 1]);
                if sub[t - 1].0 == name {
                } else {
                    let u = choose|u: int| 0 <= u < s.skip(1).len() && s.skip(1)[u].0 == sub[t
                        - 1].0;
                    assert(s.skip(1)[u] == s[u + 1]);
                    assert(s[u + 1].0 == res[t].0);
                }
            }
        }
    }
}

pub(crate) fn err_string(msg: &str) -> (r: String)
    ensures
        r@ == msg@,
{
    String::from_str(msg)
}

/// Insert `leaf` at the path `segs[i..]` below `node`, creating missing
/// intermediate directories; see `insert_at` for the exact outcome.
fn node_insert_at(
    node: &mut FileSystemNode,
    segs: &Vec<String>,
    i: usize,
    leaf: FileSystemNode,
    created_at: u64,
) -> (r: Result<(), String>)
    requires
        i < segs@.len(),
        model_wf(node_model(*old(node))),
        model_wf(node_model(leaf)),
    ensures
        match insert_at(
            node_model(*old(node)),
            segs.deep_view().skip(i as int),
            node_model(leaf),
        ) {
            Ok(m) => r is Ok && node_model(*final(node)) == m && model_wf(m),
            Err(e) => (r matches Err(s) && s@ == err_msg(e)) && node_model(*final(node))
                == node_model(*old(node)),
        },
    decreases segs@.len() - i,
{
    let ghost sgs = segs.deep_view().skip(i as int);
    proof {
        assert(sgs[0] == segs@[i as int]@);
    }
    let n = segs.len();
    match node {
        FileSystemNode::File { .. } => Err(err_string("Parent is not a directory")),
        FileSystemNode::Directory { nodes, .. } => {
            let ghost cm = children_model(nodes@);
            proof {
                assert(node_model(*old(node)) == NodeModel::Directory { children: cm });
                assert(children_all_wf(cm));
                assert(sorted_keys(cm));
                lemma_children_model(nodes@);
                lemma_children_all_wf(cm);
            }
            if i + 1 == n {
                set_child(nodes, segs[i].clone(), leaf);
                proof {
                    lemma_children_model(nodes@);
                    lemma_children_all_wf(children_model(nodes@));
                    lemma_insert_child_sorted(cm, sgs[0], node_model(leaf));
                }
                Ok(())
            } else {
                match find_child(nodes, segs[i].as_str()) {
                    Option::Some(j) => {
                        let is_file = nodes[j].1.is_file();
                        if is_file {
                            proof {
                                assert(cm[j as int] == (nodes@[j as int].0@, node_model(
                                    nodes@[j as int].1,
                                )));
                                assert(cm[j as int].1 is File);
                                assert(insert_at(cm[j as int].1, sgs.skip(1), node_model(leaf))
                                    == Err::<NodeModel, FsErr>(FsErr::ParentNotDirectory));
                            }
                            Err(err_string("Parent is not a directory"))
                        } else {
                            let ghost oldnodes = nodes@;
                            let mut pair = nodes.remove(j);
                            proof {
                                assert(cm[j as int] == (oldnodes[j as int].0@, node_model(
                                    oldnodes[j as int].1,
                                )));
                                assert(model_wf(cm[j as int].1));
                                assert(model_wf(node_model(pair.1)));
                            }
                            let r = node_insert_at(&mut pair.1, segs, i + 1, leaf, created_at);
                            proof {
                                assert(segs.deep_view().skip(i + 1) =~= sgs.skip(1));
                            }
                            let ghost subm = node_model(pair.1);
                            let ghost key = pair.0@;
                            nodes.insert(j, pair);
                            proof {
                                lemma_children_model(nodes@);
                                let cmn = children_model(nodes@);
                                assert forall|t: int| 0 <= t < cmn.len() implies #[trigger] cmn[t]
                                    == cm.update(j as int, (key, subm))[t] by {
                                    assert(cmn[t] == (nodes@[t].0@, node_model(nodes@[t].1)));
                                    if t < j {
                                        assert(nodes@[t] == oldnodes[t]);
                                        assert(cm[t] == (oldnodes[t].0@, node_model(
                                            oldnodes[t].1,
                                        )));
                                    } else if t > j {
                                        assert(nodes@[t] == oldnodes[t]);
                                        assert(cm[t] == (oldnodes[t].0@, node_model(
                                            oldnodes[t].1,
                                        )));
                                    }
                                }
                                assert(cmn =~= cm.update(j as int, (key, subm)));
                                assert(cm[j as int].0 == sgs[0]);
                                assert forall|k: int| 0 <= k < j implies seq_lt(
                                    #[trigger] cm[k].0,
                                    sgs[0],
                                ) by {
                                    assert(cm[k] == (oldnodes[k].0@, node_model(oldnodes[k].1)));
                                    assert(seq_lt(cm[k].0, cm[j as int].0));
                                }
                                lemma_insert_child_at(cm, sgs[0], subm, j as int);
                                if r is Ok {
                                    lemma_children_all_wf(cmn);
                                    lemma_insert_child_sorted(cm, sgs[0], subm);
                                } else {
                                    assert(subm == cm[j as int].1);
                                    assert(key == cm[j as int].0);
                                    assert((key, subm) == cm[j as int]);
                                    assert(cmn =~= cm);
                                }
                            }
                            r
                        }
                    },
                    Option::None => {
                        let mut fresh = FileSystemNode::new_directory(created_at);
                        match node_insert_at(&mut fresh, segs, i + 1, leaf, created_at) {
                            Ok(u) => {
                                proof {
                                    assert(segs.deep_view().skip(i + 1) =~= sgs.skip(1));
                                }
                                set_child(nodes, segs[i].clone(), fresh);
                                proof {
                                    lemma_children_model(nodes@);
                                    lemma_children_all_wf(children_model(nodes@));
                                    lemma_insert_child_sorted(cm, sgs[0], node_model(fresh));
                                }
                                Ok(u)
                            },
                            Err(e) => {
                                proof {
                                    assert(segs.deep_view().skip(i + 1) =~= sgs.skip(1));
                                }
                                Err(e)
                            },
                        }
                    },
                }
            }
        },
    }
}

/// A found binding is one of the list's elements.
pub proof fn lemma_lookup_some(s: Seq<(Seq<char>, NodeModel)>, name: Seq<char>)
    ensures
        lookup(s, name) matches Some(v) ==> exists|j: int|
            0 <= j < s.len() && (#[trigger] s[j]) == (name, v),
    decreases s.len(),
{
    if s.len() == 0 {
    } else if s[0].0 == name {
        assert(s[0] == (name, s[0].1));
    } else {
        lemma_lookup_some(s.skip(1), name);
        match lookup(s, name) {
            Option::Some(v) => {
                let j = choose|j: int|
                    0 <= j < s.skip(1).len() && (#[trigger] s.skip(1)[j]) == (name, v);
                assert(s[j + 1] == s.skip(1)[j]);
            },
            Option::None => {},
        }
    }
}

/// Unbinding keeps the children sorted and well-formed, and introduces no
/// new key.
pub proof fn lemma_remove_child_sorted(s: Seq<(Seq<char>, NodeModel)>, name: Seq<char>)
    requires
        sorted_keys(s),
        children_all_wf(s),
    ensures
        sorted_keys(remove_child(s, name)),
        children_all_wf(remove_child(s, name)),
        forall|t: int|
            0 <= t < remove_child(s, name).len() ==> exists|u: int|
                0 <= u < s.len() && (#[trigger] remove_child(s, name)[t]) == s[u],
    decreases s.len(),
{
    let res = remove_child(s, name);
    lemma_children_all_wf(s);
    if s.len() == 0 {
    } else if s[0].0 == name {
        assert(res == s.skip(1));
        assert forall|t: int| 0 <= t < res.len() implies exists|u: int|
            0 <= u < s.len() && (#[trigger] res[t]) == s[u] by {
            assert(res[t] == s[t + 1]);
        }
        assert forall|i: int, j: int| 0 <= i < j < res.len() implies seq_lt(
            res[i].0,
            res[j].0,
        ) by {
            assert(res[i] == s[i + 1]);
            assert(res[j] == s[j + 1]);
        }
        assert forall|t: int| 0 <= t < res.len() implies model_wf(#[trigger] res[t].1) by {
            assert(res[t] == s[t + 1]);
        }
        lemma_children_all_wf(res);
    } else {
        assert forall|i: int, j: int| 0 <= i < j < s.skip(1).len() implies seq_lt(
            #[trigger] s.skip(1)[i].0,
            #[trigger] s.skip(1)[j].0,
        ) by {
            assert(s.skip(1)[i] == s[i + 1]);
            assert(s.skip(1)[j] == s[j + 1]);
        }
        assert forall|t: int| 0 <= t < s.skip(1).len() implies model_wf(
            #[trigger] s.skip(1)[t].1,
        ) by {
            assert(s.skip(1)[t] == s[t + 1]);
        }
        lemma_children_all_wf(s.skip(1));
        lemma_remove_child_sorted(s.skip(1), name);
        let sub = remove_child(s.skip(1), name);
        assert(res == seq![s[0]] + sub);
        assert forall|t: int| 0 <= t < res.len() implies exists|u: int|
            0 <= u < s.len() && (#[trigger] res[t]) == s[u] by {
            if t == 0 {
                assert(res[0] == s[0]);
            } else {
                assert(res[t] == sub[t - 1]);
                let u = choose|u: int| 0 <= u < s.skip(1).len() && (#[trigger] sub[t - 1]) == s.skip(
                    1,
                )[u];
                assert(s.skip(1)[u] == s[u + 1]);
            }
        }
        assert forall|i: int, j: int| 0 <= i < j < res.len() implies seq_lt(
            res[i].0,
            res[j].0,
        ) by {
            if i == 0 {
                assert(res[j] == sub[j - 1]);
                let u = choose|u: int| 0 <= u < s.skip(1).len() && (#[trigger] sub[j - 1]) == s.skip(
                    1,
                )[u];
                assert(s.skip(1)[u] == s[u + 1]);
                assert(seq_lt(s[0].0, s[u + 1].0));
            } else {
                assert(res[i] == sub[i - 1]);
                assert(res[j] == sub[j - 1]);
            }
        }
        assert forall|t: int| 0 <= t < res.len() implies model_wf(#[trigger] res[t].1) by {
            if t == 0 {
            } else {
                assert(res[t] == sub[t - 1]);
                lemma_children_all_wf(sub);
            }
        }
        lemma_children_all_wf(res);
    }
}

/// Remove the node at the path `segs[i..]` below `node`; see `remove_at`
/// for the exact outcome, including the walk's side effects.
fn node_remove_at(
    node: &mut FileSystemNode,
    segs: &Vec<String>,
    i: usize,
    created_at: u64,
) -> (r: Result<FileSystemNode, String>)
    requires
        i < segs@.len(),
        model_wf(node_model(*old(node))),
    ensures
        node_model(*final(node)) == remove_at(
            node_model(*old(node)),
            segs.deep_view().skip(i as int),
        ).1,
        model_wf(node_model(*final(node))),
        match remove_at(node_model(*old(node)), segs.deep_view().skip(i as int)).0 {
            Ok(m) => r matches Ok(nd) && node_model(nd) == m && model_wf(m),
            Err(e) => r matches Err(s) && s@ == err_msg(e),
        },
    decreases segs@.len() - i,
{
    let ghost sgs = segs.deep_view().skip(i as int);
    proof {
        assert(sgs[0] == segs@[i as int]@);
    }
    let n = segs.len();
    match node {
        FileSystemNode::File { .. } => Err(err_string("Parent is not a directory")),
        FileSystemNode::Directory { nodes, .. } => {
            let ghost cm = children_model(nodes@);
            proof {
                assert(node_model(*old(node)) == NodeModel::Directory { children: cm });
                lemma_children_model(nodes@);
                lemma_children_all_wf(cm);
            }
            if i + 1 == n {
                match drop_child(nodes, segs[i].as_str()) {
                    Option::Some(nd) => {
                        proof {
                            lemma_remove_child_sorted(cm, sgs[0]);
                            lemma_children_all_wf(remove_child(cm, sgs[0]));
                            lemma_lookup_some(cm, sgs[0]);
                            let j = choose|j: int|
                                0 <= j < cm.len() && (#[trigger] cm[j]) == (
                                    sgs[0],
                                    node_model(nd),
                                );
                            assert(model_wf(cm[j].1));
                        }
                        Ok(nd)
                    },
                    Option::None => Err(err_string("Node not found")),
                }
            } else {
                match find_child(nodes, segs[i].as_str()) {
                    Option::Some(j) => {
                        let is_file = nodes[j].1.is_file();
                        if is_file {
                            proof {
                                assert(cm[j as int] == (nodes@[j as int].0@, node_model(
                                    nodes@[j as int].1,
                                )));
                                assert(cm[j as int].1 is File);
                            }
                            Err(err_string("Parent is not a directory"))
                        } else {
                            let ghost oldnodes = nodes@;
                            let mut pair = nodes.remove(j);
                            proof {
                                assert(cm[j as int] == (oldnodes[j as int].0@, node_model(
                                    oldnodes[j as int].1,
                                )));
                                assert(model_wf(cm[j as int].1));
                                assert(model_wf(node_model(pair.1)));
                            }
                            let r = node_remove_at(&mut pair.1, segs, i + 1, created_at);
                            proof {
                                assert(segs.deep_view().skip(i + 1) =~= sgs.skip(1));
                            }
                            let ghost subm = node_model(pair.1);
                            let ghost key = pair.0@;
                            nodes.insert(j, pair);
                            proof {
                                lemma_children_model(nodes@);
                                let cmn = children_model(nodes@);
                                assert forall|t: int| 0 <= t < cmn.len() implies #[trigger] cmn[t]
                                    == cm.update(j as int, (key, subm))[t] by {
                                    assert(cmn[t] == (nodes@[t].0@, node_model(nodes@[t].1)));
                                    if t < j {
                                        assert(nodes@[t] == oldnodes[t]);
                                        assert(cm[t] == (oldnodes[t].0@, node_model(
                                            oldnodes[t].1,
                                        )));
                                    } else if t > j {
                                        assert(nodes@[t] == oldnodes[t]);
                                        assert(cm[t] == (oldnodes[t].0@, node_model(
                                            oldnodes[t].1,
                                        )));
                                    }
                                }
                                assert(cmn =~= cm.update(j as int, (key, subm)));
                                assert(cm[j as int].0 == sgs[0]);
                                assert forall|k: int| 0 <= k < j implies seq_lt(
                                    #[trigger] cm[k].0,
                                    sgs[0],
                                ) by {
                                    assert(cm[k] == (oldnodes[k].0@, node_model(oldnodes[k].1)));
                                    assert(seq_lt(cm[k].0, cm[j as int].0));
                                }
                                lemma_insert_child_at(cm, sgs[0], subm, j as int);
                                lemma_children_all_wf(cmn);
                                lemma_insert_child_sorted(cm, sgs[0], subm);
                            }
                            r
                        }
                    },
                    Option::None => {
                        let mut fresh = FileSystemNode::new_directory(created_at);
                        let r = node_remove_at(&mut fresh, segs, i + 1, created_at);
                        proof {
                            assert(segs.deep_view().skip(i + 1) =~= sgs.skip(1));
                        }
                        set_child(nodes, segs[i].clone(), fresh);
                        proof {
                            lemma_children_model(nodes@);
                            lemma_children_all_wf(children_model(nodes@));
                            lemma_insert_child_sorted(cm, sgs[0], node_model(fresh));
                        }
                        r
                    },
                }
            }
        },
    }
}

/// Resolve the path `segs[i..]` below `node`; see `resolve_at`.
fn node_resolve<'a>(node: &'a FileSystemNode, segs: &Vec<String>, i: usize) -> (r: Result<
    &'a FileSystemNode,
    String,
>)
    requires
        i <= segs@.len(),
    ensures
        match resolve_at(node_model(*node), segs.deep_view().skip(i as int)) {
            Ok(m) => r matches Ok(nd) && node_model(*nd) == m,
            Err(e) => r matches Err(s) && s@ == err_msg(e),
        },
    decreases segs@.len() - i,
{
    let n = segs.len();
    if i == n {
        proof {
            assert(segs.deep_view().skip(i as int).len() == 0);
        }
        Ok(node)
    } else {
        let ghost sgs = segs.deep_view().skip(i as int);
        proof {
            assert(sgs[0] == segs@[i as int]@);
        }
        match node {
            FileSystemNode::File { .. } => Ok(node),
            FileSystemNode::Directory { nodes, .. } => {
                proof {
                    lemma_children_model(nodes@);
                }
                match find_child(nodes, segs[i].as_str()) {
                    Option::Some(j) => {
                        let child = &nodes[j].1;
                        let r = node_resolve(child, segs, i + 1);
                        proof {
                            assert(segs.deep_view().skip(i + 1) =~= sgs.skip(1));
                        }
                        r
                    },
                    Option::None => Err(err_string("Path not found")),
                }
            },
        }
    }
}


/// Names of the directory children, in stored order.
pub open spec fn dir_keys(s: Seq<(Seq<char>, NodeModel)>) -> Seq<Seq<char>>
    decreases s.len(),
{
    if s.len() == 0 {
        Seq::empty()
    } else if s[0].1 is Directory {
        seq![s[0].0] + dir_keys(s.skip(1))
    } else {
        dir_keys(s.skip(1))
    }
}

/// Names of the file children, in stored order.
pub open spec fn file_keys(s: Seq<(Seq<char>, NodeModel)>) -> Seq<Seq<char>>
    decreases s.len(),
{
    if s.len() == 0 {
        Seq::empty()
    } else if s[0].1 is File {
        seq![s[0].0] + file_keys(s.skip(1))
    } else {
        file_keys(s.skip(1))
    }
}

/// All child names from index `i` on.
fn collect_keys(nodes: &FileSystemNodes, i: usize) -> (r: Vec<String>)
    requires
        i <= nodes@.len(),
    ensures
        r.deep_view() == keys_of(children_model(nodes@)).skip(i as int),
    decreases nodes@.len() - i,
{
    let ghost cm = children_model(nodes@);
    proof {
        lemma_children_model(nodes@);
    }
    if i == nodes.len() {
        let r = Vec::<String>::new();
        proof {
            assert(r.deep_view() =~= keys_of(cm).skip(i as int));
        }
        r
    } else {
        let head = nodes[i].0.clone();
        let mut rest = collect_keys(nodes, i + 1);
        let ghost restdv = rest.deep_view();
        rest.insert(0, head);
        proof {
            let dv = rest.deep_view();
            assert(dv.len() == rest@.len());
            assert(restdv.len() == keys_of(cm).skip(i + 1).len());
            let target = keys_of(cm).skip(i as int);
            assert forall|k: int| 0 <= k < dv.len() implies dv[k] == target[k] by {
                assert(target[k] == keys_of(cm)[i + k]);
                assert(keys_of(cm)[i + k] == cm[i + k].0);
                if k == 0 {
                    assert(dv[0] == head@);
                    assert(cm[i as int] == (nodes@[i as int].0@, node_model(nodes@[i as int].1)));
                } else {
                    assert(dv[k] == restdv[k - 1]);
                    assert(restdv[k - 1] == keys_of(cm).skip(i + 1)[k - 1]);
                    assert(keys_of(cm).skip(i + 1)[k - 1] == keys_of(cm)[i + k]);
                }
            }
            assert(dv =~= target);
        }
        rest
    }
}

/// Directory child names from index `i` on.
fn collect_dir_keys(nodes: &FileSystemNodes, i: usize) -> (r: Vec<String>)
    requires
        i <= nodes@.len(),
    ensures
        r.deep_view() == dir_keys(children_model(nodes@).skip(i as int)),
    decreases nodes@.len() - i,
{
    let ghost cm = children_model(nodes@);
    proof {
        lemma_children_model(nodes@);
    }
    if i == nodes.len() {
        let r = Vec::<String>::new();
        proof {
            assert(cm.skip(i as int).len() == 0);
            assert(r.deep_view() =~= dir_keys(cm.skip(i as int)));
        }
        r
    } else {
        proof {
            assert(cm[i as int] == (nodes@[i as int].0@, node_model(nodes@[i as int].1)));
            assert(cm.skip(i as int)[0] == cm[i as int]);
            assert(cm.skip(i as int).skip(1) =~= cm.skip(i + 1));
        }
        let is_dir = nodes[i].1.is_directory();
        if is_dir {
            let head = nodes[i].0.clone();
            let mut rest = collect_dir_keys(nodes, i + 1);
            let ghost restdv = rest.deep_view();
            rest.insert(0, head);
            proof {
                let dv = rest.deep_view();
                let target = dir_keys(cm.skip(i as int));
                assert(target == seq![cm[i as int].0] + dir_keys(cm.skip(i + 1)));
                assert(dv.len() == rest@.len());
                assert forall|k: int| 0 <= k < dv.len() implies dv[k] == target[k] by {
                    if k == 0 {
                        assert(dv[0] == head@);
                    } else {
                        assert(dv[k] == restdv[k - 1]);
                    }
                }
                assert(dv =~= target);
            }
            rest
        } else {
            let r = collect_dir_keys(nodes, i + 1);
            proof {
                assert(dir_keys(cm.skip(i as int)) == dir_keys(cm.skip(i + 1)));
            }
            r
        }
    }
}

/// File child names from index `i` on.
fn collect_file_keys(nodes: &FileSystemNodes, i: usize) -> (r: Vec<String>)
    requires
        i <= nodes@.len(),
    ensures
        r.deep_view() == file_keys(children_model(nodes@).skip(i as int)),
    decreases nodes@.len() - i,
{
    let ghost cm = children_model(nodes@);
    proof {
        lemma_children_model(nodes@);
    }
    if i == nodes.len() {
        let r = Vec::<String>::new();
        proof {
            assert(cm.skip(i as int).len() == 0);
            assert(r.deep_view() =~= file_keys(cm.skip(i as int)));
        }
        r
    } else {
        proof {
            assert(cm[i as int] == (nodes@[i as int].0@, node_model(nodes@[i as int].1)));
            assert(cm.skip(i as int)[0] == cm[i as int]);
            assert(cm.skip(i as int).skip(1) =~= cm.skip(i + 1));
        }
        let is_f = nodes[i].1.is_file();
        if is_f {
            let head = nodes[i].0.clone();
            let mut rest = collect_file_keys(nodes, i + 1);
            let ghost restdv = rest.deep_view();
            rest.insert(0, head);
            proof {
                let dv = rest.deep_view();
                let target = file_keys(cm.skip(i as int));
                assert(target == seq![cm[i as int].0] + file_keys(cm.skip(i + 1)));
                assert(dv.len() == rest@.len());
                assert forall|k: int| 0 <= k < dv.len() implies dv[k] == target[k] by {
                    if k == 0 {
                        assert(dv[0] == head@);
                    } else {
                        assert(dv[k] == restdv[k - 1]);
                    }
                }
                assert(dv =~= target);
            }
            rest
        } else {
            let r = collect_file_keys(nodes, i + 1);
            proof {
                assert(file_keys(cm.skip(i as int)) == file_keys(cm.skip(i + 1)));
            }
            r
        }
    }
}

impl FileSystemNode {
    /// The child names of a directory node, or `Not a directory`.
    pub fn ls(&self) -> (r: Result<Vec<String>, String>)
        ensures
            self@ matches NodeModel::Directory { children } ==> (r matches Ok(v) && v.deep_view()
                == keys_of(children)),
            self@ is File ==> (r matches Err(s) && s@ == "Not a directory"@),
    {
        match self {
            Self::Directory { nodes, .. } => {
                let v = collect_keys(nodes, 0);
                proof {
                    assert(keys_of(children_model(nodes@)).skip(0) =~= keys_of(
                        children_model(nodes@),
                    ));
                }
                Ok(v)
            },
            Self::File { .. } => Err(err_string("Not a directory")),
        }
    }

    /// The names of the directory children, or `Not a directory`.
    pub fn ls_directories(&self) -> (r: Result<Vec<String>, String>)
        ensures
            self@ matches NodeModel::Directory { children } ==> (r matches Ok(v) && v.deep_view()
                == dir_keys(children)),
            self@ is File ==> (r matches Err(s) && s@ == "Not a directory"@),
    {
        match self {
            Self::Directory { nodes, .. } => {
                let v = collect_dir_keys(nodes, 0);
                proof {
                    assert(children_model(nodes@).skip(0) =~= children_model(nodes@));
                }
                Ok(v)
            },
            Self::File { .. } => Err(err_string("Not a directory")),
        }
    }

    /// The names of the file children, or `Not a directory`.
    pub fn ls_files(&self) -> (r: Result<Vec<String>, String>)
        ensures
            self@ matches NodeModel::Directory { children } ==> (r matches Ok(v) && v.deep_view()
                == file_keys(children)),
            self@ is File ==> (r matches Err(s) && s@ == "Not a directory"@),
    {
        match self {
            Self::Directory { nodes, .. } => {
                let v = collect_file_keys(nodes, 0);
                proof {
                    assert(children_model(nodes@).skip(0) =~= children_model(nodes@));
                }
                Ok(v)
            },
            Self::File { .. } => Err(err_string("Not a directory")),
        }
    }
}


/// The reserved prefix marking platform pseudo content types, used
/// verbatim as a file extension.
pub const TG_FILE_MIME_TYPE_PREFIX: &'static str = "tg+";

/// Whether a content type carries the reserved pseudo-type prefix.
pub open spec fn has_pseudo_prefix(m: Seq<char>) -> bool {
    m.len() >= 3 && m[0] == 't' && m[1] == 'g' && m[2] == '+'
}

fn mime_is_pseudo(m: &str) -> (r: bool)
    ensures
        r == has_pseudo_prefix(m@),
{
    let n = m.unicode_len();
    n >= 3 && m.get_char(0) == 't' && m.get_char(1) == 'g' && m.get_char(2) == '+'
}

/// Whether a segment name carries an explicit extension: a dot anywhere
/// after its first character.
pub open spec fn has_ext(name: Seq<char>) -> bool {
    exists|k: int| 1 <= k < name.len() && name[k] == '.'
}

fn name_has_extension(name: &str) -> (r: bool)
    ensures
        r == has_ext(name@),
{
    let n = name.unicode_len();
    let mut k: usize = 1;
    while k < n
        invariant
            1 <= k,
            n == name@.len(),
            forall|m: int| 1 <= m < k ==> name@[m] != '.',
        decreases n - k,
    {
        if name.get_char(k) == '.' {
            return true;
        }
        k = k + 1;
    }
    false
}

/// The extension the embedded mime table gives a content type, if any.
pub uninterp spec fn ext_for_mime(mime: Seq<char>) -> Option<Seq<char>>;

/// Relies on mime2ext::mime2ext: a pure lookup in an embedded copy of the
/// mime-db table, a function of the mime string alone.
#[verifier::external_body]
fn mime_to_extension(mime: &str) -> (r: Option<String>)
    ensures
        r.deep_view() == ext_for_mime(mime@),
{
    mime2ext::mime2ext(mime).map(|e| e.to_string())
}

/// The content type a node declares, if it is a file with one.
pub open spec fn node_mime(m: NodeModel) -> Option<Seq<char>> {
    match m {
        NodeModel::File { mime_type, .. } => mime_type,
        NodeModel::Directory { .. } => None,
    }
}

/// The path a file is finally stored under: an explicit extension is kept
/// verbatim; otherwise a pseudo content type becomes the extension itself,
/// and any other content type is mapped through the mime table, with no
/// extension added when the table has none.
pub open spec fn final_file_path(p: PathModel, mime: Option<Seq<char>>) -> PathModel {
    if p.segments.len() == 0 {
        p
    } else {
        let name = p.segments.last();
        if has_ext(name) {
            p
        } else {
            match mime {
                Option::None => p,
                Option::Some(m) => {
                    let ext = if has_pseudo_prefix(m) {
                        m
                    } else {
                        match ext_for_mime(m) {
                            Option::Some(e) => e,
                            Option::None => Seq::empty(),
                        }
                    };
                    if ext.len() == 0 {
                        p
                    } else {
                        PathModel {
                            absolute: p.absolute,
                            segments: p.segments.update(
                                p.segments.len() - 1,
                                name + seq!['.'] + ext,
                            ),
                        }
                    }
                },
            }
        }
    }
}

/// What `mkdir` does to the tree.
pub open spec fn mkdir_spec(root: NodeModel, p: PathModel) -> Result<NodeModel, FsErr> {
    insert_node_spec(root, p, empty_dir())
}

/// What `ls` returns.
pub open spec fn ls_spec(root: NodeModel, p: PathModel) -> Result<Seq<Seq<char>>, FsErr> {
    match get_node_spec(root, p) {
        Ok(m) => match m {
            NodeModel::Directory { children } => Ok(keys_of(children)),
            NodeModel::File { .. } => Err(FsErr::NotADirectory),
        },
        Err(e) => Err(e),
    }
}

/// The default namespace layout: four empty top-level directories.
pub open spec fn default_fs() -> NodeModel {
    NodeModel::Directory {
        children: seq![
            ("Documents"@, empty_dir()),
            ("Images"@, empty_dir()),
            ("Trash"@, empty_dir()),
            ("Videos"@, empty_dir()),
        ],
    }
}


/// Strict order on every adjacent pair of keys orders every pair.
pub proof fn lemma_adjacent_sorted(s: Seq<(Seq<char>, NodeModel)>, i: int, j: int)
    requires
        forall|t: int| 0 <= t < s.len() - 1 ==> seq_lt(#[trigger] s[t].0, s[t + 1].0),
        0 <= i < j < s.len(),
    ensures
        seq_lt(s[i].0, s[j].0),
    decreases j - i,
{
    if j == i + 1 {
        assert(seq_lt(s[i].0, s[i + 1].0));
    } else {
        lemma_adjacent_sorted(s, i, j - 1);
        assert(seq_lt(s[j - 1].0, s[j].0));
        lemma_seq_lt_transitive(s[i].0, s[j - 1].0, s[j].0);
    }
}

/// Whether a node is a well-formed tree: every directory's children
/// strictly ordered by name, recursively.
#[verifier::loop_isolation(false)]
pub fn node_wf_check(node: &FileSystemNode) -> (r: bool)
    ensures
        r == model_wf(node_model(*node)),
    decreases *node,
{
    match node {
        FileSystemNode::File { .. } => true,
        FileSystemNode::Directory { nodes, .. } => {
            let ghost cm = children_model(nodes@);
            proof {
                lemma_children_model(nodes@);
            }
            let n = nodes.len();
            let mut k: usize = 1;
            while k < n
                invariant
                    1 <= k,
                    forall|t: int| 0 <= t < k - 1 ==> seq_lt(#[trigger] cm[t].0, cm[t + 1].0),
                decreases n - k,
            {
                let c = str_compare(nodes[k - 1].0.as_str(), nodes[k].0.as_str());
                if c != -1 {
                    proof {
                        lemma_seq_lt_asymmetric(cm[k as int].0, cm[k - 1].0);
                        assert(!seq_lt(cm[k - 1].0, cm[k as int].0));
                        assert(!sorted_keys(cm));
                    }
                    return false;
                }
                k = k + 1;
            }
            proof {
                assert forall|i: int, j: int| 0 <= i < j < cm.len() implies seq_lt(
                    cm[i].0,
                    cm[j].0,
                ) by {
                    lemma_adjacent_sorted(cm, i, j);
                }
                assert(sorted_keys(cm));
            }
            let mut t: usize = 0;
            while t < n
                invariant
                    0 <= t <= n,
                    forall|u: int| 0 <= u < t ==> model_wf(#[trigger] cm[u].1),
                decreases n - t,
            {
                let child = &nodes[t].1;
                proof {
                    assert(*child == nodes@[t as int].1);
                }
                let child_ok = node_wf_check(child);
                if !child_ok {
                    proof {
                        assert(!model_wf(node_model(nodes@[t as int].1)));
                        assert(cm[t as int] == (nodes@[t as int].0@, node_model(
                            nodes@[t as int].1,
                        )));
                        assert(!model_wf(cm[t as int].1));
                        lemma_children_all_wf(cm);
                        assert(!children_all_wf(cm));
                    }
                    return false;
                }
                t = t + 1;
            }
            proof {
                lemma_children_all_wf(cm);
            }
            true
        },
    }
}

/// The default layout is a well-formed directory.
pub proof fn lemma_default_fs_wf()
    ensures
        default_fs() is Directory,
        model_wf(default_fs()),
{
    let target = default_fs()->children;
    reveal_strlit("Documents");
    reveal_strlit("Images");
    reveal_strlit("Trash");
    reveal_strlit("Videos");
    assert(seq_lt("Documents"@, "Images"@));
    assert(seq_lt("Documents"@, "Trash"@));
    assert(seq_lt("Documents"@, "Videos"@));
    assert(seq_lt("Images"@, "Trash"@));
    assert(seq_lt("Images"@, "Videos"@));
    assert(seq_lt("Trash"@, "Videos"@));
    assert(sorted_keys(target));
    lemma_children_all_wf(target);
    assert(model_wf(empty_dir()));
    assert(children_all_wf(target));
}

/// A per-conversation namespace: one root directory.
pub struct FileSystem {
    root: FileSystemNode,
}

impl View for FileSystem {
    type V = NodeModel;

    closed spec fn view(&self) -> NodeModel {
        node_model(self.root)
    }
}

impl FileSystem {
    /// The invariant constructors establish and mutations preserve.
    pub open spec fn wf(&self) -> bool {
        self@ is Directory && model_wf(self@)
    }

    /// Whether the tree is well-formed; lets a store validate a tree it
    /// rebuilt from bytes before handing it to the operations that rely
    /// on well-formedness.
    pub fn check_wf(&self) -> (r: bool)
        ensures
            r == self.wf(),
    {
        let dir = self.root.is_directory();
        if !dir {
            return false;
        }
        node_wf_check(&self.root)
    }

    /// The root node, for a store that persists the whole tree.
    pub fn root_node(&self) -> (r: &FileSystemNode)
        ensures
            node_model(*r) == self@,
    {
        &self.root
    }

    /// A namespace reloaded around a stored root. Only trees that the
    /// library's own operations produced keep the well-formedness the
    /// operations rely on; a store must hand back what it was given.
    pub fn from_root(root: FileSystemNode) -> (r: Self)
        ensures
            r@ == root@,
    {
        FileSystem { root }
    }

    /// An empty namespace: a root directory with no children, stamped
    /// with the creation time the caller read from its clock.
    pub fn new(created_at: u64) -> (r: Self)
        ensures
            r@ == empty_dir(),
            r.wf(),
    {
        FileSystem { root: FileSystemNode::new_directory(created_at) }
    }

    /// The node at `path`, or its nearest file ancestor; `NotAbsolute` or
    /// `NotFound` otherwise.
    pub fn get_node<'a>(&'a self, path: &FsPath) -> (r: Result<&'a FileSystemNode, String>)
        ensures
            match get_node_spec(self@, path@) {
                Ok(m) => r matches Ok(nd) && node_model(*nd) == m,
                Err(e) => r matches Err(s) && s@ == err_msg(e),
            },
    {
        if !path.is_absolute() {
            return Err(err_string("Path must be absolute"));
        }
        let segs = path.segments();
        let r = node_resolve(&self.root, segs, 0);
        proof {
            assert(segs.deep_view().skip(0) =~= path@.segments);
        }
        r
    }

    /// Place `node` at `path`, creating missing intermediate directories
    /// stamped with the given creation time.
    pub fn insert_node(&mut self, path: &FsPath, node: FileSystemNode, created_at: u64) -> (r:
        Result<(), String>)
        requires
            old(self).wf(),
            model_wf(node@),
        ensures
            final(self).wf(),
            match insert_node_spec(old(self)@, path@, node@) {
                Ok(m) => r is Ok && final(self)@ == m,
                Err(e) => (r matches Err(s) && s@ == err_msg(e)) && final(self)@ == old(self)@,
            },
    {
        if !path.is_absolute() {
            return Err(err_string("Path must be absolute"));
        }
        if path.segment_count() == 0 {
            return Err(err_string("Invalid path"));
        }
        let segs = path.segments();
        let r = node_insert_at(&mut self.root, segs, 0, node, created_at);
        proof {
            assert(segs.deep_view().skip(0) =~= path@.segments);
        }
        r
    }

    /// Take the node at `path` out of the tree. The walk to its parent
    /// creates missing intermediate directories even when the node is then
    /// not found.
    pub fn remove_node(&mut self, path: &FsPath, created_at: u64) -> (r: Result<
        FileSystemNode,
        String,
    >)
        requires
            old(self).wf(),
        ensures
            final(self).wf(),
            final(self)@ == remove_node_spec(old(self)@, path@).1,
            match remove_node_spec(old(self)@, path@).0 {
                Ok(m) => r matches Ok(nd) && node_model(nd) == m && model_wf(m),
                Err(e) => r matches Err(s) && s@ == err_msg(e),
            },
    {
        if !path.is_absolute() {
            return Err(err_string("Path must be absolute"));
        }
        if path.segment_count() == 0 {
            return Err(err_string("Invalid path"));
        }
        let segs = path.segments();
        let r = node_remove_at(&mut self.root, segs, 0, created_at);
        proof {
            assert(segs.deep_view().skip(0) =~= path@.segments);
        }
        r
    }

    /// The child names of the directory at `path`.
    pub fn ls(&self, path: &FsPath) -> (r: Result<Vec<String>, String>)
        ensures
            match ls_spec(self@, path@) {
                Ok(ks) => r matches Ok(v) && v.deep_view() == ks,
                Err(e) => r matches Err(s) && s@ == err_msg(e),
            },
    {
        match self.get_node(path) {
            Ok(node) => node.ls(),
            Err(e) => Err(e),
        }
    }

    /// Create an empty directory at `path`, overwriting whatever was
    /// there; every missing ancestor is created on the way.
    pub fn mkdir(&mut self, path: &FsPath, created_at: u64) -> (r: Result<(), String>)
        requires
            old(self).wf(),
        ensures
            final(self).wf(),
            match mkdir_spec(old(self)@, path@) {
                Ok(m) => r is Ok && final(self)@ == m,
                Err(e) => (r matches Err(s) && s@ == err_msg(e)) && final(self)@ == old(self)@,
            },
    {
        self.insert_node(path, FileSystemNode::new_directory(created_at), created_at)
    }

    /// Store a file node, inferring the final path's extension from the
    /// node's content type; returns the path actually used.
    pub fn create_file_from_node(
        &mut self,
        path: &FsPath,
        file_node: FileSystemNode,
        created_at: u64,
    ) -> (r: Result<FsPath, String>)
        requires
            old(self).wf(),
            model_wf(file_node@),
        ensures
            final(self).wf(),
            match insert_node_spec(
                old(self)@,
                final_file_path(path@, node_mime(file_node@)),
                file_node@,
            ) {
                Ok(m) => (r matches Ok(p) && p@ == final_file_path(path@, node_mime(file_node@)))
                    && final(self)@ == m,
                Err(e) => (r matches Err(s) && s@ == err_msg(e)) && final(self)@ == old(self)@,
            },
    {
        let ghost target = final_file_path(path@, node_mime(file_node@));
        let new_path: FsPath;
        if path.segment_count() > 0 {
            let name = match path.file_name() {
                Option::Some(nm) => nm,
                Option::None => unreached(),
            };
            if !name_has_extension(name.as_str()) {
                match file_node.file_mime_type() {
                    Option::Some(m) => {
                        let ext: String = if mime_is_pseudo(m.as_str()) {
                            m
                        } else {
                            match mime_to_extension(m.as_str()) {
                                Option::Some(e) => e,
                                Option::None => String::new(),
                            }
                        };
                        if ext.unicode_len() > 0 {
                            let mut nn = name;
                            nn.append(".");
                            nn.append(ext.as_str());
                            proof {
                                reveal_strlit(".");
                                assert("."@ =~= seq!['.']);
                            }
                            new_path = path.replace_last(nn);
                            proof {
                                assert(new_path@.segments =~= target.segments);
                                assert(new_path@ == target);
                            }
                        } else {
                            new_path = path.clone();
                        }
                    },
                    Option::None => {
                        new_path = path.clone();
                    },
                }
            } else {
                new_path = path.clone();
            }
        } else {
            new_path = path.clone();
        }
        match self.insert_node(&new_path, file_node, created_at) {
            Ok(_u) => Ok(new_path),
            Err(e) => Err(e),
        }
    }

    /// Store a fresh file node at `path`; see `create_file_from_node`.
    pub fn create_file(
        &mut self,
        path: &FsPath,
        message_id: MessageId,
        size: u64,
        mime_type: Option<String>,
        created_at: u64,
    ) -> (r: Result<FsPath, String>)
        requires
            old(self).wf(),
        ensures
            final(self).wf(),
            ({
                let node = NodeModel::File {
                    message_id: message_id as int,
                    size: size as int,
                    mime_type: mime_type.deep_view(),
                };
                match insert_node_spec(
                    old(self)@,
                    final_file_path(path@, mime_type.deep_view()),
                    node,
                ) {
                    Ok(m) => (r matches Ok(p) && p@ == final_file_path(
                        path@,
                        mime_type.deep_view(),
                    )) && final(self)@ == m,
                    Err(e) => (r matches Err(s) && s@ == err_msg(e)) && final(self)@ == old(
                        self,
                    )@,
                }
            }),
    {
        let file_node = FileSystemNode::new_file(message_id, size, mime_type, created_at);
        self.create_file_from_node(path, file_node, created_at)
    }

    /// Move the node at `from` to `to`: a removal followed by a
    /// parent-creating insertion, not one atomic swap.
    pub fn mv(&mut self, from: &FsPath, to: &FsPath, created_at: u64) -> (r: Result<(), String>)
        requires
            old(self).wf(),
        ensures
            final(self).wf(),
            ({
                let removed = remove_node_spec(old(self)@, from@);
                match removed.0 {
                    Err(e) => (r matches Err(s) && s@ == err_msg(e)) && final(self)@ == removed.1,
                    Ok(m) => match insert_node_spec(removed.1, to@, m) {
                        Ok(t) => r is Ok && final(self)@ == t,
                        Err(e) => (r matches Err(s) && s@ == err_msg(e)) && final(self)@
                            == removed.1,
                    },
                }
            }),
    {
        match self.remove_node(from, created_at) {
            Ok(node) => self.insert_node(to, node, created_at),
            Err(e) => Err(e),
        }
    }
}

impl FileSystem {
    /// The namespace a conversation starts with: `Documents`, `Images`,
    /// `Trash` and `Videos` under the root, stamped with the creation
    /// time the caller read from its clock.
    pub fn with_default_layout(created_at: u64) -> (r: Self)
        ensures
            r@ == default_fs(),
            r.wf(),
    {
        let mut nodes: FileSystemNodes = Vec::new();
        nodes.push((String::from_str("Documents"), FileSystemNode::new_directory(created_at)));
        nodes.push((String::from_str("Images"), FileSystemNode::new_directory(created_at)));
        nodes.push((String::from_str("Trash"), FileSystemNode::new_directory(created_at)));
        nodes.push((String::from_str("Videos"), FileSystemNode::new_directory(created_at)));
        proof {
            let target = default_fs()->children;
            lemma_children_model(nodes@);
            assert(children_model(nodes@) =~= target);
            reveal_strlit("Documents");
            reveal_strlit("Images");
            reveal_strlit("Trash");
            reveal_strlit("Videos");
            assert(seq_lt("Documents"@, "Images"@));
            assert(seq_lt("Documents"@, "Trash"@));
            assert(seq_lt("Documents"@, "Videos"@));
            assert(seq_lt("Images"@, "Trash"@));
            assert(seq_lt("Images"@, "Videos"@));
            assert(seq_lt("Trash"@, "Videos"@));
            assert(sorted_keys(target));
            lemma_children_all_wf(target);
            assert(model_wf(empty_dir()));
            assert(children_all_wf(target));
        }
        let root = FileSystemNode::Directory { created_at, nodes };
        FileSystem { root }
    }
}

impl Default for FileSystem {
    /// The default layout, with every creation time at the epoch; a store
    /// that has a clock passes its reading to `with_default_layout`.
    fn default() -> (r: Self)
        ensures
            r@ == default_fs(),
            r.wf(),
    {
        FileSystem::with_default_layout(0)
    }
}


/// A deep copy of the children from index `i` on.
fn clone_children(nodes: &FileSystemNodes, i: usize) -> (r: FileSystemNodes)
    requires
        i <= nodes@.len(),
    ensures
        children_model(r@) == children_model(nodes@).skip(i as int),
    decreases nodes@, nodes@.len() - i,
{
    let ghost cm = children_model(nodes@);
    proof {
        lemma_children_model(nodes@);
    }
    if i == nodes.len() {
        let r = Vec::<(String, FileSystemNode)>::new();
        proof {
            lemma_children_model(r@);
            assert(children_model(r@) =~= cm.skip(i as int));
        }
        r
    } else {
        let key = nodes[i].0.clone();
        let val = nodes[i].1.clone();
        let mut rest = clone_children(nodes, i + 1);
        let ghost restv = rest@;
        rest.insert(0, (key, val));
        proof {
            lemma_children_model(restv);
            lemma_children_model(rest@);
            let dv = children_model(rest@);
            let target = cm.skip(i as int);
            assert(dv.len() == rest@.len());
            assert(children_model(restv).len() == restv.len());
            assert forall|k: int| 0 <= k < dv.len() implies dv[k] == target[k] by {
                assert(dv[k] == (rest@[k].0@, node_model(rest@[k].1)));
                assert(target[k] == cm[i + k]);
                assert(cm[i + k] == (nodes@[i + k].0@, node_model(nodes@[i + k].1)));
                if k == 0 {
                    assert(rest@[0] == (key, val));
                } else {
                    assert(rest@[k] == restv[k - 1]);
                    assert(children_model(restv)[k - 1] == (
                        restv[k - 1].0@,
                        node_model(restv[k - 1].1),
                    ));
                    assert(children_model(restv)[k - 1] == cm.skip(i + 1)[k - 1]);
                    assert(cm.skip(i + 1)[k - 1] == cm[i + k]);
                }
            }
            assert(dv =~= target);
        }
        rest
    }
}

impl Clone for FileSystemNode {
    /// A copy with the same model.
    fn clone(&self) -> (r: Self)
        ensures
            r@ == self@,
        decreases *self,
    {
        match self {
            FileSystemNode::File { message_id, created_at, size, mime_type } => {
                let mt = match mime_type {
                    Option::Some(m) => Option::Some(m.clone()),
                    Option::None => Option::None,
                };
                proof {
                    assert(mt.deep_view() == mime_type.deep_view());
                }
                FileSystemNode::File {
                    message_id: *message_id,
                    created_at: *created_at,
                    size: *size,
                    mime_type: mt,
                }
            },
            FileSystemNode::Directory { created_at, nodes } => {
                let cloned = clone_children(nodes, 0);
                proof {
                    assert(children_model(nodes@).skip(0) =~= children_model(nodes@));
                }
                FileSystemNode::Directory { created_at: *created_at, nodes: cloned }
            },
        }
    }
}

impl Clone for FileSystem {
    /// A copy with the same model.
    fn clone(&self) -> (r: Self)
        ensures
            r@ == self@,
    {
        FileSystem { root: self.root.clone() }
    }
}


/// The `Ok` payload of a store outcome (the empty directory otherwise).
pub open spec fn ok_of(r: Result<NodeModel, FsErr>) -> NodeModel {
    match r {
        Ok(m) => m,
        Err(_) => empty_dir(),
    }
}

/// One path leads into the other.
pub open spec fn is_prefix_of(a: Seq<Seq<char>>, b: Seq<Seq<char>>) -> bool {
    a.len() <= b.len() && a == b.take(a.len() as int)
}

/// What `lookup` sees after a binding: the bound name maps to the new
/// node, every other name as before.
pub proof fn lemma_lookup_insert(
    s: Seq<(Seq<char>, NodeModel)>,
    name: Seq<char>,
    v: NodeModel,
    other: Seq<char>,
)
    ensures
        lookup(insert_child(s, name, v), name) == Some(v),
        other != name ==> lookup(insert_child(s, name, v), other) == lookup(s, other),
    decreases s.len(),
{
    let res = insert_child(s, name, v);
    if s.len() == 0 {
        assert(res == seq![(name, v)]);
        assert(res.skip(1) =~= Seq::<(Seq<char>, NodeModel)>::empty());
    } else if seq_lt(name, s[0].0) {
        assert(res == seq![(name, v)] + s);
        assert(res[0] == (name, v));
        assert(res.skip(1) =~= s);
        lemma_seq_lt_asymmetric(name, s[0].0);
    } else if s[0].0 == name {
        assert(res == seq![(name, v)] + s.skip(1));
        assert(res[0] == (name, v));
        assert(res.skip(1) =~= s.skip(1));
        if other != name {
            assert(lookup(s, other) == lookup(s.skip(1), other));
            assert(lookup(res, other) == lookup(res.skip(1), other));
        }
    } else {
        lemma_lookup_insert(s.skip(1), name, v, other);
        assert(res == seq![s[0]] + insert_child(s.skip(1), name, v));
        assert(res[0] == s[0]);
        assert(res.skip(1) =~= insert_child(s.skip(1), name, v));
    }
}

/// After unbinding a name from a sorted list, it is gone; other names are
/// untouched.
pub proof fn lemma_lookup_remove(s: Seq<(Seq<char>, NodeModel)>, name: Seq<char>, other: Seq<char>)
    requires
        sorted_keys(s),
    ensures
        lookup(remove_child(s, name), name) is None,
        other != name ==> lookup(remove_child(s, name), other) == lookup(s, other),
    decreases s.len(),
{
    let res = remove_child(s, name);
    if s.len() == 0 {
    } else if s[0].0 == name {
        assert(res == s.skip(1));
        lemma_lookup_some(s.skip(1), name);
        match lookup(s.skip(1), name) {
            Option::Some(v) => {
                let u = choose|u: int|
                    0 <= u < s.skip(1).len() && (#[trigger] s.skip(1)[u]) == (name, v);
                assert(s[u + 1] == s.skip(1)[u]);
                assert(seq_lt(s[0].0, s[u + 1].0));
                lemma_seq_lt_asymmetric(s[0].0, s[u + 1].0);
                assert(false);
            },
            Option::None => {},
        }
        if other != name {
            assert(lookup(s, other) == lookup(s.skip(1), other));
        }
    } else {
        assert forall|i: int, j: int| 0 <= i < j < s.skip(1).len() implies seq_lt(
            #[trigger] s.skip(1)[i].0,
            #[trigger] s.skip(1)[j].0,
        ) by {
            assert(s.skip(1)[i] == s[i + 1]);
            assert(s.skip(1)[j] == s[j + 1]);
        }
        lemma_lookup_remove(s.skip(1), name, other);
        assert(res == seq![s[0]] + remove_child(s.skip(1), name));
        assert(res[0] == s[0]);
        assert(res.skip(1) =~= remove_child(s.skip(1), name));
    }
}

/// A parent-creating insertion that succeeds makes every intermediate of
/// its path a directory, and leaves the inserted node at the full path.
pub proof fn lemma_insert_creates_ancestors(m: NodeModel, segs: Seq<Seq<char>>, leaf: NodeModel)
    requires
        segs.len() >= 1,
        insert_at(m, segs, leaf) is Ok,
    ensures
        ok_of(insert_at(m, segs, leaf)) is Directory,
        resolve_at(ok_of(insert_at(m, segs, leaf)), segs) == Ok::<NodeModel, FsErr>(leaf),
        forall|i: int|
            1 <= i < segs.len() ==> (resolve_at(
                ok_of(insert_at(m, segs, leaf)),
                #[trigger] segs.take(i),
            ) matches Ok(d) && d is Directory),
    decreases segs.len(),
{
    let children = m->children;
    let res = ok_of(insert_at(m, segs, leaf));
    if segs.len() == 1 {
        lemma_lookup_insert(children, segs[0], leaf, segs[0]);
        assert(resolve_at(res, segs) == resolve_at(leaf, segs.skip(1)));
        assert(segs.skip(1).len() == 0);
        assert(resolve_at(leaf, segs.skip(1)) == Ok::<NodeModel, FsErr>(leaf));
    } else {
        let child = match lookup(children, segs[0]) {
            Option::Some(c) => c,
            Option::None => empty_dir(),
        };
        let sub = ok_of(insert_at(child, segs.skip(1), leaf));
        lemma_insert_creates_ancestors(child, segs.skip(1), leaf);
        lemma_lookup_insert(children, segs[0], sub, segs[0]);
        assert(resolve_at(res, segs) == resolve_at(sub, segs.skip(1)));
        assert forall|i: int| 1 <= i < segs.len() implies (resolve_at(
            res,
            #[trigger] segs.take(i),
        ) matches Ok(d) && d is Directory) by {
            assert(segs.take(i)[0] == segs[0]);
            assert(resolve_at(res, segs.take(i)) == resolve_at(sub, segs.take(i).skip(1)));
            if i == 1 {
                assert(segs.take(1).skip(1).len() == 0);
                assert(resolve_at(sub, segs.take(i).skip(1)) == Ok::<NodeModel, FsErr>(sub));
            } else {
                assert(segs.take(i).skip(1) =~= segs.skip(1).take(i - 1));
            }
        }
    }
}

/// After a removal that succeeds in a well-formed tree, the removed path
/// no longer resolves.
pub proof fn lemma_remove_resolve(m: NodeModel, segs: Seq<Seq<char>>)
    requires
        segs.len() >= 1,
        model_wf(m),
        remove_at(m, segs).0 is Ok,
    ensures
        resolve_at(remove_at(m, segs).1, segs) == Err::<NodeModel, FsErr>(FsErr::NotFound),
    decreases segs.len(),
{
    let children = m->children;
    let rest = remove_at(m, segs).1;
    if segs.len() == 1 {
        lemma_lookup_remove(children, segs[0], segs[0]);
    } else {
        match lookup(children, segs[0]) {
            Option::None => {
                lemma_remove_at_missing_errs(empty_dir(), segs.skip(1));
                assert(false);
            },
            Option::Some(c) => {
                assert(!(c is File));
                let sub = remove_at(c, segs.skip(1));
                lemma_children_all_wf(children);
                lemma_lookup_some(children, segs[0]);
                let u = choose|u: int|
                    0 <= u < children.len() && (#[trigger] children[u]) == (segs[0], c);
                assert(model_wf(children[u].1));
                lemma_remove_resolve(c, segs.skip(1));
                lemma_lookup_insert(children, segs[0], sub.1, segs[0]);
                assert(resolve_at(rest, segs) == resolve_at(sub.1, segs.skip(1)));
            },
        }
    }
}

/// A removal whose walk starts below a freshly created directory always
/// ends in `NodeNotFound`.
pub proof fn lemma_remove_at_missing_errs(m: NodeModel, segs: Seq<Seq<char>>)
    requires
        segs.len() >= 1,
        m == empty_dir(),
    ensures
        remove_at(m, segs).0 == Err::<NodeModel, FsErr>(FsErr::NodeNotFound),
    decreases segs.len(),
{
    if segs.len() == 1 {
    } else {
        lemma_remove_at_missing_errs(empty_dir(), segs.skip(1));
    }
}

/// A parent-creating insertion somewhere else cannot bring a vanished
/// path back, as long as neither path leads into the other.
pub proof fn lemma_insert_preserves_notfound(
    m: NodeModel,
    from: Seq<Seq<char>>,
    to: Seq<Seq<char>>,
    leaf: NodeModel,
)
    requires
        from.len() >= 1,
        to.len() >= 1,
        resolve_at(m, from) == Err::<NodeModel, FsErr>(FsErr::NotFound),
        insert_at(m, to, leaf) is Ok,
        !is_prefix_of(from, to),
        !is_prefix_of(to, from),
    ensures
        resolve_at(ok_of(insert_at(m, to, leaf)), from) == Err::<NodeModel, FsErr>(FsErr::NotFound),
    decreases to.len(),
{
    let children = m->children;
    let res = ok_of(insert_at(m, to, leaf));
    if from[0] != to[0] {
        if to.len() == 1 {
            lemma_lookup_insert(children, to[0], leaf, from[0]);
        } else {
            let child = match lookup(children, to[0]) {
                Option::Some(c) => c,
                Option::None => empty_dir(),
            };
            let sub = ok_of(insert_at(child, to.skip(1), leaf));
            lemma_lookup_insert(children, to[0], sub, from[0]);
        }
        assert(lookup(res->children, from[0]) == lookup(children, from[0]));
        match lookup(children, from[0]) {
            Option::None => {},
            Option::Some(c) => {
                assert(resolve_at(res, from) == resolve_at(c, from.skip(1)));
            },
        }
    } else {
        if from.len() == 1 {
            assert(from =~= to.take(1));
            assert(false);
        }
        if to.len() == 1 {
            assert(to =~= from.take(1));
            assert(false);
        }
        let child = match lookup(children, to[0]) {
            Option::Some(c) => c,
            Option::None => empty_dir(),
        };
        if is_prefix_of(from.skip(1), to.skip(1)) {
            assert(from.skip(1) == to.skip(1).take(from.len() - 1));
            assert forall|w: int| 0 <= w < from.len() implies from[w] == to.take(
                from.len() as int,
            )[w] by {
                if w > 0 {
                    assert(from.skip(1)[w - 1] == to.skip(1).take(from.len() - 1)[w - 1]);
                    assert(to.skip(1).take(from.len() - 1)[w - 1] == to[w]);
                }
            }
            assert(from =~= to.take(from.len() as int));
            assert(false);
        }
        if is_prefix_of(to.skip(1), from.skip(1)) {
            assert(to.skip(1) == from.skip(1).take(to.len() - 1));
            assert forall|w: int| 0 <= w < to.len() implies to[w] == from.take(
                to.len() as int,
            )[w] by {
                if w > 0 {
                    assert(to.skip(1)[w - 1] == from.skip(1).take(to.len() - 1)[w - 1]);
                    assert(from.skip(1).take(to.len() - 1)[w - 1] == from[w]);
                }
            }
            assert(to =~= from.take(to.len() as int));
            assert(false);
        }
        match lookup(children, from[0]) {
            Option::None => {
                assert(resolve_at(empty_dir(), from.skip(1)) == Err::<NodeModel, FsErr>(
                    FsErr::NotFound,
                ));
                lemma_insert_preserves_notfound(empty_dir(), from.skip(1), to.skip(1), leaf);
            },
            Option::Some(c) => {
                assert(resolve_at(c, from.skip(1)) == Err::<NodeModel, FsErr>(FsErr::NotFound));
                lemma_insert_preserves_notfound(c, from.skip(1), to.skip(1), leaf);
            },
        }
        let sub = ok_of(insert_at(child, to.skip(1), leaf));
        lemma_lookup_insert(children, to[0], sub, from[0]);
        assert(resolve_at(res, from) == resolve_at(sub, from.skip(1)));
    }
}

/// Creating a directory creates every missing ancestor: afterwards every
/// prefix of the path, the full path included, resolves to a directory.
pub proof fn lemma_mkdir_creates_ancestors(root: NodeModel, p: PathModel)
    requires
        mkdir_spec(root, p) is Ok,
    ensures
        forall|i: int|
            1 <= i <= p.segments.len() ==> (get_node_spec(
                ok_of(mkdir_spec(root, p)),
                PathModel { absolute: true, segments: #[trigger] p.segments.take(i) },
            ) matches Ok(d) && d is Directory),
        get_node_spec(ok_of(mkdir_spec(root, p)), p) == Ok::<NodeModel, FsErr>(empty_dir()),
{
    lemma_insert_creates_ancestors(root, p.segments, empty_dir());
    assert(p.segments.take(p.segments.len() as int) =~= p.segments);
    assert forall|i: int| 1 <= i <= p.segments.len() implies (get_node_spec(
        ok_of(mkdir_spec(root, p)),
        PathModel { absolute: true, segments: #[trigger] p.segments.take(i) },
    ) matches Ok(d) && d is Directory) by {
        if i < p.segments.len() {
        } else {
            assert(p.segments.take(i) =~= p.segments);
        }
    }
}

/// Moving a node to an unrelated place succeeds in leaving nothing at the
/// source and exactly the moved node at the destination.
pub proof fn lemma_move(root: NodeModel, from: PathModel, to: PathModel)
    requires
        model_wf(root),
        remove_node_spec(root, from).0 is Ok,
        insert_node_spec(remove_node_spec(root, from).1, to, ok_of(remove_node_spec(root, from).0))
            is Ok,
        !is_prefix_of(from.segments, to.segments),
        !is_prefix_of(to.segments, from.segments),
    ensures
        ({
            let mid = remove_node_spec(root, from).1;
            let moved = ok_of(remove_node_spec(root, from).0);
            let fin = ok_of(insert_node_spec(mid, to, moved));
            &&& get_node_spec(fin, from) == Err::<NodeModel, FsErr>(FsErr::NotFound)
            &&& get_node_spec(fin, to) == Ok::<NodeModel, FsErr>(moved)
        }),
{
    let mid = remove_node_spec(root, from).1;
    let moved = ok_of(remove_node_spec(root, from).0);
    let fin = ok_of(insert_node_spec(mid, to, moved));
    assert(from.absolute && from.segments.len() >= 1);
    assert(to.absolute && to.segments.len() >= 1);
    lemma_remove_resolve(root, from.segments);
    lemma_insert_preserves_notfound(mid, from.segments, to.segments, moved);
    lemma_insert_creates_ancestors(mid, to.segments, moved);
}

} // verus!
