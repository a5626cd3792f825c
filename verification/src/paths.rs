//! Where a document lands in the output tree, and how far below the root it sits.
//!
//! A path is a sequence of segments, root first. In contracts it is seen as a
//! `Seq<Seq<char>>`, one inner sequence per segment.

use vstd::prelude::*;
use vstd::string::*;

verus! {

/// The only way in which resolving a path fails.
#[derive(Debug, Clone, Copy, PartialEq, Eq)]
pub enum PathError {
    /// The source does not lie below the input root.
    PathOutsideRoot,
}

/// The position of a document in the output tree.
#[derive(Debug, Clone, PartialEq, Eq)]
pub struct PathInfo {
    /// The output root, then the document's directories, then its page name.
    pub destination_path: Vec<String>,
    /// One parent-directory token for each directory between the input root and the document.
    pub link_prefix: String,
}

/// A path as the sequence of its segments' characters.
pub open spec fn path_view(path: Seq<String>) -> Seq<Seq<char>> {
    Seq::new(path.len(), |i: int| path[i]@)
}

/// The source has every segment of the root in front, and at least one more.
pub open spec fn is_under(source: Seq<Seq<char>>, root: Seq<Seq<char>>) -> bool {
    &&& root.len() < source.len()
    &&& forall|i: int| 0 <= i < root.len() ==> source[i] == root[i]
}

/// What is left of the source once the root's segments are taken off.
pub open spec fn relative_of(source: Seq<Seq<char>>, root: Seq<Seq<char>>) -> Seq<Seq<char>> {
    source.subrange(root.len() as int, source.len() as int)
}

/// The number of directories between the root and a document with this relative path.
pub open spec fn depth_of(relative: Seq<Seq<char>>) -> nat {
    if relative.len() == 0 {
        0
    } else {
        (relative.len() - 1) as nat
    }
}

/// The parent-directory token.
pub open spec fn up_token() -> Seq<char> {
    seq!['.', '.']
}

/// The token repeated `depth` times.
pub open spec fn link_prefix_of(depth: nat) -> Seq<char>
    decreases depth,
{
    if depth == 0 {
        Seq::empty()
    } else {
        link_prefix_of((depth - 1) as nat) + up_token()
    }
}

/// The index of the last `.` in a name, or -1 where it has none.
pub open spec fn dot_position(name: Seq<char>) -> int
    decreases name.len(),
{
    if name.len() == 0 {
        -1
    } else if name.last() == '.' {
        name.len() - 1
    } else {
        dot_position(name.drop_last())
    }
}

/// The name without its extension. A name with no dot, or whose only dot is
/// its first character, has no extension and is its own stem.
pub open spec fn stem_of(name: Seq<char>) -> Seq<char> {
    let d = dot_position(name);
    if d <= 0 {
        name
    } else {
        name.subrange(0, d)
    }
}

/// What follows the last dot, where the name has an extension.
pub open spec fn extension_of(name: Seq<char>) -> Option<Seq<char>> {
    let d = dot_position(name);
    if d <= 0 {
        None
    } else {
        Some(name.subrange(d + 1, name.len() as int))
    }
}

/// The name with its extension replaced. An empty extension leaves the bare stem.
pub open spec fn page_name_of(name: Seq<char>, ext: Seq<char>) -> Seq<char> {
    if ext.len() == 0 {
        stem_of(name)
    } else {
        stem_of(name) + seq!['.'] + ext
    }
}

/// The output root, the source's directories below the input root, and the page name.
pub open spec fn destination_of(
    source: Seq<Seq<char>>,
    root: Seq<Seq<char>>,
    out: Seq<Seq<char>>,
    ext: Seq<char>,
) -> Seq<Seq<char>> {
    (out + source.subrange(root.len() as int, source.len() - 1)).push(
        page_name_of(source.last(), ext),
    )
}

/// The last dot lies inside the name, and nothing after it is a dot.
pub proof fn lemma_dot_position(name: Seq<char>)
    ensures
        -1 <= dot_position(name) < name.len(),
        dot_position(name) >= 0 ==> name[dot_position(name)] == '.',
        forall|j: int| dot_position(name) < j < name.len() ==> name[j] != '.',
    decreases name.len(),
{
    if name.len() > 0 && name.last() != '.' {
        let front = name.drop_last();
        lemma_dot_position(front);
        assert forall|j: int| dot_position(name) < j < name.len() implies name[j] != '.' by {
            if j < front.len() {
                assert(front[j] == name[j]);
            }
        }
    }
}

/// A position that holds a dot with no dot after it is the last dot's.
pub proof fn lemma_dot_position_is(name: Seq<char>, d: int)
    requires
        -1 <= d < name.len(),
        d >= 0 ==> name[d] == '.',
        forall|j: int| d < j < name.len() ==> name[j] != '.',
    ensures
        dot_position(name) == d,
{
    lemma_dot_position(name);
}

/// The prefix grows by one token with each level: it is empty at depth 0,
/// one token at depth 1, and two characters longer for every further level.
pub proof fn link_prefix_is_linear(depth: nat)
    ensures
        link_prefix_of(depth).len() == 2 * depth,
        link_prefix_of(0) == Seq::<char>::empty(),
        link_prefix_of(1) == up_token(),
        link_prefix_of(depth + 1) == link_prefix_of(depth) + up_token(),
    decreases depth,
{
    if depth > 0 {
        link_prefix_is_linear((depth - 1) as nat);
    }
    assert(link_prefix_of(1) =~= up_token()) by {
        assert(link_prefix_of(0) =~= Seq::<char>::empty());
        assert(link_prefix_of(1) == link_prefix_of(0) + up_token());
    }
}

/// A document directly below the root has depth 0, and each directory in
/// between adds one.
pub proof fn depth_counts_directories(source: Seq<Seq<char>>, root: Seq<Seq<char>>)
    requires
        is_under(source, root),
    ensures
        depth_of(relative_of(source, root)) == source.len() - root.len() - 1,
{
}

/// A name is its stem where it has no extension, and else its stem, a dot
/// and its extension.
pub proof fn name_is_stem_and_extension(name: Seq<char>)
    ensures
        match extension_of(name) {
            Some(e) => name == stem_of(name) + seq!['.'] + e,
            None => name == stem_of(name),
        },
{
    lemma_dot_position(name);
    if let Some(e) = extension_of(name) {
        assert(name =~= stem_of(name) + seq!['.'] + e);
    }
}

/// Two file names that get the same page name have the same stem; where
/// they also have the same extension, or both have none, they are one name.
pub proof fn page_name_is_injective(first: Seq<char>, second: Seq<char>, ext: Seq<char>)
    requires
        page_name_of(first, ext) == page_name_of(second, ext),
    ensures
        stem_of(first) == stem_of(second),
        extension_of(first) == extension_of(second) ==> first == second,
{
    let page = page_name_of(first, ext);
    let a = stem_of(first);
    let b = stem_of(second);
    if ext.len() > 0 {
        assert(page.len() == a.len() + 1 + ext.len());
        assert(page.len() == b.len() + 1 + ext.len());
        assert(a =~= page.subrange(0, a.len() as int));
        assert(b =~= page.subrange(0, b.len() as int));
    }
    assert(a == b);
    name_is_stem_and_extension(first);
    name_is_stem_and_extension(second);
}

/// The page made from a non-empty file name carries the configured
/// extension, and keeps the source's stem, whenever that extension is not
/// empty and holds no dot.
pub proof fn page_name_has_extension(name: Seq<char>, ext: Seq<char>)
    requires
        name.len() > 0,
        ext.len() > 0,
        forall|j: int| 0 <= j < ext.len() ==> ext[j] != '.',
    ensures
        extension_of(page_name_of(name, ext)) == Some(ext),
        stem_of(page_name_of(name, ext)) == stem_of(name),
{
    lemma_dot_position(name);
    let stem = stem_of(name);
    let page = page_name_of(name, ext);
    assert(stem.len() > 0);
    assert(page[stem.len() as int] == '.');
    assert forall|j: int| stem.len() < j < page.len() implies page[j] != '.' by {
        assert(page[j] == ext[j - stem.len() - 1]);
    }
    lemma_dot_position_is(page, stem.len() as int);
    assert(page.subrange(stem.len() as int + 1, page.len() as int) =~= ext);
    assert(page.subrange(0, stem.len() as int) =~= stem);
}

/// The destination of a document below the input root lies below the output
/// root, and between the output root and the page name it has the very
/// directories that the source has between the input root and its file name.
pub proof fn destination_mirrors_source(
    source: Seq<Seq<char>>,
    root: Seq<Seq<char>>,
    out: Seq<Seq<char>>,
    ext: Seq<char>,
)
    requires
        is_under(source, root),
    ensures
        is_under(destination_of(source, root, out, ext), out),
        relative_of(destination_of(source, root, out, ext), out).len() == relative_of(
            source,
            root,
        ).len(),
        relative_of(destination_of(source, root, out, ext), out).drop_last() == relative_of(
            source,
            root,
        ).drop_last(),
        relative_of(destination_of(source, root, out, ext), out).last() == page_name_of(
            relative_of(source, root).last(),
            ext,
        ),
{
    let destination = destination_of(source, root, out, ext);
    assert(relative_of(destination, out).drop_last() =~= relative_of(source, root).drop_last());
}

/// Two documents below one input root that share a destination lie in the
/// same directory and have the same stem. So among documents whose file
/// names carry the same extension no two share a destination.
pub proof fn destination_is_unique(
    first: Seq<Seq<char>>,
    second: Seq<Seq<char>>,
    root: Seq<Seq<char>>,
    out: Seq<Seq<char>>,
    ext: Seq<char>,
)
    requires
        is_under(first, root),
        is_under(second, root),
        destination_of(first, root, out, ext) == destination_of(second, root, out, ext),
    ensures
        first.drop_last() == second.drop_last(),
        stem_of(first.last()) == stem_of(second.last()),
        extension_of(first.last()) == extension_of(second.last()) ==> first == second,
{
    let a = destination_of(first, root, out, ext);
    let b = destination_of(second, root, out, ext);
    assert(a.len() == out.len() + first.len() - root.len());
    assert(b.len() == out.len() + second.len() - root.len());
    assert(a.last() == page_name_of(first.last(), ext));
    assert(b.last() == page_name_of(second.last(), ext));
    page_name_is_injective(first.last(), second.last(), ext);
    assert forall|j: int| 0 <= j < first.len() - 1 implies first[j] == second[j] by {
        if root.len() <= j {
            assert(a[out.len() + j - root.len()] == first[j]);
            assert(b[out.len() + j - root.len()] == second[j]);
        }
    }
    assert(first.drop_last() =~= second.drop_last());
    if extension_of(first.last()) == extension_of(second.last()) {
        assert(first =~= second);
    }
}

/// A copy of a path, segment for segment.
pub fn copy_path(path: &Vec<String>) -> (copy: Vec<String>)
    ensures
        path_view(copy@) == path_view(path@),
{
    let mut copy: Vec<String> = Vec::new();
    let mut i: usize = 0;
    while i < path.len()
        invariant
            i <= path.len(),
            path_view(copy@) =~= path_view(path@).subrange(0, i as int),
        decreases path.len() - i,
    {
        let segment = path[i].clone();
        let ghost before = path_view(copy@);
        copy.push(segment);
        assert(path_view(copy@) =~= before.push(path_view(path@)[i as int]));
        i = i + 1;
    }
    assert(path_view(copy@) =~= path_view(path@));
    copy
}

/// Whether the source lies below the root.
pub fn is_below(source_path: &Vec<String>, input_root: &Vec<String>) -> (below: bool)
    ensures
        below == is_under(path_view(source_path@), path_view(input_root@)),
{
    if input_root.len() >= source_path.len() {
        return false;
    }
    let mut i: usize = 0;
    while i < input_root.len()
        invariant
            i <= input_root.len() < source_path.len(),
            forall|j: int| 0 <= j < i ==> source_path@[j]@ == input_root@[j]@,
        decreases input_root.len() - i,
    {
        if source_path[i] != input_root[i] {
            proof {
                let s = path_view(source_path@);
                let r = path_view(input_root@);
                assert(s[i as int] != r[i as int]);
            }
            return false;
        }
        i = i + 1;
    }
    true
}

/// The number of directories between the root and the source, where the
/// source lies below the root: 0 for a document directly in the root.
pub fn depth_below(source_path: &Vec<String>, input_root: &Vec<String>) -> (depth: Option<usize>)
    ensures
        depth is Some <==> is_under(path_view(source_path@), path_view(input_root@)),
        depth is Some ==> depth->Some_0 == depth_of(
            relative_of(path_view(source_path@), path_view(input_root@)),
        ),
        depth is Some ==> depth->Some_0 == source_path@.len() - input_root@.len() - 1,
{
    if is_below(source_path, input_root) {
        Some(source_path.len() - input_root.len() - 1)
    } else {
        None
    }
}

/// The parent-directory token, once for each level of depth.
pub fn link_prefix(depth: usize) -> (prefix: String)
    ensures
        prefix@ == link_prefix_of(depth as nat),
{
    let mut prefix = String::new();
    let mut i: usize = 0;
    while i < depth
        invariant
            i <= depth,
            prefix@ == link_prefix_of(i as nat),
        decreases depth - i,
    {
        proof {
            reveal_strlit("..");
            assert(".."@ =~= up_token());
        }
        prefix.append("..");
        i = i + 1;
    }
    prefix
}

/// The index of the last `.` in the name, if it has one.
pub fn last_dot(name: &str) -> (found: Option<usize>)
    ensures
        match found {
            Some(d) => d as int == dot_position(name@),
            None => dot_position(name@) == -1,
        },
{
    let n: usize = name.unicode_len();
    let mut i: usize = n;
    while i > 0
        invariant
            i <= n,
            n == name@.len(),
            forall|j: int| i <= j < n ==> name@[j] != '.',
        decreases i,
    {
        if name.get_char(i - 1) == '.' {
            proof {
                lemma_dot_position_is(name@, i - 1);
            }
            return Some(i - 1);
        }
        i = i - 1;
    }
    proof {
        lemma_dot_position_is(name@, -1);
    }
    None
}

/// The file name of the page made from a source file name: the stem, then a
/// dot and the extension where the extension is not empty.
pub fn page_name(name: &str, ext: &str) -> (page: String)
    ensures
        page@ == page_name_of(name@, ext@),
{
    let stem: &str = match last_dot(name) {
        Some(d) => {
            if d == 0 {
                name
            } else {
                proof {
                    lemma_dot_position(name@);
                }
                name.substring_char(0, d)
            }
        },
        None => name,
    };
    let mut page = String::from_str(stem);
    if ext.unicode_len() > 0 {
        proof {
            reveal_strlit(".");
            assert("."@ =~= seq!['.']);
        }
        page.append(".");
        page.append(ext);
    }
    page
}

/// Resolves a source path against the input root: the destination below the
/// output root with the page extension, and the link prefix for the
/// document's depth. A source that is not below the input root is refused.
pub fn resolve(
    source_path: &Vec<String>,
    input_root: &Vec<String>,
    output_root: &Vec<String>,
    output_ext: &str,
) -> (resolved: Result<PathInfo, PathError>)
    ensures
        resolved is Ok <==> is_under(path_view(source_path@), path_view(input_root@)),
        resolved is Err ==> resolved == Err::<PathInfo, PathError>(PathError::PathOutsideRoot),
        resolved is Ok ==> {
            let info = resolved->Ok_0;
            &&& path_view(info.destination_path@) == destination_of(
                path_view(source_path@),
                path_view(input_root@),
                path_view(output_root@),
                output_ext@,
            )
            &&& info.link_prefix@ == link_prefix_of(
                depth_of(relative_of(path_view(source_path@), path_view(input_root@))),
            )
        },
{
    let depth: usize = match depth_below(source_path, input_root) {
        Some(depth) => depth,
        None => {
            return Err(PathError::PathOutsideRoot);
        },
    };
    let ghost source = path_view(source_path@);
    let ghost root = path_view(input_root@);
    let ghost out = path_view(output_root@);
    let last: usize = source_path.len() - 1;
    let mut destination: Vec<String> = Vec::new();
    let mut i: usize = 0;
    while i < output_root.len()
        invariant
            i <= output_root.len(),
            out == path_view(output_root@),
            path_view(destination@) =~= out.subrange(0, i as int),
        decreases output_root.len() - i,
    {
        let segment = output_root[i].clone();
        let ghost before = path_view(destination@);
        destination.push(segment);
        assert(path_view(destination@) =~= before.push(out[i as int]));
        i = i + 1;
    }
    let mut k: usize = input_root.len();
    while k < last
        invariant
            input_root.len() <= k <= last,
            last == source_path.len() - 1,
            source == path_view(source_path@),
            root == path_view(input_root@),
            path_view(destination@) =~= out + source.subrange(root.len() as int, k as int),
        decreases last - k,
    {
        let segment = source_path[k].clone();
        let ghost before = path_view(destination@);
        destination.push(segment);
        assert(path_view(destination@) =~= before.push(source[k as int]));
        k = k + 1;
    }
    destination.push(page_name(source_path[last].as_str(), output_ext));
    let prefix = link_prefix(depth);
    assert(path_view(destination@) =~= destination_of(source, root, out, output_ext@));
    Ok(PathInfo { destination_path: destination, link_prefix: prefix })
}

} // verus!
