//! Where a release of the adapter is installed, and how the archive that
//! was unpacked there is brought into shape.
//!
//! A release archive wraps its files in one directory that is named after
//! the vendor and the commit. That name must not become part of the path
//! under which the adapter is found later, so the files are moved one level
//! up and the wrapper is removed.

use vstd::prelude::*;
use crate::adapter::adapter_name;
use crate::text::{followed_by, join_path, joined, starts_with};

verus! {

/// The form in which a release is published.
#[derive(Clone, Copy, Debug, PartialEq, Eq, Structural)]
pub enum ArtifactKind {
    Zip,
    GzipTar,
    Vsix,
}

/// One published release of the adapter.
#[derive(Clone, Debug, PartialEq, Eq)]
pub struct AdapterVersion {
    pub tag_name: String,
    pub url: String,
    pub kind: ArtifactKind,
}

/// How the name of the directory that wraps a release archive begins.
pub open spec fn wrapper_prefix() -> Seq<char> {
    "microsoft-debugpy-"@
}

/// How the name of a directory that holds an installed release begins: the
/// adapter's name and an underscore.
pub open spec fn install_prefix() -> Seq<char> {
    "Debugpy_"@
}

/// The name of an installed release begins with the adapter's name.
pub proof fn lemma_install_prefix_names_adapter()
    ensures
        install_prefix() == adapter_name() + "_"@,
{
    reveal_strlit("Debugpy_");
    reveal_strlit("Debugpy");
    reveal_strlit("_");
    assert(install_prefix() =~= adapter_name() + "_"@);
}

/// The characters of each name.
pub open spec fn texts(names: Seq<String>) -> Seq<Seq<char>> {
    names.map_values(|name: String| name@)
}

/// The place of the first of `names` that begins with `prefix`.
pub open spec fn first_match(names: Seq<Seq<char>>, prefix: Seq<char>) -> Option<int>
    decreases names.len(),
{
    if names.len() == 0 {
        None
    } else {
        match first_match(names.drop_last(), prefix) {
            Some(place) => Some(place),
            None => if prefix.is_prefix_of(names.last()) {
                Some(names.len() - 1)
            } else {
                None
            },
        }
    }
}

/// `first_match` finds a name that begins with the prefix, passes over
/// none that does, and finds nothing only where no name begins with it.
pub proof fn lemma_first_match(names: Seq<Seq<char>>, prefix: Seq<char>)
    ensures
        match first_match(names, prefix) {
            Some(place) => {
                &&& 0 <= place < names.len()
                &&& prefix.is_prefix_of(names[place])
                &&& forall|i: int| 0 <= i < place ==> !prefix.is_prefix_of(#[trigger] names[i])
            },
            None => forall|i: int|
                0 <= i < names.len() ==> !prefix.is_prefix_of(#[trigger] names[i]),
        },
    decreases names.len(),
{
    if names.len() > 0 {
        lemma_first_match(names.drop_last(), prefix);
        match first_match(names.drop_last(), prefix) {
            Some(place) => {
                assert(names.drop_last()[place] == names[place]);
                assert forall|i: int| 0 <= i < place implies !prefix.is_prefix_of(
                    #[trigger] names[i],
                ) by {
                    assert(names.drop_last()[i] == names[i]);
                }
            },
            None => {
                assert forall|i: int| 0 <= i < names.len() - 1 implies !prefix.is_prefix_of(
                    #[trigger] names[i],
                ) by {
                    assert(names.drop_last()[i] == names[i]);
                }
            },
        }
    }
}

/// Finds the first of `names` that begins with `prefix`.
pub fn find_by_prefix(names: &Vec<String>, prefix: &str) -> (found: Option<usize>)
    ensures
        found matches Some(place) ==> place < names.len() && first_match(texts(names@), prefix@)
            == Some(place as int),
        found is None ==> first_match(texts(names@), prefix@) is None,
{
    let mut i: usize = 0;
    while i < names.len()
        invariant
            i <= names.len(),
            first_match(texts(names@).take(i as int), prefix@) is None,
        decreases names.len() - i,
    {
        let ghost before = texts(names@).take(i as int);
        let ghost through = texts(names@).take(i + 1);
        assert(through.drop_last() == before);
        assert(through.last() == names@[i as int]@);
        if starts_with(names[i].as_str(), prefix) {
            proof {
                lemma_match_stays(texts(names@), prefix@, i + 1);
            }
            return Some(i);
        }
        i += 1;
    }
    assert(texts(names@).take(names.len() as int) == texts(names@));
    None
}

/// A match among the first `count` names is the match among all of them.
pub proof fn lemma_match_stays(names: Seq<Seq<char>>, prefix: Seq<char>, count: int)
    requires
        0 <= count <= names.len(),
        first_match(names.take(count), prefix) is Some,
    ensures
        first_match(names, prefix) == first_match(names.take(count), prefix),
    decreases names.len() - count,
{
    if count < names.len() {
        assert(names.take(count + 1).drop_last() == names.take(count));
        lemma_match_stays(names, prefix, count + 1);
    } else {
        assert(names.take(count) == names);
    }
}

/// The directory that holds every release of the adapter, below the root
/// for all adapters.
pub open spec fn adapter_directory_of(adapters_root: Seq<char>) -> Seq<char> {
    joined(adapters_root, adapter_name())
}

/// The directory into which the release `tag` is installed: named by the
/// adapter, an underscore and the tag.
pub open spec fn version_directory_of(adapters_root: Seq<char>, tag: Seq<char>) -> Seq<char> {
    joined(adapter_directory_of(adapters_root), install_prefix() + tag)
}

/// The directory that holds every release of the adapter.
pub fn adapter_directory(adapters_root: &str) -> (directory: String)
    ensures
        directory@ == adapter_directory_of(adapters_root@),
{
    join_path(adapters_root, "Debugpy")
}

/// The directory into which the release `tag` is installed.
pub fn version_directory(adapters_root: &str, tag: &str) -> (directory: String)
    ensures
        directory@ == version_directory_of(adapters_root@, tag@),
{
    let parent = adapter_directory(adapters_root);
    let name = followed_by("Debugpy_", tag);
    join_path(parent.as_str(), name.as_str())
}

/// One entry that is to change its place.
#[derive(Clone, Debug, PartialEq, Eq)]
pub struct Move {
    pub from: String,
    pub to: String,
}

/// A move by the characters of its two paths.
pub struct MoveView {
    pub from: Seq<char>,
    pub to: Seq<char>,
}

impl View for Move {
    type V = MoveView;

    open spec fn view(&self) -> MoveView {
        MoveView { from: self.from@, to: self.to@ }
    }
}

/// The moves of each move.
pub open spec fn move_views(moves: Seq<Move>) -> Seq<MoveView> {
    moves.map_values(|one: Move| one@)
}

/// The moves that empty the directory `wrapper` into `directory`: each of
/// `children`, in their order, from its place in the wrapper to the place
/// of the same name in `directory`.
pub open spec fn flattening(
    directory: Seq<char>,
    wrapper: Seq<char>,
    children: Seq<Seq<char>>,
) -> Seq<MoveView> {
    Seq::new(
        children.len(),
        |i: int|
            MoveView { from: joined(wrapper, children[i]), to: joined(directory, children[i]) },
    )
}

/// Plans the moves that bring the `children` of `wrapper` up into
/// `directory`.
pub fn flatten_moves(directory: &str, wrapper: &str, children: &Vec<String>) -> (moves: Vec<Move>)
    ensures
        move_views(moves@) == flattening(directory@, wrapper@, texts(children@)),
{
    let mut moves: Vec<Move> = Vec::new();
    let mut i: usize = 0;
    while i < children.len()
        invariant
            i <= children.len(),
            moves@.len() == i,
            forall|j: int|
                0 <= j < i ==> (#[trigger] moves@[j])@ == (MoveView {
                    from: joined(wrapper@, children@[j]@),
                    to: joined(directory@, children@[j]@),
                }),
        decreases children.len() - i,
    {
        let child = children[i].as_str();
        moves.push(Move { from: join_path(wrapper, child), to: join_path(directory, child) });
        i += 1;
    }
    assert(move_views(moves@) =~= flattening(directory@, wrapper@, texts(children@)));
    moves
}

} // verus!
