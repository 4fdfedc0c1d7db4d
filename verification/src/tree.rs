//! The in-memory model of the export tree that the mapper walks: a directory
//! is a list of named entries in directory-read order, a file is its text.
//!
//! The mapper never touches a filesystem; whatever reads the real export
//! builds this tree first and hands it over.

use vstd::prelude::*;

verus! {

broadcast use vstd::std_specs::vec::group_vec_axioms, vstd::seq::group_seq_axioms;

/// Mathematical model of a tree node.
pub enum SpecNode {
    File(Seq<char>),
    Dir(Seq<(Seq<char>, SpecNode)>),
}

/// A node of the tree: a file with its text, or a directory.
#[derive(Debug, PartialEq, Eq)]
pub enum Node {
    File(String),
    Dir(Folder),
}

/// One named directory entry.
#[derive(Debug, PartialEq, Eq)]
pub struct DirEntry {
    pub name: String,
    pub node: Node,
}

/// A directory: its entries, in directory-read order.
#[derive(Debug, PartialEq, Eq)]
pub struct Folder {
    pub entries: Vec<DirEntry>,
}

/// The views of a run of directory entries, element by element.
pub open spec fn view_entries(entries: Seq<DirEntry>) -> Seq<(Seq<char>, SpecNode)>
    decreases entries, 1int,
{
    if entries.len() == 0 {
        Seq::empty()
    } else {
        seq![(entries[0].name@, entries[0].node@)] + view_entries(entries.drop_first())
    }
}

impl View for Node {
    type V = SpecNode;

    open spec fn view(&self) -> SpecNode
        decreases self, 0int,
    {
        match self {
            Node::File(text) => SpecNode::File(text@),
            Node::Dir(folder) => SpecNode::Dir(view_entries(folder.entries@)),
        }
    }
}

impl View for Folder {
    type V = Seq<(Seq<char>, SpecNode)>;

    open spec fn view(&self) -> Seq<(Seq<char>, SpecNode)> {
        view_entries(self.entries@)
    }
}

/// `view_entries` indexes as the entry views.
pub proof fn lemma_view_entries(entries: Seq<DirEntry>)
    ensures
        view_entries(entries).len() == entries.len(),
        forall|i: int| 0 <= i < entries.len() ==> #[trigger] view_entries(entries)[i] == (
            entries[i].name@,
            entries[i].node@,
        ),
    decreases entries.len(),
{
    if entries.len() > 0 {
        lemma_view_entries(entries.drop_first());
        assert forall|i: int| 0 <= i < entries.len() implies #[trigger] view_entries(entries)[i]
            == (entries[i].name@, entries[i].node@) by {
            if i > 0 {
                assert(seq![(entries[0].name@, entries[0].node@)].len() == 1);
                assert(view_entries(entries) == seq![(entries[0].name@, entries[0].node@)]
                    + view_entries(entries.drop_first()));
                assert(view_entries(entries)[i] == view_entries(entries.drop_first())[i - 1]);
                assert(entries.drop_first()[i - 1] == entries[i]);
            }
        }
    }
}

} // verus!
