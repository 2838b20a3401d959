//! An in-memory model of a directory tree.
//!
//! The destroy operation walks and deletes a real directory tree through the
//! step machine in [`crate::reaper`]; this module gives that tree a value the
//! specifications can speak about: what a walk encounters, and which paths it
//! removes in which order.

use vstd::prelude::*;
use vstd::string::StringExecFns;

verus! {

/// One named entry of a directory.
#[derive(Debug)]
pub struct FsDirEntry {
    /// Name of the entry within its directory.
    pub name: String,
    /// What the entry is.
    pub node: FsNode,
}

/// A filesystem object: a plain file, or a directory with its entries in
/// enumeration order.
#[derive(Debug)]
pub enum FsNode {
    /// A plain file.
    File,
    /// A directory and its direct entries.
    Dir(Vec<FsDirEntry>),
}

/// The path of `name` inside the directory at `dir`.
pub open spec fn spec_join(dir: Seq<char>, name: Seq<char>) -> Seq<char> {
    dir + "/"@ + name
}

/// Builds the path of `name` inside the directory at `dir`.
pub fn join_path(dir: &String, name: &String) -> (r: String)
    ensures
        r@ == spec_join(dir@, name@),
{
    let mut r = dir.clone();
    r.append("/");
    r.append(name.as_str());
    r
}

/// How many directory entries a walk of `n` encounters: each directory,
/// `n` itself included, contributes the number of its direct entries. This
/// is the amount by which a walk extends a progress maximum.
pub open spec fn entry_total(n: FsNode) -> nat
    decreases n, 0int,
{
    match n {
        FsNode::File => 0,
        FsNode::Dir(es) => es@.len() + entries_entry_total(es@, 0),
    }
}

/// The entries encountered below the members of `s` from position `i` on.
pub open spec fn entries_entry_total(s: Seq<FsDirEntry>, i: int) -> nat
    decreases s, s.len() - i,
{
    if i < 0 || i >= s.len() {
        0
    } else {
        entry_total(s[i].node) + entries_entry_total(s, i + 1)
    }
}

/// The paths a walk of `n`, mounted at path `p`, removes, in removal order:
/// children of a directory first, in entry order, then the directory itself.
pub open spec fn removals(p: Seq<char>, n: FsNode) -> Seq<Seq<char>>
    decreases n, 0int,
{
    match n {
        FsNode::File => seq![p],
        FsNode::Dir(es) => entries_removals(p, es@, 0).push(p),
    }
}

/// The removals of the members of `s` from position `i` on, inside the
/// directory at `p`.
pub open spec fn entries_removals(p: Seq<char>, s: Seq<FsDirEntry>, i: int) -> Seq<Seq<char>>
    decreases s, s.len() - i,
{
    if i < 0 || i >= s.len() {
        Seq::empty()
    } else {
        removals(spec_join(p, s[i].name@), s[i].node) + entries_removals(p, s, i + 1)
    }
}

} // verus!
