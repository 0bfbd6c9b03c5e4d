//! Making the selection bold and taking the bold off it.
//!
//! The selection lives on the surface. The commands ask for the change; the
//! embedding application makes it, and asks `find_bold_ancestor` which element
//! to unwrap.

use crate::engine::Command;
use crate::source::SourceNode;
use crate::state::{EditorState, EditorStateView, SurfaceEdit, SurfaceEditModel};
use crate::text::{bold_tag, is_bold};
use vstd::prelude::*;

verus! {

/// Wraps what is selected in a bold element.
pub struct MakeBold;

impl Command<EditorState> for MakeBold {
    open spec fn effect(&self, before: EditorState, after: EditorState) -> bool {
        after@ == (EditorStateView {
            edits: before@.edits.push(SurfaceEditModel::WrapBold),
            phase: before@.phase,
        })
    }

    fn execute(&self, state: &mut EditorState) {
        state.request(SurfaceEdit::WrapBold)
    }
}

/// Takes what is selected out of the bold elements around it.
pub struct RemoveBold;

impl Command<EditorState> for RemoveBold {
    open spec fn effect(&self, before: EditorState, after: EditorState) -> bool {
        after@ == (EditorStateView {
            edits: before@.edits.push(SurfaceEditModel::UnwrapBold),
            phase: before@.phase,
        })
    }

    fn execute(&self, state: &mut EditorState) {
        state.request(SurfaceEdit::UnwrapBold)
    }
}

/// Whether the node at `index` of the chain is a bold element.
pub open spec fn bold_at(chain: Seq<SourceNode>, index: int) -> bool {
    chain[index].kind is Element && bold_tag(chain[index].tag@)
}

/// The bold element nearest to a node. `chain` holds the node, then its
/// parent, and so on up to the root; the result is the index of the first
/// bold element in it, and `None` where the chain holds none.
pub fn find_bold_ancestor(chain: &Vec<SourceNode>) -> (found: Option<usize>)
    ensures
        match found {
            Some(index) => {
                &&& index < chain@.len()
                &&& bold_at(chain@, index as int)
                &&& forall|i: int| 0 <= i < index ==> !bold_at(chain@, i)
            },
            None => forall|i: int| 0 <= i < chain@.len() ==> !bold_at(chain@, i),
        },
{
    let mut index: usize = 0;
    while index < chain.len()
        invariant
            index <= chain.len(),
            forall|i: int| 0 <= i < index ==> !bold_at(chain@, i),
        decreases chain.len() - index,
    {
        if is_bold(&chain[index]) {
            return Some(index);
        }
        index += 1;
    }
    None
}

} // verus!
