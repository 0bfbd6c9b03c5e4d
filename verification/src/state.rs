//! The editor-level state: the changes that wait to be made to the surface,
//! and whether an export is due.

use crate::engine::Command;
use crate::markup::{Markup, MarkupModel};
use crate::node::{markup_of, Node};
use vstd::prelude::*;

verus! {

/// Where the export pipeline stands.
#[derive(Clone, Copy, Debug, PartialEq, Eq)]
pub enum Phase {
    /// No export is due.
    Idle,
    /// The surface has changed and an export is due.
    Exporting,
}

/// What a change to the surface holds.
#[verifier::ext_equal]
pub enum SurfaceEditModel {
    /// Put the markup at the end of the surface.
    Append(MarkupModel),
    /// Wrap what is selected in a bold element.
    WrapBold,
    /// Take what is selected out of the bold elements around it.
    UnwrapBold,
}

/// A change to the surface that a command has asked for. The embedding
/// application carries it out.
#[derive(Debug, PartialEq, Eq)]
pub enum SurfaceEdit {
    /// Put the markup at the end of the surface.
    Append(Markup),
    /// Wrap what is selected in a bold element.
    WrapBold,
    /// Take what is selected out of the bold elements around it.
    UnwrapBold,
}

impl View for SurfaceEdit {
    type V = SurfaceEditModel;

    open spec fn view(&self) -> SurfaceEditModel {
        match self {
            SurfaceEdit::Append(markup) => SurfaceEditModel::Append(markup@),
            SurfaceEdit::WrapBold => SurfaceEditModel::WrapBold,
            SurfaceEdit::UnwrapBold => SurfaceEditModel::UnwrapBold,
        }
    }
}

/// What the state holds: the changes that wait, oldest first, and the phase
/// of the export pipeline.
#[verifier::ext_equal]
pub struct EditorStateView {
    pub edits: Seq<SurfaceEditModel>,
    pub phase: Phase,
}

/// The state of an editor over a surface of HTML.
#[derive(Debug)]
pub struct EditorState {
    edits: Vec<SurfaceEdit>,
    phase: Phase,
}

/// What each change in a list holds.
pub open spec fn edit_views(edits: Seq<SurfaceEdit>) -> Seq<SurfaceEditModel> {
    edits.map_values(|edit: SurfaceEdit| edit@)
}

impl View for EditorState {
    type V = EditorStateView;

    closed spec fn view(&self) -> EditorStateView {
        EditorStateView { edits: edit_views(self.edits@), phase: self.phase }
    }
}

/// The state after one notification: an export is due; nothing else has
/// changed.
pub open spec fn notified(state: EditorStateView) -> EditorStateView {
    EditorStateView { edits: state.edits, phase: Phase::Exporting }
}

/// The state after `count` notifications in a row.
pub open spec fn notified_times(state: EditorStateView, count: nat) -> EditorStateView
    decreases count,
{
    if count == 0 {
        state
    } else {
        notified(notified_times(state, (count - 1) as nat))
    }
}

/// The state after the export that was due has been made.
pub open spec fn settled(state: EditorStateView) -> EditorStateView {
    EditorStateView { edits: state.edits, phase: Phase::Idle }
}

/// Notifications that come before the export is made count as one: any
/// number of them leaves the state as a single one does, and the one export
/// that follows leaves none due.
pub proof fn lemma_notifications_coalesce(state: EditorStateView, count: nat)
    requires
        count >= 1,
    ensures
        notified_times(state, count) == notified(state),
        settled(notified_times(state, count)).phase == Phase::Idle,
        settled(notified_times(state, count)).edits == state.edits,
    decreases count,
{
    if count > 1 {
        lemma_notifications_coalesce(state, (count - 1) as nat);
    } else {
        assert(notified_times(state, 0) == state);
    }
}

impl EditorState {
    /// A state in which no change waits and no export is due.
    pub fn new() -> (state: Self)
        ensures
            state@.edits == Seq::<SurfaceEditModel>::empty(),
            state@.phase == Phase::Idle,
    {
        let state = EditorState { edits: Vec::new(), phase: Phase::Idle };
        assert(state@.edits =~= Seq::<SurfaceEditModel>::empty());
        state
    }

    /// Asks for `edit` to be made to the surface, after the changes that wait
    /// already.
    pub fn request(&mut self, edit: SurfaceEdit)
        ensures
            final(self)@.edits == old(self)@.edits.push(edit@),
            final(self)@.phase == old(self)@.phase,
    {
        self.edits.push(edit);
        assert(final(self)@.edits =~= old(self)@.edits.push(edit@));
    }

    /// Asks for the rendering of `node` to be put at the end of the surface.
    pub fn add_node<N: Node>(&mut self, node: N)
        ensures
            final(self)@.edits == old(self)@.edits.push(
                SurfaceEditModel::Append(markup_of(node.model())),
            ),
            final(self)@.phase == old(self)@.phase,
    {
        self.request(SurfaceEdit::Append(node.render()))
    }

    /// Hands out the changes that wait, oldest first, and keeps none.
    pub fn take_edits(&mut self) -> (edits: Vec<SurfaceEdit>)
        ensures
            edit_views(edits@) == old(self)@.edits,
            final(self)@.edits == Seq::<SurfaceEditModel>::empty(),
            final(self)@.phase == old(self)@.phase,
    {
        let mut edits: Vec<SurfaceEdit> = Vec::new();
        std::mem::swap(&mut self.edits, &mut edits);
        assert(final(self)@.edits =~= Seq::<SurfaceEditModel>::empty());
        edits
    }

    /// Runs `cmd` on this state, at once.
    pub fn execute<C: Command<Self>>(&mut self, cmd: C)
        ensures
            cmd.effect(*old(self), *final(self)),
    {
        cmd.execute(self)
    }

    /// Records that the surface has changed: an export is due. Any number of
    /// calls before the next export ask for one export.
    pub fn notify(&mut self)
        ensures
            final(self)@ == notified(old(self)@),
    {
        self.phase = Phase::Exporting;
    }

    /// Records that the export that was due has been made.
    pub fn settle(&mut self)
        ensures
            final(self)@ == settled(old(self)@),
    {
        self.phase = Phase::Idle;
    }

    /// Whether an export is due.
    pub fn is_exporting(&self) -> (due: bool)
        ensures
            due == (self@.phase == Phase::Exporting),
    {
        match self.phase {
            Phase::Exporting => true,
            Phase::Idle => false,
        }
    }
}

} // verus!
