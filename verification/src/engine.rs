//! The editor container and the two capabilities it is built from: blocks,
//! which recognize and parse source inputs, and commands, which change the
//! editor's state.

use vstd::prelude::*;

verus! {

/// The views of a sequence of values, element by element.
pub open spec fn views<T: View>(items: Seq<T>) -> Seq<T::V> {
    items.map_values(|item: T| item@)
}

/// A recognizer paired with a parser that turns one source input into one
/// document node.
///
/// A block never calls the dispatcher itself. A container block names, with
/// `children`, the inputs nested in its input; the dispatcher parses those
/// first and hands the resulting nodes to `parse`.
///
/// The specification functions have defaults that say nothing, so that code
/// which is not verified can implement the trait by its four operations
/// alone. A verified implementation states its own.
pub trait Block: Sized {
    /// One node of the source tree.
    type Input;

    /// The document node that parsing produces.
    type Node: View;

    /// The editor-level state that `parse` may read.
    type State;

    /// A measure of an input that falls strictly from an input to every input
    /// nested in it: the source tree is finite and acyclic.
    open spec fn height(input: &Self::Input) -> nat {
        0
    }

    /// Whether this block wants the input.
    open spec fn recognizes(&self, input: &Self::Input) -> bool {
        arbitrary()
    }

    /// Whether `parse` is defined on the input. A fallback is asked to parse
    /// inputs that it was never asked to accept, so this is a condition of its
    /// own.
    open spec fn handles(&self, input: &Self::Input) -> bool {
        arbitrary()
    }

    /// The inputs nested in `input` that are dispatched in their turn; empty
    /// for a leaf.
    open spec fn nested(&self, input: &Self::Input) -> Seq<Self::Input> {
        Seq::empty()
    }

    /// The node that `parse` builds from the input and from the nodes its
    /// nested inputs were parsed to.
    open spec fn parsed(
        &self,
        state: &Self::State,
        input: &Self::Input,
        children: Seq<<Self::Node as View>::V>,
    ) -> <Self::Node as View>::V {
        arbitrary()
    }

    /// Decides whether this block wants the input. The answer depends on the
    /// block and the input alone.
    fn accepts(&self, input: &Self::Input) -> (accepted: bool)
        ensures
            accepted == self.recognizes(input),
    ;

    /// Decides whether `parse` may be called on the input.
    fn can_parse(&self, input: &Self::Input) -> (able: bool)
        ensures
            able == self.handles(input),
    ;

    /// The inputs nested in `input`, in source order. Each is strictly lower
    /// than `input`.
    fn children<'a>(&self, input: &'a Self::Input) -> (inner: Vec<&'a Self::Input>)
        ensures
            inner@.len() == self.nested(input).len(),
            forall|i: int| 0 <= i < inner@.len() ==> *(#[trigger] inner@[i]) == self.nested(input)[i],
            forall|j: int|
                0 <= j < self.nested(input).len() ==> Self::height(
                    &#[trigger] self.nested(input)[j],
                ) < Self::height(input),
    ;

    /// Builds the node for `input`; `children` holds the nodes of its nested
    /// inputs, in order, without those that nothing parsed.
    fn parse(
        &self,
        state: &Self::State,
        input: &Self::Input,
        children: Vec<Self::Node>,
    ) -> (node: Self::Node)
        requires
            self.handles(input),
        ensures
            node@ == self.parsed(state, input, views(children@)),
    ;
}

/// Whether every input that `block` nests in `input` is strictly lower than
/// `input`. It holds wherever `children` has returned.
pub open spec fn nests_lower<B: Block>(block: B, input: B::Input) -> bool {
    forall|j: int|
        0 <= j < block.nested(&input).len() ==> B::height(&#[trigger] block.nested(&input)[j])
            < B::height(&input)
}

/// A change to the editor's state, carried out at once.
pub trait Command<State> {
    /// Whether running the command may take the state from `before` to
    /// `after`. The default allows any change.
    open spec fn effect(&self, before: State, after: State) -> bool {
        true
    }

    /// Runs the command on the state.
    fn execute(&self, state: &mut State)
        ensures
            self.effect(*old(state), *final(state)),
    ;
}

/// What an editor holds: its state, its blocks in registration order, and its
/// fallback block, if one is set.
#[verifier::ext_equal]
pub struct EditorView<B: Block> {
    pub state: B::State,
    pub blocks: Seq<B>,
    pub fallback: Option<B>,
}

/// Owns the editor-level state, the ordered list of blocks and the optional
/// fallback block.
pub struct Editor<B: Block> {
    state: B::State,
    blocks: Vec<B>,
    fallback_block: Option<B>,
}

impl<B: Block> View for Editor<B> {
    type V = EditorView<B>;

    closed spec fn view(&self) -> EditorView<B> {
        EditorView { state: self.state, blocks: self.blocks@, fallback: self.fallback_block }
    }
}

/// The index of the first block at or after `from` that recognizes the input.
pub open spec fn first_match<B: Block>(blocks: Seq<B>, input: &B::Input, from: int) -> Option<int>
    decreases blocks.len() - from,
{
    if from < 0 || from >= blocks.len() {
        None
    } else if blocks[from].recognizes(input) {
        Some(from)
    } else {
        first_match(blocks, input, from + 1)
    }
}

/// The block that gets the input: the first registered block that recognizes
/// it, else the fallback, else none.
pub open spec fn chosen<B: Block>(editor: EditorView<B>, input: &B::Input) -> Option<B> {
    match first_match(editor.blocks, input, 0) {
        Some(index) => Some(editor.blocks[index]),
        None => editor.fallback,
    }
}

impl<B: Block> Editor<B> {
    /// An editor with the given state, no blocks and no fallback.
    pub fn new(state: B::State) -> (editor: Self)
        ensures
            editor@.state == state,
            editor@.blocks == Seq::<B>::empty(),
            editor@.fallback is None,
    {
        Editor { state, blocks: Vec::new(), fallback_block: None }
    }

    /// Runs `cmd` on the state, at once. Blocks and fallback stay as they are.
    pub fn command<C: Command<B::State>>(&mut self, cmd: C)
        ensures
            cmd.effect(old(self)@.state, final(self)@.state),
            final(self)@.blocks == old(self)@.blocks,
            final(self)@.fallback == old(self)@.fallback,
    {
        cmd.execute(&mut self.state)
    }

    /// Registers `block` behind the blocks registered so far: it gets an input
    /// only if none of them accepts it.
    pub fn add_block(&mut self, block: B)
        ensures
            final(self)@.blocks == old(self)@.blocks.push(block),
            final(self)@.state == old(self)@.state,
            final(self)@.fallback == old(self)@.fallback,
    {
        self.blocks.push(block)
    }

    /// Makes `block` the fallback, in place of any earlier one.
    pub fn set_fallback_block(&mut self, block: B)
        ensures
            final(self)@.fallback == Some(block),
            final(self)@.state == old(self)@.state,
            final(self)@.blocks == old(self)@.blocks,
    {
        self.fallback_block = Some(block);
    }

    /// The editor's state, to read.
    pub fn state(&self) -> (state: &B::State)
        ensures
            *state == self@.state,
    {
        &self.state
    }

    /// The editor's state, to change. Blocks and fallback cannot be reached
    /// through it.
    pub fn state_mut(&mut self) -> (state: &mut B::State)
        ensures
            *state == old(self)@.state,
            final(self)@.state == *final(state),
            final(self)@.blocks == old(self)@.blocks,
            final(self)@.fallback == old(self)@.fallback,
    {
        &mut self.state
    }

    /// The block that gets `input`: the first registered block that accepts
    /// it; the fallback if none does; `None` if there is no fallback either.
    /// Blocks behind the first that accepts are not asked.
    pub fn select(&self, input: &B::Input) -> (found: Option<&B>)
        ensures
            match found {
                Some(block) => chosen(self@, input) == Some(*block),
                None => chosen(self@, input) is None,
            },
    {
        let mut index: usize = 0;
        while index < self.blocks.len()
            invariant
                index <= self.blocks.len(),
                first_match(self@.blocks, input, 0) == first_match(
                    self@.blocks,
                    input,
                    index as int,
                ),
            decreases self.blocks.len() - index,
        {
            if self.blocks[index].accepts(input) {
                return Some(&self.blocks[index]);
            }
            index += 1;
        }
        self.fallback_block.as_ref()
    }
}

} // verus!
