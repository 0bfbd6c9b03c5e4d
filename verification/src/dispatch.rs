//! The dispatcher: what it computes, stated over sequences, and the code that
//! computes it.

use crate::engine::{chosen, first_match, nests_lower, views, Block, Editor, EditorView};
use vstd::prelude::*;

verus! {

/// The values of the results that are `Some`, in their order.
pub open spec fn kept<T>(results: Seq<Option<T>>) -> Seq<T>
    decreases results.len(),
{
    if results.len() == 0 {
        Seq::empty()
    } else {
        let rest = kept(results.drop_last());
        match results.last() {
            Some(value) => rest.push(value),
            None => rest,
        }
    }
}

/// The node that one input is parsed to: the chosen block's node, built over
/// the nodes of the input's nested inputs; `None` where no block is chosen.
pub open spec fn dispatch_one<B: Block>(editor: EditorView<B>, input: B::Input) -> Option<
    <B::Node as View>::V,
>
    decreases B::height(&input), 1nat,
{
    match chosen(editor, &input) {
        Some(block) => Some(
            block.parsed(&editor.state, &input, kept(results_below(editor, block, input))),
        ),
        None => None,
    }
}

/// What each input that `block` nests in `input` is parsed to, in order. A
/// nested input that is not lower than `input` counts as not parsed; a block
/// whose `children` keeps its contract nests none.
pub open spec fn results_below<B: Block>(editor: EditorView<B>, block: B, input: B::Input) -> Seq<
    Option<<B::Node as View>::V>,
>
    decreases B::height(&input), 0nat,
{
    let inner = block.nested(&input);
    Seq::new(
        inner.len(),
        |j: int|
            if 0 <= j < inner.len() && B::height(&inner[j]) < B::height(&input) {
                dispatch_one(editor, inner[j])
            } else {
                None
            },
    )
}

/// The nodes of the inputs that `block` nests in `input`, in order, without
/// those that nothing parses: what `parse` is handed as `children`.
pub open spec fn nodes_below<B: Block>(editor: EditorView<B>, block: B, input: B::Input) -> Seq<
    <B::Node as View>::V,
> {
    kept(results_below(editor, block, input))
}

/// The nodes that a sequence of inputs is parsed to: one for each input that a
/// block is chosen for, in the order of the inputs.
pub open spec fn dispatch<B: Block>(editor: EditorView<B>, inputs: Seq<B::Input>) -> Seq<
    <B::Node as View>::V,
> {
    kept(Seq::new(inputs.len(), |i: int| dispatch_one(editor, inputs[i])))
}

/// Whether the input can be parsed: the block chosen for it, if any, handles
/// it, and the same holds of every lower input nested in it.
pub open spec fn parseable_one<B: Block>(editor: EditorView<B>, input: B::Input) -> bool
    decreases B::height(&input),
{
    match chosen(editor, &input) {
        Some(block) => {
            let inner = block.nested(&input);
            &&& block.handles(&input)
            &&& forall|j: int|
                0 <= j < inner.len() && B::height(&#[trigger] inner[j]) < B::height(&input)
                    ==> parseable_one(editor, inner[j])
        },
        None => true,
    }
}

/// Whether every input of the sequence can be parsed.
pub open spec fn parseable<B: Block>(editor: EditorView<B>, inputs: Seq<B::Input>) -> bool {
    forall|i: int| 0 <= i < inputs.len() ==> parseable_one(editor, #[trigger] inputs[i])
}

/// Whether some registered block recognizes the input.
pub open spec fn recognized<B: Block>(editor: EditorView<B>, input: B::Input) -> bool {
    first_match(editor.blocks, &input, 0) is Some
}

/// Appending one result appends its value, or nothing.
pub proof fn lemma_kept_push<T>(results: Seq<Option<T>>, last: Option<T>)
    ensures
        kept(results.push(last)) == match last {
            Some(value) => kept(results).push(value),
            None => kept(results),
        },
{
    assert(results.push(last).drop_last() =~= results);
}

/// No more values are kept than there are results, and all are kept exactly
/// when no result is `None`.
pub proof fn lemma_kept_len<T>(results: Seq<Option<T>>)
    ensures
        kept(results).len() <= results.len(),
        kept(results).len() == results.len() <==> forall|i: int|
            0 <= i < results.len() ==> (#[trigger] results[i]) is Some,
    decreases results.len(),
{
    if results.len() > 0 {
        let front = results.drop_last();
        lemma_kept_len(front);
        if kept(results).len() == results.len() {
            assert forall|i: int| 0 <= i < results.len() implies (#[trigger] results[i]) is Some by {
                if i < front.len() {
                    assert(front[i] is Some);
                }
            }
        }
        if forall|i: int| 0 <= i < results.len() ==> (#[trigger] results[i]) is Some {
            assert forall|i: int| 0 <= i < front.len() implies (#[trigger] front[i]) is Some by {
                assert(results[i] is Some);
            }
        }
    }
}

/// Where every result is `Some`, the values kept are the results' values, one
/// for one.
pub proof fn lemma_kept_all<T>(results: Seq<Option<T>>)
    requires
        forall|i: int| 0 <= i < results.len() ==> (#[trigger] results[i]) is Some,
    ensures
        kept(results).len() == results.len(),
        forall|i: int| 0 <= i < results.len() ==> results[i] == Some(#[trigger] kept(results)[i]),
    decreases results.len(),
{
    if results.len() > 0 {
        let front = results.drop_last();
        assert forall|i: int| 0 <= i < front.len() implies (#[trigger] front[i]) is Some by {
            assert(results[i] is Some);
        }
        lemma_kept_all(front);
        assert forall|i: int| 0 <= i < results.len() implies results[i] == Some(
            #[trigger] kept(results)[i],
        ) by {
            if i < front.len() {
                assert(front[i] == Some(kept(front)[i]));
            }
        }
    }
}

/// Where the inputs nested in `input` are lower than it, their nodes are the
/// dispatch of those inputs.
pub proof fn lemma_nodes_below<B: Block>(editor: EditorView<B>, block: B, input: B::Input)
    requires
        nests_lower(block, input),
    ensures
        nodes_below(editor, block, input) == dispatch(editor, block.nested(&input)),
{
    let inner = block.nested(&input);
    let plain = Seq::new(inner.len(), |i: int| dispatch_one(editor, inner[i]));
    assert forall|j: int| 0 <= j < inner.len() implies results_below(editor, block, input)[j]
        == plain[j] by {
        assert(B::height(&inner[j]) < B::height(&input));
    }
    assert(results_below(editor, block, input) =~= plain);
}

/// The node of one input is the chosen block's node over the dispatch of the
/// inputs nested in it.
pub proof fn lemma_dispatch_one<B: Block>(editor: EditorView<B>, input: B::Input)
    requires
        chosen(editor, &input) matches Some(block) ==> nests_lower(block, input),
    ensures
        dispatch_one(editor, input) == match chosen(editor, &input) {
            Some(block) => Some(
                block.parsed(&editor.state, &input, dispatch(editor, block.nested(&input))),
            ),
            None => None,
        },
{
    match chosen(editor, &input) {
        Some(block) => {
            lemma_nodes_below(editor, block, input);
        },
        None => {},
    }
}

/// An input can be parsed exactly when its chosen block handles it and the
/// inputs nested in it can be parsed.
pub proof fn lemma_parseable_one<B: Block>(editor: EditorView<B>, input: B::Input)
    requires
        chosen(editor, &input) matches Some(block) ==> nests_lower(block, input),
    ensures
        parseable_one(editor, input) == match chosen(editor, &input) {
            Some(block) => block.handles(&input) && parseable(editor, block.nested(&input)),
            None => true,
        },
{
    match chosen(editor, &input) {
        Some(block) => {
            let inner = block.nested(&input);
            if parseable_one(editor, input) {
                assert forall|i: int| 0 <= i < inner.len() implies parseable_one(
                    editor,
                    #[trigger] inner[i],
                ) by {
                    assert(B::height(&inner[i]) < B::height(&input));
                }
            }
        },
        None => {},
    }
}

/// Dispatching one more input appends its node, or nothing where no block is
/// chosen for it.
pub proof fn lemma_dispatch_push<B: Block>(
    editor: EditorView<B>,
    inputs: Seq<B::Input>,
    last: B::Input,
)
    ensures
        dispatch(editor, inputs.push(last)) == match dispatch_one(editor, last) {
            Some(node) => dispatch(editor, inputs).push(node),
            None => dispatch(editor, inputs),
        },
{
    let longer = inputs.push(last);
    let results = Seq::new(inputs.len(), |i: int| dispatch_one(editor, inputs[i]));
    let more = Seq::new(longer.len(), |i: int| dispatch_one(editor, longer[i]));
    assert(more =~= results.push(dispatch_one(editor, last)));
    lemma_kept_push(results, dispatch_one(editor, last));
}

/// The inputs that some registered block recognizes, in their order.
pub open spec fn recognized_inputs<B: Block>(editor: EditorView<B>, inputs: Seq<B::Input>) -> Seq<
    B::Input,
> {
    inputs.filter(|input: B::Input| recognized(editor, input))
}

/// The first match is the lowest index, not below `from`, of a block that
/// recognizes the input; there is none exactly when no block from `from` on
/// recognizes it.
pub proof fn lemma_first_match<B: Block>(blocks: Seq<B>, input: &B::Input, from: int)
    requires
        0 <= from,
    ensures
        match first_match(blocks, input, from) {
            Some(index) => {
                &&& from <= index < blocks.len()
                &&& blocks[index].recognizes(input)
                &&& forall|i: int| from <= i < index ==> !(#[trigger] blocks[i]).recognizes(input)
            },
            None => forall|i: int|
                from <= i < blocks.len() ==> !(#[trigger] blocks[i]).recognizes(input),
        },
    decreases blocks.len() - from,
{
    if from < blocks.len() && !blocks[from].recognizes(input) {
        lemma_first_match(blocks, input, from + 1);
    }
}

/// A block that is registered later stands behind the blocks registered
/// before it: it changes nothing for an input that one of them recognizes,
/// and it gets an input that none of them recognizes and it does.
pub proof fn lemma_first_match_push<B: Block>(blocks: Seq<B>, block: B, input: &B::Input)
    ensures
        first_match(blocks.push(block), input, 0) == match first_match(blocks, input, 0) {
            Some(index) => Some(index),
            None => if block.recognizes(input) {
                Some(blocks.len() as int)
            } else {
                None
            },
        },
{
    let longer = blocks.push(block);
    lemma_first_match(blocks, input, 0);
    lemma_first_match(longer, input, 0);
    match first_match(blocks, input, 0) {
        Some(index) => {
            assert(longer[index] == blocks[index]);
            assert forall|i: int| 0 <= i < index implies !(#[trigger] longer[i]).recognizes(
                input,
            ) by {
                assert(longer[i] == blocks[i]);
            }
        },
        None => {
            assert forall|i: int| 0 <= i < blocks.len() implies !(#[trigger] longer[i]).recognizes(
                input,
            ) by {
                assert(longer[i] == blocks[i]);
            }
            assert(longer[blocks.len() as int] == block);
        },
    }
}

/// No inputs, no nodes, whatever blocks are registered.
pub proof fn lemma_dispatch_empty<B: Block>(editor: EditorView<B>)
    ensures
        dispatch(editor, Seq::<B::Input>::empty()) == Seq::<<B::Node as View>::V>::empty(),
{
}

/// There are never more nodes than inputs.
pub proof fn lemma_dispatch_len<B: Block>(editor: EditorView<B>, inputs: Seq<B::Input>)
    ensures
        dispatch(editor, inputs).len() <= inputs.len(),
{
    lemma_kept_len(Seq::new(inputs.len(), |i: int| dispatch_one(editor, inputs[i])));
}

/// Without a fallback, the nodes are those of the inputs that some block
/// recognizes, in the order of those inputs: an input that no block
/// recognizes leaves no gap.
pub proof fn lemma_dispatch_without_fallback<B: Block>(
    editor: EditorView<B>,
    inputs: Seq<B::Input>,
)
    requires
        editor.fallback is None,
    ensures
        dispatch(editor, inputs).len() == recognized_inputs(editor, inputs).len(),
        dispatch(editor, inputs).len() <= inputs.len(),
        forall|k: int|
            0 <= k < dispatch(editor, inputs).len() ==> dispatch_one(
                editor,
                recognized_inputs(editor, inputs)[k],
            ) == Some(#[trigger] dispatch(editor, inputs)[k]),
    decreases inputs.len(),
{
    let wanted = |input: B::Input| recognized(editor, input);
    if inputs.len() == 0 {
        inputs.lemma_filter_len(wanted);
    } else {
        let front = inputs.drop_last();
        let last = inputs.last();
        assert(inputs =~= front.push(last));
        lemma_dispatch_without_fallback(editor, front);
        lemma_dispatch_push(editor, front, last);
        front.lemma_filter_push(last, wanted);
        lemma_dispatch_len(editor, inputs);
        assert forall|k: int| 0 <= k < dispatch(editor, inputs).len() implies dispatch_one(
            editor,
            recognized_inputs(editor, inputs)[k],
        ) == Some(#[trigger] dispatch(editor, inputs)[k]) by {
            if k < dispatch(editor, front).len() {
                assert(dispatch(editor, inputs)[k] == dispatch(editor, front)[k]);
            }
        }
    }
}

/// Where two registered blocks recognize an input, the one registered later
/// never parses it: the input gives one node, built by the first block that
/// recognizes it, which is the earlier of the two or a block before it.
pub proof fn lemma_first_match_wins<B: Block>(
    editor: EditorView<B>,
    input: B::Input,
    earlier: int,
    later: int,
)
    requires
        0 <= earlier < later < editor.blocks.len(),
        editor.blocks[earlier].recognizes(&input),
        editor.blocks[later].recognizes(&input),
    ensures
        first_match(editor.blocks, &input, 0) is Some,
        first_match(editor.blocks, &input, 0)->0 <= earlier,
        (forall|i: int| 0 <= i < earlier ==> !(#[trigger] editor.blocks[i]).recognizes(&input))
            ==> first_match(editor.blocks, &input, 0) == Some(earlier),
        ({
            let first = editor.blocks[first_match(editor.blocks, &input, 0)->0];
            &&& chosen(editor, &input) == Some(first)
            &&& dispatch(editor, seq![input]) == seq![
                first.parsed(&editor.state, &input, nodes_below(editor, first, input)),
            ]
        }),
{
    lemma_first_match(editor.blocks, &input, 0);
    lemma_dispatch_push(editor, Seq::empty(), input);
    assert(Seq::<B::Input>::empty().push(input) =~= seq![input]);
    assert(dispatch(editor, seq![input]) =~= seq![dispatch_one(editor, input)->0]);
}

/// With a fallback every input gets a node: there are as many nodes as
/// inputs, each the node of the input at its place.
pub proof fn lemma_fallback_keeps_all<B: Block>(editor: EditorView<B>, inputs: Seq<B::Input>)
    requires
        editor.fallback is Some,
    ensures
        dispatch(editor, inputs).len() == inputs.len(),
        forall|i: int|
            0 <= i < inputs.len() ==> dispatch_one(editor, inputs[i]) == Some(
                #[trigger] dispatch(editor, inputs)[i],
            ),
{
    let results = Seq::new(inputs.len(), |i: int| dispatch_one(editor, inputs[i]));
    assert forall|i: int| 0 <= i < results.len() implies (#[trigger] results[i]) is Some by {
        assert(chosen(editor, &inputs[i]) is Some);
    }
    lemma_kept_all(results);
}

/// Where no registered block recognizes any of the inputs and a fallback is
/// set, there are as many nodes as inputs and each is the fallback's.
pub proof fn lemma_fallback_covers<B: Block>(editor: EditorView<B>, inputs: Seq<B::Input>)
    requires
        editor.fallback is Some,
        forall|i: int| 0 <= i < inputs.len() ==> !recognized(editor, #[trigger] inputs[i]),
    ensures
        dispatch(editor, inputs).len() == inputs.len(),
        forall|i: int|
            0 <= i < inputs.len() ==> (#[trigger] dispatch(editor, inputs)[i])
                == editor.fallback->0.parsed(
                &editor.state,
                &inputs[i],
                nodes_below(editor, editor.fallback->0, inputs[i]),
            ),
{
    lemma_fallback_keeps_all(editor, inputs);
    assert forall|i: int| 0 <= i < inputs.len() implies (#[trigger] dispatch(editor, inputs)[i])
        == editor.fallback->0.parsed(
        &editor.state,
        &inputs[i],
        nodes_below(editor, editor.fallback->0, inputs[i]),
    ) by {
        assert(!recognized(editor, inputs[i]));
        assert(dispatch_one(editor, inputs[i]) == Some(dispatch(editor, inputs)[i]));
    }
}

/// How many nodes a container is handed: one for each input nested in its
/// input where a fallback is set, and one for each of those that some block
/// recognizes where none is.
pub proof fn lemma_nodes_below_len<B: Block>(editor: EditorView<B>, block: B, input: B::Input)
    requires
        nests_lower(block, input),
    ensures
        nodes_below(editor, block, input).len() == if editor.fallback is Some {
            block.nested(&input).len()
        } else {
            recognized_inputs(editor, block.nested(&input)).len()
        },
{
    lemma_nodes_below(editor, block, input);
    if editor.fallback is Some {
        lemma_fallback_keeps_all(editor, block.nested(&input));
    } else {
        lemma_dispatch_without_fallback(editor, block.nested(&input));
    }
}

/// Whether the blocks of this type build their nodes without reading the
/// state.
pub open spec fn reads_no_state<B: Block>() -> bool {
    forall|block: B, one: B::State, other: B::State, input: B::Input, children: Seq<<B::Node as View>::V>|
        #![trigger block.parsed(&one, &input, children), block.parsed(&other, &input, children)]
        block.parsed(&one, &input, children) == block.parsed(&other, &input, children)
}

/// Where the blocks do not read the state, the node of an input depends on
/// the blocks, the fallback and the input alone.
pub proof fn lemma_dispatch_one_ignores_state<B: Block>(
    one: EditorView<B>,
    other: EditorView<B>,
    input: B::Input,
)
    requires
        reads_no_state::<B>(),
        one.blocks == other.blocks,
        one.fallback == other.fallback,
    ensures
        dispatch_one(one, input) == dispatch_one(other, input),
    decreases B::height(&input),
{
    match chosen(one, &input) {
        Some(block) => {
            let inner = block.nested(&input);
            assert forall|j: int| 0 <= j < inner.len() implies results_below(one, block, input)[j]
                == results_below(other, block, input)[j] by {
                if B::height(&inner[j]) < B::height(&input) {
                    lemma_dispatch_one_ignores_state(one, other, inner[j]);
                }
            }
            assert(results_below(one, block, input) =~= results_below(other, block, input));
            let children = kept(results_below(one, block, input));
            assert(block.parsed(&one.state, &input, children) == block.parsed(
                &other.state,
                &input,
                children,
            ));
        },
        None => {},
    }
}

/// Where the blocks do not read the state, the dispatcher is a function of
/// the blocks, the fallback and the inputs: the same inputs give the same
/// nodes again, whatever has happened to the state in between.
pub proof fn lemma_dispatch_ignores_state<B: Block>(
    one: EditorView<B>,
    other: EditorView<B>,
    inputs: Seq<B::Input>,
)
    requires
        reads_no_state::<B>(),
        one.blocks == other.blocks,
        one.fallback == other.fallback,
    ensures
        dispatch(one, inputs) == dispatch(other, inputs),
{
    let first = Seq::new(inputs.len(), |i: int| dispatch_one(one, inputs[i]));
    let second = Seq::new(inputs.len(), |i: int| dispatch_one(other, inputs[i]));
    assert forall|i: int| 0 <= i < inputs.len() implies first[i] == second[i] by {
        lemma_dispatch_one_ignores_state(one, other, inputs[i]);
    }
    assert(first =~= second);
}

/// Decides whether one input can be parsed.
pub fn can_process_node<B: Block>(editor: &Editor<B>, input: &B::Input) -> (able: bool)
    ensures
        able == parseable_one(editor@, *input),
    decreases B::height(input),
{
    match editor.select(input) {
        Some(block) => {
            let inner = block.children(input);
            let ghost nested = block.nested(input);
            proof {
                lemma_parseable_one(editor@, *input);
            }
            if !block.can_parse(input) {
                return false;
            }
            let mut index: usize = 0;
            while index < inner.len()
                invariant
                    index <= inner.len(),
                    inner@.len() == nested.len(),
                    nested == block.nested(input),
                    forall|i: int| 0 <= i < inner@.len() ==> *(#[trigger] inner@[i]) == nested[i],
                    nests_lower(*block, *input),
                    parseable_one(editor@, *input) == parseable(editor@, nested),
                    parseable(editor@, nested.take(index as int)),
                decreases inner.len() - index,
            {
                proof {
                    assert(B::height(&nested[index as int]) < B::height(input));
                }
                if !can_process_node(editor, inner[index]) {
                    proof {
                        assert(!parseable_one(editor@, nested[index as int]));
                    }
                    return false;
                }
                proof {
                    let longer = nested.take(index + 1);
                    assert forall|i: int| 0 <= i < longer.len() implies parseable_one(
                        editor@,
                        #[trigger] longer[i],
                    ) by {
                        if i < index {
                            assert(nested.take(index as int)[i] == longer[i]);
                        }
                    }
                }
                index += 1;
            }
            proof {
                assert(nested.take(index as int) =~= nested);
            }
            true
        },
        None => true,
    }
}

/// Decides whether the inputs can be parsed: whether `process_nodes` may be
/// called on them.
pub fn can_process<B: Block>(editor: &Editor<B>, children: &Vec<B::Input>) -> (able: bool)
    ensures
        able == parseable(editor@, children@),
{
    let mut index: usize = 0;
    while index < children.len()
        invariant
            index <= children.len(),
            parseable(editor@, children@.take(index as int)),
        decreases children.len() - index,
    {
        if !can_process_node(editor, &children[index]) {
            proof {
                assert(!parseable_one(editor@, children@[index as int]));
            }
            return false;
        }
        proof {
            let longer = children@.take(index + 1);
            assert forall|i: int| 0 <= i < longer.len() implies parseable_one(
                editor@,
                #[trigger] longer[i],
            ) by {
                if i < index {
                    assert(children@.take(index as int)[i] == longer[i]);
                }
            }
        }
        index += 1;
    }
    proof {
        assert(children@.take(index as int) =~= children@);
    }
    true
}

/// Parses one input, its nested inputs first. `None` where no block accepts
/// the input and there is no fallback.
pub fn process_node<B: Block>(editor: &Editor<B>, input: &B::Input) -> (node: Option<B::Node>)
    requires
        parseable_one(editor@, *input),
    ensures
        match node {
            Some(parsed) => dispatch_one(editor@, *input) == Some(parsed@),
            None => dispatch_one(editor@, *input) is None,
        },
    decreases B::height(input),
{
    match editor.select(input) {
        Some(block) => {
            let inner = block.children(input);
            let ghost nested = block.nested(input);
            proof {
                lemma_dispatch_one(editor@, *input);
                lemma_parseable_one(editor@, *input);
            }
            let mut nodes: Vec<B::Node> = Vec::new();
            let mut index: usize = 0;
            while index < inner.len()
                invariant
                    index <= inner.len(),
                    inner@.len() == nested.len(),
                    nested == block.nested(input),
                    forall|i: int| 0 <= i < inner@.len() ==> *(#[trigger] inner@[i]) == nested[i],
                    parseable(editor@, nested),
                    nests_lower(*block, *input),
                    views(nodes@) == dispatch(editor@, nested.take(index as int)),
                decreases inner.len() - index,
            {
                proof {
                    assert(B::height(&nested[index as int]) < B::height(input));
                    lemma_dispatch_push(
                        editor@,
                        nested.take(index as int),
                        nested[index as int],
                    );
                    assert(nested.take(index as int).push(nested[index as int]) =~= nested.take(
                        index + 1,
                    ));
                    assert(parseable_one(editor@, nested[index as int]));
                }
                let ghost before = nodes@;
                match process_node(editor, inner[index]) {
                    Some(parsed) => {
                        nodes.push(parsed);
                        assert(views(nodes@) =~= views(before).push(parsed@));
                    },
                    None => {},
                }
                index += 1;
            }
            proof {
                assert(nested.take(index as int) =~= nested);
            }
            Some(block.parse(editor.state(), input, nodes))
        },
        None => None,
    }
}

/// Parses the inputs in their order: each goes to the first registered block
/// that accepts it, or to the fallback if none does, and is left out if there
/// is no fallback either. The editor is not changed.
pub fn process_nodes<B: Block>(editor: &Editor<B>, children: Vec<B::Input>) -> (nodes: Vec<
    B::Node,
>)
    requires
        parseable(editor@, children@),
    ensures
        views(nodes@) == dispatch(editor@, children@),
        nodes@.len() <= children@.len(),
{
    let mut nodes: Vec<B::Node> = Vec::new();
    let mut index: usize = 0;
    while index < children.len()
        invariant
            index <= children.len(),
            parseable(editor@, children@),
            views(nodes@) == dispatch(editor@, children@.take(index as int)),
            nodes@.len() <= index,
        decreases children.len() - index,
    {
        proof {
            lemma_dispatch_push(editor@, children@.take(index as int), children@[index as int]);
            assert(children@.take(index as int).push(children@[index as int]) =~= children@.take(
                index + 1,
            ));
            assert(parseable_one(editor@, children@[index as int]));
        }
        let ghost before = nodes@;
        match process_node(editor, &children[index]) {
            Some(parsed) => {
                nodes.push(parsed);
                assert(views(nodes@) =~= views(before).push(parsed@));
            },
            None => {},
        }
        index += 1;
    }
    proof {
        assert(children@.take(index as int) =~= children@);
    }
    nodes
}

/// Parses the inputs as `process_nodes` does where they can be parsed, and
/// says so where they cannot: `None` exactly when some chosen block does not
/// handle its input.
pub fn try_process_nodes<B: Block>(editor: &Editor<B>, children: Vec<B::Input>) -> (nodes: Option<
    Vec<B::Node>,
>)
    ensures
        match nodes {
            Some(nodes) => {
                &&& parseable(editor@, children@)
                &&& views(nodes@) == dispatch(editor@, children@)
            },
            None => !parseable(editor@, children@),
        },
{
    if can_process(editor, &children) {
        Some(process_nodes(editor, children))
    } else {
        None
    }
}

} // verus!
