use edita::{
    can_process, process_node, process_nodes, try_process_nodes, Block, Command, Editor,
};

#[derive(Debug, PartialEq, Eq)]
struct TestState {
    value: i32,
}

struct TestBlock;

impl Block for TestBlock {
    type Input = i32;
    type Node = i32;
    type State = TestState;

    fn accepts(&self, input: &i32) -> bool {
        *input % 2 == 0
    }

    fn can_parse(&self, _input: &i32) -> bool {
        true
    }

    fn children<'a>(&self, _input: &'a i32) -> Vec<&'a i32> {
        Vec::new()
    }

    fn parse(&self, _state: &TestState, input: &i32, _children: Vec<i32>) -> i32 {
        *input * 2
    }
}

struct TestCommand;

impl Command<TestState> for TestCommand {
    fn execute(&self, state: &mut TestState) {
        state.value += 1;
    }
}

#[test]
fn test_editor_new() {
    let editor: Editor<TestBlock> = Editor::new(TestState { value: 42 });
    assert_eq!(editor.state().value, 42);
}

#[test]
fn test_editor_command() {
    let mut editor: Editor<TestBlock> = Editor::new(TestState { value: 0 });
    let command = TestCommand;
    editor.command(command);
    assert_eq!(editor.state().value, 1);
}

#[test]
fn test_editor_add_block() {
    let mut editor: Editor<TestBlock> = Editor::new(TestState { value: 0 });
    let block = TestBlock;
    editor.add_block(block);
    let input = 4;
    let parsed_nodes = process_nodes(&editor, vec![input]);
    assert_eq!(parsed_nodes, vec![8]); // 4 * 2 = 8
}

#[test]
fn test_editor_set_fallback_block() {
    let mut editor: Editor<TestBlock> = Editor::new(TestState { value: 0 });
    let fallback_block = TestBlock;
    editor.set_fallback_block(fallback_block);
    let input = 3; // the fallback handles the odd input
    let parsed_nodes = process_nodes(&editor, vec![input]);
    assert_eq!(parsed_nodes, vec![6]); // 3 * 2 = 6
}

#[test]
fn test_process_nodes_no_blocks() {
    let editor: Editor<TestBlock> = Editor::new(TestState { value: 0 });
    let input = 5;
    let parsed_nodes: Vec<_> = process_nodes(&editor, vec![input]);
    assert_eq!(parsed_nodes, vec![]); // no block handles the input
}

/// Accepts the multiples of `divisor` and multiplies them by `factor`; as a
/// fallback it parses only what is not negative.
struct Scale {
    divisor: i32,
    factor: i32,
}

impl Block for Scale {
    type Input = i32;
    type Node = i32;
    type State = TestState;

    fn accepts(&self, input: &i32) -> bool {
        *input % self.divisor == 0
    }

    fn can_parse(&self, input: &i32) -> bool {
        *input >= 0
    }

    fn children<'a>(&self, _input: &'a i32) -> Vec<&'a i32> {
        Vec::new()
    }

    fn parse(&self, state: &TestState, input: &i32, _children: Vec<i32>) -> i32 {
        *input * self.factor + state.value
    }
}

fn scale(divisor: i32, factor: i32) -> Scale {
    Scale { divisor, factor }
}

#[test]
fn empty_input_gives_empty_output() {
    let mut editor: Editor<Scale> = Editor::new(TestState { value: 0 });
    assert_eq!(process_nodes(&editor, vec![]), Vec::<i32>::new());
    editor.add_block(scale(2, 10));
    editor.set_fallback_block(scale(1, 1));
    assert_eq!(process_nodes(&editor, vec![]), Vec::<i32>::new());
}

#[test]
fn first_accepting_block_wins() {
    let mut editor: Editor<Scale> = Editor::new(TestState { value: 0 });
    editor.add_block(scale(2, 10));
    editor.add_block(scale(2, 100));
    editor.add_block(scale(3, 1000));
    // 6 is accepted by all three, 9 by the third alone
    assert_eq!(process_nodes(&editor, vec![6, 9]), vec![60, 9000]);
}

#[test]
fn registration_order_decides() {
    let mut editor: Editor<Scale> = Editor::new(TestState { value: 0 });
    editor.add_block(scale(3, 1000));
    editor.add_block(scale(2, 10));
    assert_eq!(process_nodes(&editor, vec![6, 4, 9]), vec![6000, 40, 9000]);
}

#[test]
fn unaccepted_inputs_leave_no_gap() {
    let mut editor: Editor<Scale> = Editor::new(TestState { value: 0 });
    editor.add_block(scale(2, 10));
    let output = process_nodes(&editor, vec![1, 2, 3, 4, 5, 6, 7]);
    assert_eq!(output, vec![20, 40, 60]);
    assert!(output.len() <= 7);
}

#[test]
fn fallback_takes_what_no_block_accepts() {
    let mut editor: Editor<Scale> = Editor::new(TestState { value: 0 });
    editor.add_block(scale(2, 10));
    editor.set_fallback_block(scale(1000, 7));
    assert_eq!(process_nodes(&editor, vec![1, 2, 3]), vec![7, 20, 21]);
}

#[test]
fn fallback_alone_covers_every_input() {
    let mut editor: Editor<Scale> = Editor::new(TestState { value: 0 });
    editor.add_block(scale(100, 10));
    editor.set_fallback_block(scale(1000, 7));
    let output = process_nodes(&editor, vec![1, 2, 3, 5]);
    assert_eq!(output, vec![7, 14, 21, 35]);
    assert_eq!(output.len(), 4);
}

#[test]
fn later_fallback_replaces_earlier() {
    let mut editor: Editor<Scale> = Editor::new(TestState { value: 0 });
    editor.set_fallback_block(scale(1, 2));
    editor.set_fallback_block(scale(1, 3));
    assert_eq!(process_nodes(&editor, vec![5]), vec![15]);
}

#[test]
fn process_node_gives_one_node_or_none() {
    let mut editor: Editor<Scale> = Editor::new(TestState { value: 0 });
    editor.add_block(scale(2, 10));
    assert_eq!(process_node(&editor, &4), Some(40));
    assert_eq!(process_node(&editor, &5), None);
}

#[test]
fn select_finds_first_accepting_block_or_fallback() {
    let mut editor: Editor<Scale> = Editor::new(TestState { value: 0 });
    assert!(editor.select(&4).is_none());
    editor.add_block(scale(2, 10));
    editor.add_block(scale(2, 100));
    assert_eq!(editor.select(&4).map(|block| block.factor), Some(10));
    assert!(editor.select(&5).is_none());
    editor.set_fallback_block(scale(1, 7));
    assert_eq!(editor.select(&5).map(|block| block.factor), Some(7));
}

#[test]
fn parse_reads_the_state() {
    let mut editor: Editor<Scale> = Editor::new(TestState { value: 1 });
    editor.add_block(scale(2, 10));
    assert_eq!(process_nodes(&editor, vec![2]), vec![21]);
    editor.state_mut().value = 5;
    assert_eq!(process_nodes(&editor, vec![2]), vec![25]);
    assert_eq!(editor.state().value, 5);
}

#[test]
fn dispatching_leaves_the_editor_as_it_was() {
    let mut editor: Editor<Scale> = Editor::new(TestState { value: 3 });
    editor.add_block(scale(2, 10));
    let first = process_nodes(&editor, vec![2, 3, 4]);
    let second = process_nodes(&editor, vec![2, 3, 4]);
    assert_eq!(first, second);
    assert_eq!(editor.state(), &TestState { value: 3 });
}

#[test]
fn can_process_tells_when_the_chosen_block_cannot_parse() {
    let mut editor: Editor<Scale> = Editor::new(TestState { value: 0 });
    editor.add_block(scale(2, 10));
    assert!(can_process(&editor, &vec![2, 4, 7]));
    // -2 is accepted by the block, which cannot parse it
    assert!(!can_process(&editor, &vec![2, -2]));
    // -3 is accepted by no block and there is no fallback: it is left out
    assert!(can_process(&editor, &vec![-3]));
    editor.set_fallback_block(scale(1, 1));
    assert!(!can_process(&editor, &vec![-3]));
    assert!(can_process(&editor, &vec![]));
}

#[test]
fn try_process_nodes_parses_or_says_that_it_cannot() {
    let mut editor: Editor<Scale> = Editor::new(TestState { value: 0 });
    editor.add_block(scale(2, 10));
    assert_eq!(try_process_nodes(&editor, vec![2, 3, 4]), Some(vec![20, 40]));
    assert_eq!(try_process_nodes(&editor, vec![2, -4]), None);
    assert_eq!(try_process_nodes(&editor, vec![]), Some(vec![]));
}

#[test]
fn command_changes_the_state_only() {
    let mut editor: Editor<Scale> = Editor::new(TestState { value: 0 });
    editor.add_block(scale(2, 10));
    editor.command(TestCommand);
    editor.command(TestCommand);
    assert_eq!(editor.state().value, 2);
    assert_eq!(process_nodes(&editor, vec![2]), vec![22]);
}

/// A tree of numbers, to try containers on.
struct Tree {
    value: i32,
    kids: Vec<Tree>,
}

fn leaf(value: i32) -> Tree {
    Tree { value, kids: Vec::new() }
}

fn tree(value: i32, kids: Vec<Tree>) -> Tree {
    Tree { value, kids }
}

/// Writes a tree out: a leaf as its number, a tree that has what `wanted`
/// asks for as its number with the nodes of its children in brackets.
struct Writer {
    wanted: i32,
}

impl Block for Writer {
    type Input = Tree;
    type Node = String;
    type State = ();

    fn accepts(&self, input: &Tree) -> bool {
        input.value % self.wanted == 0
    }

    fn can_parse(&self, _input: &Tree) -> bool {
        true
    }

    fn children<'a>(&self, input: &'a Tree) -> Vec<&'a Tree> {
        input.kids.iter().collect()
    }

    fn parse(&self, _state: &(), input: &Tree, children: Vec<String>) -> String {
        if input.kids.is_empty() {
            format!("{}", input.value)
        } else {
            format!("{}[{}]", input.value, children.join(" "))
        }
    }
}

#[test]
fn nested_inputs_are_parsed_first_and_handed_to_the_container() {
    let mut editor: Editor<Writer> = Editor::new(());
    editor.add_block(Writer { wanted: 2 });
    let inputs = vec![
        tree(2, vec![leaf(4), leaf(5), tree(6, vec![leaf(7), leaf(8)])]),
        leaf(3),
        leaf(10),
    ];
    let output = process_nodes(&editor, inputs);
    assert_eq!(output, vec!["2[4 6[8]]".to_string(), "10".to_string()]);
}

#[test]
fn container_holds_every_child_with_a_fallback() {
    let mut editor: Editor<Writer> = Editor::new(());
    editor.add_block(Writer { wanted: 2 });
    editor.set_fallback_block(Writer { wanted: 1 });
    let inputs = vec![tree(2, vec![leaf(4), leaf(5), tree(6, vec![leaf(7), leaf(8)])]), leaf(3)];
    let output = process_nodes(&editor, inputs);
    assert_eq!(output, vec!["2[4 5 6[7 8]]".to_string(), "3".to_string()]);
}
