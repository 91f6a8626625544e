//! Group graph construction and its graphviz rendering.

use tapejit::stage2::{
    BinaryChoiceOpcode, BinaryOpcode, Op, Source, SourceGroup, Stage1, Stage2, UnaryOpcode,
};

fn two_group_stage() -> Stage1 {
    // n2 = n0 + n1, with n0 (a variable) and n1 (a constant) in group 1 and
    // the sum in group 0.
    Stage1 {
        ops: vec![
            (Op::Var(0), 1),
            (Op::Const(2.0f32.to_bits()), 1),
            (Op::Binary(BinaryOpcode::Add, 0, 1), 0),
        ],
        root: 2,
        groups: vec![
            SourceGroup { choices: vec![Source::Root], nodes: vec![2] },
            SourceGroup { choices: vec![Source::Left(0)], nodes: vec![0, 1] },
        ],
        num_choices: 1,
        vars: vec![String::from("X")],
    }
}

#[test]
fn test_group_links() {
    let s2 = Stage2::from(&two_group_stage());
    assert_eq!(s2.root, 2);
    assert_eq!(s2.num_choices, 1);
    assert_eq!(s2.vars, vec![String::from("X")]);
    assert_eq!(s2.groups.len(), 2);
    assert_eq!(s2.groups[0].nodes, vec![2]);
    assert_eq!(s2.groups[1].nodes, vec![0, 1]);
    assert_eq!(s2.groups[0].choices, vec![Source::Root]);
    assert_eq!(s2.groups[1].choices, vec![Source::Left(0)]);
    // Group 0 feeds on group 1 and nothing else.
    assert_eq!(s2.groups[0].downstream, vec![1]);
    assert_eq!(s2.groups[0].upstream, Vec::<usize>::new());
    assert_eq!(s2.groups[1].downstream, Vec::<usize>::new());
    assert_eq!(s2.groups[1].upstream, vec![0]);
}

#[test]
fn test_group_links_sorted_unique() {
    // Two nodes of group 0 both reach into groups 2 and 1: each neighbor
    // appears once, in increasing order.
    let s1 = Stage1 {
        ops: vec![
            (Op::Var(0), 1),
            (Op::Var(0), 2),
            (Op::Binary(BinaryOpcode::Mul, 1, 0), 0),
            (Op::Binary(BinaryOpcode::Sub, 1, 0), 0),
            (Op::BinaryChoice(BinaryChoiceOpcode::Min, 2, 3, 0), 0),
        ],
        root: 4,
        groups: vec![
            SourceGroup { choices: vec![Source::Root], nodes: vec![2, 3, 4] },
            SourceGroup { choices: vec![Source::Left(0)], nodes: vec![0] },
            SourceGroup { choices: vec![Source::Right(0)], nodes: vec![1] },
        ],
        num_choices: 1,
        vars: vec![String::from("X")],
    };
    let s2 = Stage2::from(&s1);
    assert_eq!(s2.groups[0].downstream, vec![1, 2]);
    assert_eq!(s2.groups[1].upstream, vec![0]);
    assert_eq!(s2.groups[2].upstream, vec![0]);
}

#[test]
fn test_iter_children() {
    assert_eq!(Op::Var(0).iter_children(), Vec::<usize>::new());
    assert_eq!(Op::Const(0).iter_children(), Vec::<usize>::new());
    assert_eq!(Op::Unary(UnaryOpcode::Sqrt, 7).iter_children(), vec![7]);
    assert_eq!(Op::Binary(BinaryOpcode::Add, 1, 2).iter_children(), vec![1, 2]);
    assert_eq!(
        Op::BinaryChoice(BinaryChoiceOpcode::Max, 3, 4, 9).iter_children(),
        vec![3, 4]
    );
}

#[test]
fn test_write_dot() {
    let s2 = Stage2::from(&two_group_stage());
    let text = s2.write_dot();
    let expected = "digraph mygraph {\n\
        compound=true\n\
        subgraph cluster_0 {\n\
        n2 [label=\"add\"]\n\
        SINK_0 [shape=point style=invis]\n\
        SOURCE_0 [shape=point style=invis]\n\
        { rank = min; SINK_0 }\n\
        { rank = max; SOURCE_0 }\n\
        }\n\
        subgraph cluster_1 {\n\
        n0 [label=\"X\"]\n\
        n1 [label=\"const 1073741824\"]\n\
        SINK_1 [shape=point style=invis]\n\
        SOURCE_1 [shape=point style=invis]\n\
        { rank = min; SINK_1 }\n\
        { rank = max; SOURCE_1 }\n\
        }\n\
        n2 -> n0 [color=\"#00000040\"]\n\
        n2 -> n1 [color=\"#00000040\"]\n\
        SOURCE_0 -> SINK_1 [ltail=cluster_0, lhead=cluster_1];\n\
        }\n";
    assert_eq!(text, expected);
}
