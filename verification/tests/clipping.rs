use floating_ui::clipping::{css_position, filter_clipping_ancestors, ChainNode, CssPosition};

fn node(node: u64, is_containing_block: bool, position: CssPosition) -> ChainNode {
    ChainNode {
        node,
        is_containing_block,
        position,
    }
}

#[test]
fn fixed_element_escapes_ancestors_up_to_its_containing_block() {
    let chain = vec![
        node(1, false, CssPosition::Static),
        node(2, true, CssPosition::Other),
        node(3, false, CssPosition::Static),
    ];
    assert_eq!(filter_clipping_ancestors(vec![1, 2, 3], true, &chain), vec![2, 3]);
}

#[test]
fn absolute_chain_escapes_static_ancestors() {
    let chain = vec![
        node(10, false, CssPosition::Absolute),
        node(11, false, CssPosition::Static),
        node(12, false, CssPosition::Other),
        node(13, false, CssPosition::Static),
    ];
    assert_eq!(
        filter_clipping_ancestors(vec![10, 11, 12, 13], false, &chain),
        vec![10, 12, 13]
    );
}

#[test]
fn static_chain_keeps_every_ancestor() {
    let chain = vec![
        node(1, false, CssPosition::Static),
        node(2, false, CssPosition::Other),
    ];
    assert_eq!(filter_clipping_ancestors(vec![2, 5, 1], false, &chain), vec![2, 5, 1]);
    assert_eq!(filter_clipping_ancestors(vec![], true, &chain), Vec::<u64>::new());
}

#[test]
fn dropped_nodes_are_removed_wherever_they_appear() {
    let chain = vec![node(7, false, CssPosition::Static)];
    assert_eq!(filter_clipping_ancestors(vec![7, 8, 7], true, &chain), vec![8]);
}

#[test]
fn position_values() {
    assert_eq!(css_position("static"), CssPosition::Static);
    assert_eq!(css_position("absolute"), CssPosition::Absolute);
    assert_eq!(css_position("fixed"), CssPosition::Fixed);
    assert_eq!(css_position("relative"), CssPosition::Other);
    assert_eq!(css_position(""), CssPosition::Other);
}
