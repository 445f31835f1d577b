use floating_ui::offset_parent::{
    choose_offset_parent, find_svg_offset_parent, skip_static_tables, OffsetParent,
    OffsetParentNode, ParentNode,
};

fn parent(is_last_traversable: bool, is_element: bool, is_static_positioned: bool) -> ParentNode {
    ParentNode {
        is_last_traversable,
        is_element,
        is_static_positioned,
    }
}

fn offset_parent(
    is_table_element: bool,
    is_static_positioned: bool,
    is_last_traversable: bool,
    is_containing_block: bool,
) -> OffsetParentNode {
    OffsetParentNode {
        is_table_element,
        is_static_positioned,
        is_last_traversable,
        is_containing_block,
    }
}

#[test]
fn top_layer_uses_the_window() {
    let parents = vec![parent(false, true, false)];
    let chain = vec![offset_parent(false, false, false, false)];
    assert_eq!(
        choose_offset_parent(true, true, &parents, &chain, true),
        OffsetParent::Window
    );
}

#[test]
fn svg_element_uses_its_closest_positioned_ancestor() {
    let parents = vec![
        parent(false, false, true),
        parent(false, true, true),
        parent(false, true, false),
    ];
    assert_eq!(find_svg_offset_parent(&parents), Some(2));
    assert_eq!(
        choose_offset_parent(false, false, &parents, &vec![], false),
        OffsetParent::Ancestor(2)
    );
    let stopped = vec![parent(false, true, true), parent(true, true, false)];
    assert_eq!(find_svg_offset_parent(&stopped), None);
    assert_eq!(
        choose_offset_parent(false, false, &stopped, &vec![], true),
        OffsetParent::Window
    );
}

#[test]
fn static_tables_are_skipped() {
    let chain = vec![
        offset_parent(true, true, false, false),
        offset_parent(true, false, false, false),
    ];
    assert_eq!(skip_static_tables(&chain), Some(1));
    assert_eq!(
        choose_offset_parent(false, true, &vec![], &chain, false),
        OffsetParent::OffsetParent(1)
    );
    let only_tables = vec![offset_parent(true, true, false, false)];
    assert_eq!(skip_static_tables(&only_tables), None);
    assert_eq!(
        choose_offset_parent(false, true, &vec![], &only_tables, true),
        OffsetParent::ContainingBlock
    );
    assert_eq!(
        choose_offset_parent(false, true, &vec![], &only_tables, false),
        OffsetParent::Window
    );
}

#[test]
fn static_root_without_containing_block_uses_the_window() {
    let chain = vec![offset_parent(false, true, true, false)];
    assert_eq!(
        choose_offset_parent(false, true, &vec![], &chain, true),
        OffsetParent::Window
    );
    let containing = vec![offset_parent(false, true, true, true)];
    assert_eq!(
        choose_offset_parent(false, true, &vec![], &containing, false),
        OffsetParent::OffsetParent(0)
    );
}
