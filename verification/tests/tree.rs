use maple::gfx::color::Color;
use maple::px::Px;
use maple::shapes::{Extent, Point, Rect};
use maple::ui::builder::WidgetTreeBuilder;
use maple::ui::draw::{build_draw_commands, DrawCommand};
use maple::ui::tree::{Error, Index, Tree, MAX_INDEX};
use maple::ui::widgets::{Block, Column, Panel, Row, Widget, WidgetTree};

#[test]
fn initialization() {
    let tree = Tree::<u32>::new();
    // There are no nodes in the tree.
    assert_eq!(tree.len(), 0);
    assert_eq!(tree.children_starts_len(), 0);
    // children_array[0] is reserved so that no list of children starts at 0.
    assert_eq!(tree.children_array_len(), 1);
}

#[test]
fn simple() -> Result<(), Error> {
    let mut tree = Tree::new();

    /*
    Tree:
    0
        1
            2
        3
        4
    */

    let four = tree.add(4, &[])?;
    let three = tree.add(3, &[])?;
    let two = tree.add(2, &[])?;
    let one = tree.add(1, &[two])?;
    let zero = tree.add(0, &[one, three, four])?;

    assert_eq!(*tree.get(zero), 0);
    assert_eq!(*tree.get(one), 1);
    assert_eq!(*tree.get(two), 2);
    assert_eq!(*tree.get(three), 3);
    assert_eq!(*tree.get(four), 4);

    assert_eq!(*tree.children(zero), [one, three, four]);
    assert_eq!(*tree.children(one), [two]);
    assert_eq!(*tree.children(two), []);
    assert_eq!(*tree.children(three), []);
    assert_eq!(*tree.children(two), []);

    Ok(())
}

#[test]
fn capacity() -> Result<(), Error> {
    let mut tree = Tree::new();
    tree.reserve(MAX_INDEX as usize);

    for i in 0..MAX_INDEX + 1 {
        tree.add(i, &[])?;
    }

    let fail = tree.add(MAX_INDEX, &[]);
    assert_eq!(fail, Err(Error::TooManyNodes));
    Ok(())
}

#[test]
fn tree_errors_and_messages() {
    let mut tree = Tree::<u8>::new();
    let too_many: Vec<Index> = vec![Index(0); u16::MAX as usize + 1];
    assert_eq!(tree.add(1, &too_many), Err(Error::TooManyChildren));
    assert_eq!(tree.len(), 0);
    assert_eq!(Error::TooManyNodes.message(), "Could not add a new layout node to the tree.");
    assert_eq!(
        Error::TooManyChildren.message(),
        "Attempted to add more than u16::MAX children to a node in the tree."
    );
    assert_eq!(Error::MoreThanOneParent.message(), "A node can only have one parent.");
}

#[test]
fn tree_get_mut_and_clear() {
    let mut tree = Tree::new();
    let a = tree.add(5u32, &[]).unwrap();
    let b = tree.add(6u32, &[a]).unwrap();
    *tree.get_mut(a) = 50;
    assert_eq!(*tree.get(a), 50);
    assert_eq!(tree.children(b), vec![a]);
    tree.clear();
    assert_eq!(tree.len(), 0);
    assert_eq!(tree.children_array_len(), 1);
    assert!(Index::null().is_null());
    assert!(!a.is_null());
    assert_eq!(Index::default(), Index::null());
    assert_eq!(b.get(), 1);
}

#[test]
fn test_builder() {
    let mut builder = WidgetTreeBuilder::new();

    {
        let mut panel = builder.panel(Color::rgb(100, 0, 0), Px(10), None, None);
        panel.panel(Color::rgb(0, 100, 0), Px(0), None, None).end();
        panel.panel(Color::rgb(0, 0, 100), Px(0), None, None).end();
        panel.end();
    }

    builder
        .panel(Color::rgb(200, 200, 200), Px(100), Some(Extent::new(Px(200), Px(400))), None)
        .end();

    let (tree, root) = builder.build();

    // The children come before their parents; the root comes last.
    assert_eq!(tree.len(), 5);
    assert_eq!(root, Index(4));
    assert_eq!(tree.children(root), vec![Index(2), Index(3)]);
    assert_eq!(tree.children(Index(2)), vec![Index(0), Index(1)]);
    match tree.get(Index(3)) {
        Widget::Panel(p) => {
            assert_eq!(p.min_extent, Extent::new(Px(200), Px(400)));
            assert_eq!(p.max_extent, Extent::max_value());
            assert_eq!(p.margin, Px(100));
        },
        _ => panic!("expected a panel"),
    }
    match tree.get(root) {
        Widget::Panel(p) => assert_eq!(p.color, Color::rgb(0, 0, 0)),
        _ => panic!("expected the root panel"),
    }
}

#[test]
fn builder_blocks_and_columns() {
    let mut builder = WidgetTreeBuilder::new();
    {
        let mut columns = builder.layout_columns(Px(4));
        columns.block(Color::rgb(1, 2, 3), Extent::new(Px(10), Px(20)), None, Some(Extent::new(Px(30), Px(40)))).end();
        columns.panel_fixed(Color::rgb(4, 5, 6), Px(2), Extent::new(Px(7), Px(8))).end();
        columns.layout_columns(Px(1)).end();
        columns.end();
    }
    let (tree, root) = builder.build();
    assert_eq!(tree.children(Index(3)), vec![Index(0), Index(1), Index(2)]);
    assert_eq!(tree.children(root), vec![Index(3)]);
    match tree.get(Index(0)) {
        Widget::Block(b) => {
            assert_eq!(b.min_size, Extent::new(Px(0), Px(0)));
            assert_eq!(b.max_size, Extent::new(Px(30), Px(40)));
            assert_eq!(b.size, Extent::new(Px(10), Px(20)));
        },
        _ => panic!("expected a block"),
    }
    match tree.get(Index(1)) {
        Widget::Panel(p) => {
            assert_eq!(p.min_extent, Extent::new(Px(7), Px(8)));
            assert_eq!(p.max_extent, Extent::new(Px(7), Px(8)));
        },
        _ => panic!("expected a panel"),
    }
}

fn rect(x: i16, y: i16, w: i16, h: i16) -> Rect {
    Rect::new(Px(x), Px(y), Px(w), Px(h))
}

#[test]
fn draw_commands_of_a_panel_with_blocks() {
    let mut tree: WidgetTree = Tree::new();
    let red = Color::rgb(255, 0, 0);
    let green = Color::rgb(0, 255, 0);
    let grey = Color::rgb(50, 50, 50);
    let size = Extent::new(Px(10), Px(20));
    let block = |color| Widget::Block(Block { color, size, min_size: size, max_size: size });
    let b0 = tree.add(block(red), &[]).unwrap();
    let b1 = tree.add(block(green), &[]).unwrap();
    let panel = Panel::new(grey, Px(5), None, None);
    let root = tree.add(Widget::Panel(panel), &[b0, b1]).unwrap();
    let sizes = vec![Some(size), Some(size), Some(Extent::new(Px(100), Px(100)))];
    let mut commands = Vec::new();
    build_draw_commands(&tree, root, &sizes, Extent::new(Px(100), Px(100)), &mut commands);
    assert_eq!(
        commands,
        vec![
            DrawCommand::Rect { rect: rect(0, 0, 100, 100), color: grey },
            DrawCommand::Rect { rect: rect(5, 5, 10, 20), color: red },
            // The next child starts below the first and a margin.
            DrawCommand::Rect { rect: rect(5, 30, 10, 20), color: green },
        ]
    );
}

#[test]
fn draw_commands_of_rows_and_columns() {
    let mut tree: WidgetTree = Tree::new();
    let c = Color::rgb(9, 9, 9);
    let size = Extent::new(Px(10), Px(20));
    let block = Widget::Block(Block { color: c, size, min_size: size, max_size: size });
    let a = tree.add(block.clone(), &[]).unwrap();
    let b = tree.add(block.clone(), &[]).unwrap();
    let row = tree.add(Widget::Row(Row { margin: Px(3) }), &[a, b]).unwrap();
    let d = tree.add(block.clone(), &[]).unwrap();
    let column = tree.add(Widget::Column(Column { margin: Px(2) }), &[row, d]).unwrap();
    let sizes = vec![Some(size), Some(size), Some(Extent::new(Px(23), Px(20))), Some(size), None];
    let mut commands = Vec::new();
    build_draw_commands(&tree, column, &sizes, Extent::new(Px(50), Px(60)), &mut commands);
    assert_eq!(
        commands,
        vec![
            DrawCommand::Rect { rect: rect(0, 0, 10, 20), color: c },
            DrawCommand::Rect { rect: rect(13, 0, 10, 20), color: c },
            DrawCommand::Rect { rect: rect(0, 22, 10, 20), color: c },
        ]
    );
    let _ = Point::new(Px(0), Px(0));
}

#[test]
fn add_refuses_a_second_parent() {
    let mut t: Tree<u32> = Tree::new();
    let c = t.add(1, &[]).unwrap();
    let p = t.add(2, &[c]).unwrap();
    assert_eq!(t.add(3, &[c]), Err(Error::MoreThanOneParent));
    assert_eq!(t.len(), 2);
    assert_eq!(t.children(p), vec![c]);
    let q = t.add(4, &[]).unwrap();
    assert_eq!(t.add(5, &[q, c]), Err(Error::MoreThanOneParent));
    assert_eq!(t.add(5, &[q]), Ok(Index(3)));
    assert_eq!(Error::MoreThanOneParent.message(), "A node can only have one parent.");
}
