//! Drawing commands produced from a laid-out widget tree.
//!
//! Every widget is drawn in an area handed down by its parent. A block
//! draws its own rectangle; a panel draws its rectangle and then stacks its
//! children from the top, inside its margin; a column stacks its children
//! from the top and a row from the left, `margin` apart. The size of each
//! widget comes from the layout.
use super::tree::Index;
use super::widgets::{Block, Column, Panel, Row, Widget, WidgetTree};
use crate::gfx::color::Color;
use crate::px::{fits_i16, Px};
use crate::shapes::{Extent, Point, Rect};
use vstd::prelude::*;

verus! {

/// A drawing command.
#[derive(Clone, Copy, Debug, PartialEq, Eq, Structural)]
pub enum DrawCommand {
    Rect { rect: Rect, color: Color },
}

/// Something that visits the widgets of a tree, carrying `Extra` down.
pub trait Visitor<Extra> {
    fn visit_column(&mut self, index: Index, column: &Column, extra: Extra);

    fn visit_row(&mut self, index: Index, row: &Row, extra: Extra);

    fn visit_block(&mut self, index: Index, block: &Block, extra: Extra);

    fn visit_panel(&mut self, index: Index, panel: &Panel, extra: Extra);
}

/// The laid-out size of node `i`, if the layout has one.
pub open spec fn size_of(sizes: Seq<Option<Extent>>, i: int) -> Option<Extent> {
    if 0 <= i < sizes.len() {
        sizes[i]
    } else {
        None
    }
}

/// The rectangle at `(x, y)` of `w` by `h` pixels.
pub open spec fn rect_of(x: int, y: int, w: int, h: int) -> Rect {
    Rect {
        point: Point { x: Px(x as i16), y: Px(y as i16) },
        extent: Extent { width: Px(w as i16), height: Px(h as i16) },
    }
}

/// The commands that drawing `node` in `area` produces, or `None` when
/// drawing it fails: the node or a size is missing, a coordinate leaves
/// `i16`, or the tree is deeper than `fuel`.
pub open spec fn draw_node(
    tree: &WidgetTree,
    sizes: Seq<Option<Extent>>,
    node: int,
    area: Rect,
    fuel: nat,
) -> Option<Seq<DrawCommand>>
    decreases fuel, 1int, 0int,
{
    let x = area.point.x.0 as int;
    let y = area.point.y.0 as int;
    let w = area.extent.width.0 as int;
    let h = area.extent.height.0 as int;
    if fuel == 0 || !(0 <= node < tree.data().len()) {
        None
    } else {
        match tree.data()[node] {
            Widget::Column(c) => draw_stack(
                tree,
                sizes,
                tree.children_of(node),
                0,
                true,
                x,
                y,
                w,
                h,
                y,
                c.margin.0 as int,
                fuel,
            ),
            Widget::Row(r) => draw_stack(
                tree,
                sizes,
                tree.children_of(node),
                0,
                false,
                x,
                y,
                w,
                h,
                x,
                r.margin.0 as int,
                fuel,
            ),
            Widget::Block(b) => match size_of(sizes, node) {
                Some(s) => Some(seq![DrawCommand::Rect { rect: Rect { point: area.point, extent: s }, color: b.color }]),
                None => None,
            },
            Widget::Panel(p) => {
                let m = p.margin.0 as int;
                match size_of(sizes, node) {
                    Some(s) => if fits_i16(y + m) && fits_i16(x + m) && fits_i16(2 * m) && fits_i16(
                        w - 2 * m,
                    ) {
                        match draw_stack(
                            tree,
                            sizes,
                            tree.children_of(node),
                            0,
                            true,
                            x + m,
                            y,
                            w - 2 * m,
                            h,
                            y + m,
                            m,
                            fuel,
                        ) {
                            Some(rest) => Some(
                                seq![DrawCommand::Rect { rect: Rect { point: area.point, extent: s }, color: p.color }]
                                    + rest,
                            ),
                            None => None,
                        }
                    } else {
                        None
                    },
                    None => None,
                }
            },
        }
    }
}

/// The commands that drawing the children `kids[i..]` produces, stacked
/// from `adv` downwards (`vertical`) or rightwards, `margin` apart, in the
/// area at `(x, y)` of `w` by `h` pixels.
pub open spec fn draw_stack(
    tree: &WidgetTree,
    sizes: Seq<Option<Extent>>,
    kids: Seq<Index>,
    i: int,
    vertical: bool,
    x: int,
    y: int,
    w: int,
    h: int,
    adv: int,
    margin: int,
    fuel: nat,
) -> Option<Seq<DrawCommand>>
    decreases fuel, 0int, kids.len() - i,
{
    if i < 0 || i >= kids.len() {
        Some(Seq::empty())
    } else if fuel == 0 {
        None
    } else {
        let c = kids[i].0 as int;
        let room = if vertical {
            h - adv
        } else {
            w - adv
        };
        if !fits_i16(room) {
            None
        } else {
            let rect = if vertical {
                rect_of(x, adv, w, room)
            } else {
                rect_of(adv, y, room, h)
            };
            match draw_node(tree, sizes, c, rect, (fuel - 1) as nat) {
                Some(sub) => match size_of(sizes, c) {
                    Some(s) => {
                        let step = if vertical {
                            s.height.0 as int
                        } else {
                            s.width.0 as int
                        };
                        if fits_i16(adv + step) && fits_i16(adv + step + margin) {
                            match draw_stack(
                                tree,
                                sizes,
                                kids,
                                i + 1,
                                vertical,
                                x,
                                y,
                                w,
                                h,
                                adv + step + margin,
                                margin,
                                fuel,
                            ) {
                                Some(rest) => Some(sub + rest),
                                None => None,
                            }
                        } else {
                            None
                        }
                    },
                    None => None,
                },
                None => None,
            }
        }
    }
}

/// In a row the children are drawn side by side from the row's left edge:
/// the first child in the area from the row's left edge rightwards, as high
/// as the row; the second one a margin past the first child's width. Their
/// commands come first, in that order.
pub proof fn lemma_row_placement(
    tree: &WidgetTree,
    sizes: Seq<Option<Extent>>,
    node: int,
    area: Rect,
    fuel: nat,
)
    requires
        0 <= node < tree.data().len(),
        tree.data()[node] is Row,
        tree.children_of(node).len() >= 1,
        draw_node(tree, sizes, node, area, fuel) is Some,
    ensures
        ({
            let x = area.point.x.0 as int;
            let y = area.point.y.0 as int;
            let w = area.extent.width.0 as int;
            let h = area.extent.height.0 as int;
            let all = draw_node(tree, sizes, node, area, fuel)->0;
            let kids = tree.children_of(node);
            let c0 = kids[0].0 as int;
            let first = draw_node(tree, sizes, c0, rect_of(x, y, w - x, h), (fuel - 1) as nat);
            &&& fuel > 0
            &&& first is Some
            &&& first->0.len() <= all.len()
            &&& all.subrange(0, first->0.len() as int) == first->0
            &&& kids.len() >= 2 ==> {
                let x1 = x + size_of(sizes, c0)->0.width.0 + tree.data()[node]->Row_0.margin.0;
                let second = draw_node(tree, sizes, kids[1].0 as int, rect_of(x1, y, w - x1, h), (fuel - 1) as nat);
                &&& size_of(sizes, c0) is Some
                &&& second is Some
                &&& first->0.len() + second->0.len() <= all.len()
                &&& all.subrange(0, (first->0.len() + second->0.len()) as int) == first->0 + second->0
            }
        }),
{
    reveal_with_fuel(draw_stack, 3);
    let all = draw_node(tree, sizes, node, area, fuel)->0;
    let kids = tree.children_of(node);
    let c0 = kids[0].0 as int;
    let x = area.point.x.0 as int;
    let y = area.point.y.0 as int;
    let w = area.extent.width.0 as int;
    let h = area.extent.height.0 as int;
    let first = draw_node(tree, sizes, c0, rect_of(x, y, w - x, h), (fuel - 1) as nat)->0;
    let m = tree.data()[node]->Row_0.margin.0 as int;
    let s0 = size_of(sizes, c0)->0;
    let rest1 = draw_stack(tree, sizes, kids, 1, false, x, y, w, h, x + s0.width.0 + m, m, fuel)->0;
    assert(all == first + rest1);
    assert(all.subrange(0, first.len() as int) =~= first);
    if kids.len() >= 2 {
        let x1 = x + s0.width.0 + m;
        let second = draw_node(tree, sizes, kids[1].0 as int, rect_of(x1, y, w - x1, h), (fuel - 1) as nat)->0;
        let s1 = size_of(sizes, kids[1].0 as int)->0;
        let rest2 = draw_stack(tree, sizes, kids, 2, false, x, y, w, h, x1 + s1.width.0 + m, m, fuel)->0;
        assert(rest1 == second + rest2);
        assert(all.subrange(0, (first.len() + second.len()) as int) =~= first + second);
    }
}

/// In a column the children are drawn one below the other from the
/// column's top edge: the first child in the area from the column's top
/// edge downwards, as wide as the column; the second one a margin below
/// the first child's height. Their commands come first, in that order.
pub proof fn lemma_column_placement(
    tree: &WidgetTree,
    sizes: Seq<Option<Extent>>,
    node: int,
    area: Rect,
    fuel: nat,
)
    requires
        0 <= node < tree.data().len(),
        tree.data()[node] is Column,
        tree.children_of(node).len() >= 1,
        draw_node(tree, sizes, node, area, fuel) is Some,
    ensures
        ({
            let x = area.point.x.0 as int;
            let y = area.point.y.0 as int;
            let w = area.extent.width.0 as int;
            let h = area.extent.height.0 as int;
            let all = draw_node(tree, sizes, node, area, fuel)->0;
            let kids = tree.children_of(node);
            let c0 = kids[0].0 as int;
            let first = draw_node(tree, sizes, c0, rect_of(x, y, w, h - y), (fuel - 1) as nat);
            &&& fuel > 0
            &&& first is Some
            &&& first->0.len() <= all.len()
            &&& all.subrange(0, first->0.len() as int) == first->0
            &&& kids.len() >= 2 ==> {
                let y1 = y + size_of(sizes, c0)->0.height.0 + tree.data()[node]->Column_0.margin.0;
                let second = draw_node(tree, sizes, kids[1].0 as int, rect_of(x, y1, w, h - y1), (fuel - 1) as nat);
                &&& size_of(sizes, c0) is Some
                &&& second is Some
                &&& first->0.len() + second->0.len() <= all.len()
                &&& all.subrange(0, (first->0.len() + second->0.len()) as int) == first->0 + second->0
            }
        }),
{
    reveal_with_fuel(draw_stack, 3);
    let all = draw_node(tree, sizes, node, area, fuel)->0;
    let kids = tree.children_of(node);
    let c0 = kids[0].0 as int;
    let x = area.point.x.0 as int;
    let y = area.point.y.0 as int;
    let w = area.extent.width.0 as int;
    let h = area.extent.height.0 as int;
    let first = draw_node(tree, sizes, c0, rect_of(x, y, w, h - y), (fuel - 1) as nat)->0;
    let m = tree.data()[node]->Column_0.margin.0 as int;
    let s0 = size_of(sizes, c0)->0;
    let rest1 = draw_stack(tree, sizes, kids, 1, true, x, y, w, h, y + s0.height.0 + m, m, fuel)->0;
    assert(all == first + rest1);
    assert(all.subrange(0, first.len() as int) =~= first);
    if kids.len() >= 2 {
        let y1 = y + s0.height.0 + m;
        let second = draw_node(tree, sizes, kids[1].0 as int, rect_of(x, y1, w, h - y1), (fuel - 1) as nat)->0;
        let s1 = size_of(sizes, kids[1].0 as int)->0;
        let rest2 = draw_stack(tree, sizes, kids, 2, true, x, y, w, h, y1 + s1.height.0 + m, m, fuel)->0;
        assert(rest1 == second + rest2);
        assert(all.subrange(0, (first.len() + second.len()) as int) =~= first + second);
    }
}

/// More fuel changes nothing once a node can be drawn.
pub proof fn lemma_draw_node_fuel(
    tree: &WidgetTree,
    sizes: Seq<Option<Extent>>,
    node: int,
    area: Rect,
    f1: nat,
    f2: nat,
)
    requires
        f1 <= f2,
        draw_node(tree, sizes, node, area, f1) is Some,
    ensures
        draw_node(tree, sizes, node, area, f2) == draw_node(tree, sizes, node, area, f1),
    decreases f1, 1int, 0int,
{
    let x = area.point.x.0 as int;
    let y = area.point.y.0 as int;
    let w = area.extent.width.0 as int;
    let h = area.extent.height.0 as int;
    match tree.data()[node] {
        Widget::Column(c) => {
            lemma_draw_stack_fuel(tree, sizes, tree.children_of(node), 0, true, x, y, w, h, y, c.margin.0 as int, f1, f2);
        },
        Widget::Row(r) => {
            lemma_draw_stack_fuel(tree, sizes, tree.children_of(node), 0, false, x, y, w, h, x, r.margin.0 as int, f1, f2);
        },
        Widget::Block(_) => {},
        Widget::Panel(p) => {
            let m = p.margin.0 as int;
            lemma_draw_stack_fuel(tree, sizes, tree.children_of(node), 0, true, x + m, y, w - 2 * m, h, y + m, m, f1, f2);
        },
    }
}

/// More fuel changes nothing once a stack of children can be drawn.
pub proof fn lemma_draw_stack_fuel(
    tree: &WidgetTree,
    sizes: Seq<Option<Extent>>,
    kids: Seq<Index>,
    i: int,
    vertical: bool,
    x: int,
    y: int,
    w: int,
    h: int,
    adv: int,
    margin: int,
    f1: nat,
    f2: nat,
)
    requires
        f1 <= f2,
        draw_stack(tree, sizes, kids, i, vertical, x, y, w, h, adv, margin, f1) is Some,
    ensures
        draw_stack(tree, sizes, kids, i, vertical, x, y, w, h, adv, margin, f2) == draw_stack(
            tree,
            sizes,
            kids,
            i,
            vertical,
            x,
            y,
            w,
            h,
            adv,
            margin,
            f1,
        ),
    decreases f1, 0int, kids.len() - i,
{
    if 0 <= i < kids.len() && f1 > 0 {
        let c = kids[i].0 as int;
        let room = if vertical {
            h - adv
        } else {
            w - adv
        };
        let rect = if vertical {
            rect_of(x, adv, w, room)
        } else {
            rect_of(adv, y, room, h)
        };
        lemma_draw_node_fuel(tree, sizes, c, rect, (f1 - 1) as nat, (f2 - 1) as nat);
        let s = size_of(sizes, c)->0;
        let step = if vertical {
            s.height.0 as int
        } else {
            s.width.0 as int
        };
        lemma_draw_stack_fuel(tree, sizes, kids, i + 1, vertical, x, y, w, h, adv + step + margin, margin, f1, f2);
    }
}

/// What the commands of drawing a tree are: the same for every depth bound
/// that lets the tree be drawn.
pub open spec fn drawable(tree: &WidgetTree, sizes: Seq<Option<Extent>>, root: Index, area: Extent) -> bool {
    exists|fuel: nat| #[trigger] draw_node(tree, sizes, root.0 as int, Rect { point: Point { x: Px(0), y: Px(0) }, extent: area }, fuel) is Some
}

/// Walks the widget tree, writing the commands that draw it.
struct State<'a> {
    tree: &'a WidgetTree,
    sizes: &'a [Option<Extent>],
}

impl<'a> State<'a> {
    fn visit(&self, commands: &mut Vec<DrawCommand>, index: Index, area: Rect, Ghost(fuel): Ghost<nat>)
        requires
            self.tree.wf(),
            draw_node(self.tree, self.sizes@, index.0 as int, area, fuel) is Some,
        ensures
            final(commands)@ == old(commands)@ + draw_node(self.tree, self.sizes@, index.0 as int, area, fuel)->0,
        decreases fuel, 2int,
    {
        match self.tree.get(index) {
            Widget::Column(column) => self.visit_column(commands, index, column, area, Ghost(fuel)),
            Widget::Row(row) => self.visit_row(commands, index, row, area, Ghost(fuel)),
            Widget::Panel(panel) => self.visit_panel(commands, index, panel, area, Ghost(fuel)),
            Widget::Block(block) => self.visit_block(commands, index, block, area, Ghost(fuel)),
        }
    }

    fn visit_column(&self, commands: &mut Vec<DrawCommand>, index: Index, column: &Column, area: Rect, Ghost(fuel): Ghost<nat>)
        requires
            self.tree.wf(),
            index.0 < self.tree.data().len(),
            self.tree.data()[index.0 as int] == Widget::Column(*column),
            draw_node(self.tree, self.sizes@, index.0 as int, area, fuel) is Some,
        ensures
            final(commands)@ == old(commands)@ + draw_node(self.tree, self.sizes@, index.0 as int, area, fuel)->0,
        decreases fuel, 1int,
    {
        let kids = self.tree.children(index);
        self.visit_children(commands, &kids, true, area.x(), area.y(), area.width(), area.height(), area.y(), column.margin, Ghost(fuel));
    }

    fn visit_row(&self, commands: &mut Vec<DrawCommand>, index: Index, row: &Row, area: Rect, Ghost(fuel): Ghost<nat>)
        requires
            self.tree.wf(),
            index.0 < self.tree.data().len(),
            self.tree.data()[index.0 as int] == Widget::Row(*row),
            draw_node(self.tree, self.sizes@, index.0 as int, area, fuel) is Some,
        ensures
            final(commands)@ == old(commands)@ + draw_node(self.tree, self.sizes@, index.0 as int, area, fuel)->0,
        decreases fuel, 1int,
    {
        let kids = self.tree.children(index);
        self.visit_children(commands, &kids, false, area.x(), area.y(), area.width(), area.height(), area.x(), row.margin, Ghost(fuel));
    }

    fn visit_block(&self, commands: &mut Vec<DrawCommand>, index: Index, block: &Block, area: Rect, Ghost(fuel): Ghost<nat>)
        requires
            index.0 < self.tree.data().len(),
            self.tree.data()[index.0 as int] == Widget::Block(*block),
            draw_node(self.tree, self.sizes@, index.0 as int, area, fuel) is Some,
        ensures
            final(commands)@ == old(commands)@ + draw_node(self.tree, self.sizes@, index.0 as int, area, fuel)->0,
        decreases fuel, 1int,
    {
        let size = match self.sizes[index.get()] {
            Some(size) => size,
            None => vstd::pervasive::unreached(),
        };
        commands.push(DrawCommand::Rect { rect: Rect::from_extent(area.x(), area.y(), size), color: block.color });
        proof {
            assert(area == Rect { point: area.point, extent: area.extent });
        }
    }

    fn visit_panel(&self, commands: &mut Vec<DrawCommand>, index: Index, panel: &Panel, area: Rect, Ghost(fuel): Ghost<nat>)
        requires
            self.tree.wf(),
            index.0 < self.tree.data().len(),
            self.tree.data()[index.0 as int] == Widget::Panel(*panel),
            draw_node(self.tree, self.sizes@, index.0 as int, area, fuel) is Some,
        ensures
            final(commands)@ == old(commands)@ + draw_node(self.tree, self.sizes@, index.0 as int, area, fuel)->0,
        decreases fuel, 1int,
    {
        let size = match self.sizes[index.get()] {
            Some(size) => size,
            None => vstd::pervasive::unreached(),
        };
        commands.push(DrawCommand::Rect { rect: Rect::from_extent(area.x(), area.y(), size), color: panel.color });
        let m = panel.margin.0;
        let kids = self.tree.children(index);
        self.visit_children(
            commands,
            &kids,
            true,
            Px(area.x().0 + m),
            area.y(),
            Px(area.width().0 - 2 * m),
            area.height(),
            Px(area.y().0 + m),
            panel.margin,
            Ghost(fuel),
        );
        proof {
            assert(commands@ =~= old(commands)@ + draw_node(self.tree, self.sizes@, index.0 as int, area, fuel)->0);
        }
    }

    /// Draws the children `kids`, stacked from `start` downwards or
    /// rightwards, `margin` apart, in the area at `(x, y)` of `w` by `h`.
    fn visit_children(
        &self,
        commands: &mut Vec<DrawCommand>,
        kids: &Vec<Index>,
        vertical: bool,
        x: Px,
        y: Px,
        w: Px,
        h: Px,
        start: Px,
        margin: Px,
        Ghost(fuel): Ghost<nat>,
    )
        requires
            self.tree.wf(),
            draw_stack(self.tree, self.sizes@, kids@, 0, vertical, x.0 as int, y.0 as int, w.0 as int, h.0 as int, start.0 as int, margin.0 as int, fuel) is Some,
        ensures
            final(commands)@ == old(commands)@ + draw_stack(self.tree, self.sizes@, kids@, 0, vertical, x.0 as int, y.0 as int, w.0 as int, h.0 as int, start.0 as int, margin.0 as int, fuel)->0,
        decreases fuel, 0int,
    {
        let ghost target = old(commands)@ + draw_stack(self.tree, self.sizes@, kids@, 0, vertical, x.0 as int, y.0 as int, w.0 as int, h.0 as int, start.0 as int, margin.0 as int, fuel)->0;
        let mut adv: i16 = start.0;
        let mut i: usize = 0;
        while i < kids.len()
            invariant
                self.tree.wf(),
                0 <= i <= kids@.len(),
                draw_stack(self.tree, self.sizes@, kids@, i as int, vertical, x.0 as int, y.0 as int, w.0 as int, h.0 as int, adv as int, margin.0 as int, fuel) is Some,
                commands@ + draw_stack(self.tree, self.sizes@, kids@, i as int, vertical, x.0 as int, y.0 as int, w.0 as int, h.0 as int, adv as int, margin.0 as int, fuel)->0 == target,
            decreases kids@.len() - i,
        {
            let child = kids[i];
            let rect = if vertical {
                Rect::new(x, Px(adv), w, Px(h.0 - adv))
            } else {
                Rect::new(Px(adv), y, Px(w.0 - adv), h)
            };
            let ghost before = commands@;
            proof {
                assert(rect == if vertical {
                    rect_of(x.0 as int, adv as int, w.0 as int, h.0 - adv)
                } else {
                    rect_of(adv as int, y.0 as int, w.0 - adv, h.0 as int)
                });
            }
            self.visit(commands, child, rect, Ghost((fuel - 1) as nat));
            let size = match self.sizes[child.get()] {
                Some(size) => size,
                None => vstd::pervasive::unreached(),
            };
            let step = if vertical {
                size.height.0
            } else {
                size.width.0
            };
            adv = adv + step;
            adv = adv + margin.0;
            proof {
                let sub = draw_node(self.tree, self.sizes@, child.0 as int, rect, (fuel - 1) as nat)->0;
                let next = draw_stack(self.tree, self.sizes@, kids@, i as int + 1, vertical, x.0 as int, y.0 as int, w.0 as int, h.0 as int, adv as int, margin.0 as int, fuel)->0;
                assert(before + (sub + next) =~= (before + sub) + next);
            }
            i = i + 1;
        }
        proof {
            assert(commands@ + Seq::<DrawCommand>::empty() =~= commands@);
        }
    }
}

/// Writes to `commands` the commands that draw the tree under `root`, laid
/// out with `sizes` (one per node), in the area of `area` at the origin.
/// The tree must be drawable: every node and size present, every coordinate
/// within `i16`, and no node its own descendant.
pub fn build_draw_commands(
    tree: &WidgetTree,
    root: Index,
    sizes: &[Option<Extent>],
    area: Extent,
    commands: &mut Vec<DrawCommand>,
)
    requires
        tree.wf(),
        drawable(tree, sizes@, root, area),
    ensures
        forall|fuel: nat|
            #[trigger] draw_node(tree, sizes@, root.0 as int, Rect { point: Point { x: Px(0), y: Px(0) }, extent: area }, fuel) matches Some(s)
                ==> final(commands)@ == old(commands)@ + s,
{
    let area_rect = Rect::from_extent(Px(0), Px(0), area);
    let ghost fuel = choose|fuel: nat| #[trigger] draw_node(tree, sizes@, root.0 as int, area_rect, fuel) is Some;
    let state = State { tree, sizes };
    state.visit(commands, root, area_rect, Ghost(fuel));
    proof {
        assert forall|f: nat| #[trigger] draw_node(tree, sizes@, root.0 as int, area_rect, f) is Some implies commands@
            == old(commands)@ + draw_node(tree, sizes@, root.0 as int, area_rect, f)->0 by {
            if f <= fuel {
                lemma_draw_node_fuel(tree, sizes@, root.0 as int, area_rect, f, fuel);
            } else {
                lemma_draw_node_fuel(tree, sizes@, root.0 as int, area_rect, fuel, f);
            }
        }
    }
}

} // verus!
