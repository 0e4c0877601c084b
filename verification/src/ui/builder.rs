//! Builds a widget tree from nested scopes. Opening a scope starts a widget;
//! the widgets opened inside it, once ended, become its children; ending the
//! scope adds the widget to the tree with those children, and the widget
//! becomes a child of the enclosing scope. [`WidgetTreeBuilder::build`] adds
//! a black root panel holding the widgets ended at the top.
use super::tree::{Index, Tree};
use super::widgets::{Block, Column, Panel, Widget, WidgetTree};
use crate::gfx::color::Color;
use crate::px::Px;
use crate::shapes::Extent;
use vstd::prelude::*;

verus! {

/// The black panel at the root of every built tree.
pub open spec fn root_panel() -> Widget {
    Widget::Panel(
        Panel {
            color: Color { r: 0, g: 0, b: 0, a: 255 },
            margin: Px(0),
            min_extent: Extent { width: Px(0), height: Px(0) },
            max_extent: Extent { width: Px(i16::MAX), height: Px(i16::MAX) },
        },
    )
}

/// Collects the widgets of a tree, children before parents.
pub struct WidgetTreeBuilder {
    tree: WidgetTree,
    children_stack: Vec<Index>,
}

impl WidgetTreeBuilder {
    /// The tree built so far.
    pub closed spec fn spec_tree(&self) -> WidgetTree {
        self.tree
    }

    /// The widgets ended and not yet given a parent, oldest first.
    pub closed spec fn spec_stack(&self) -> Seq<Index> {
        self.children_stack@
    }

    pub fn new() -> (r: Self)
        ensures
            r.spec_tree().wf(),
            r.spec_tree().data().len() == 0,
            r.spec_tree().children_starts().len() == 0,
            r.spec_tree().children_array() == seq![0u16],
            r.spec_stack() == Seq::<Index>::empty(),
    {
        WidgetTreeBuilder { tree: Tree::new(), children_stack: Vec::new() }
    }

    /// Adds the root panel, whose children are the widgets ended at the top,
    /// and returns the tree and the root's index. None of those widgets may
    /// already be a child in the tree.
    pub fn build(self) -> (r: (WidgetTree, Index))
        requires
            self.spec_tree().wf(),
            self.spec_tree().can_add(self.spec_stack().len()),
            !self.spec_tree().any_has_parent(self.spec_stack()),
        ensures
            r.0.wf(),
            self.spec_tree().added(r.0, root_panel(), self.spec_stack()),
            r.1 == Index(self.spec_tree().data().len() as u16),
    {
        let mut tree = self.tree;
        let root = Widget::Panel(Panel::new(Color::rgb(0, 0, 0), Px(0), None, None));
        assert(root == root_panel());
        match tree.add(root, self.children_stack.as_slice()) {
            Ok(index) => (tree, index),
            Err(_) => vstd::pervasive::unreached(),
        }
    }

    /// Opens a scope for a column of children `margin` apart.
    pub fn layout_columns(&mut self, margin: Px) -> (r: WidgetBuilderScope<'_>)
        ensures
            r.widget == Widget::Column(Column { margin }),
            *r.tree == old(self).spec_tree(),
            r.children_stack@ == old(self).spec_stack(),
            r.children_start == old(self).spec_stack().len(),
            final(self).spec_tree() == *final(r.tree),
            final(self).spec_stack() == final(r.children_stack)@,
    {
        self.new_child(Widget::Column(Column { margin }))
    }

    /// Opens a scope for a panel; see [`Panel::new`].
    pub fn panel(&mut self, color: Color, margin: Px, min_extent: Option<Extent>, max_extent: Option<Extent>) -> (r:
        WidgetBuilderScope<'_>)
        ensures
            r.widget matches Widget::Panel(p) && p.color == color && p.margin == margin && p.min_extent == match min_extent {
                Some(min) => min,
                None => Extent { width: Px(0), height: Px(0) },
            } && p.max_extent == match max_extent {
                Some(max) => max,
                None => Extent { width: Px(i16::MAX), height: Px(i16::MAX) },
            },
            *r.tree == old(self).spec_tree(),
            r.children_stack@ == old(self).spec_stack(),
            r.children_start == old(self).spec_stack().len(),
            final(self).spec_tree() == *final(r.tree),
            final(self).spec_stack() == final(r.children_stack)@,
    {
        self.new_child(Widget::Panel(Panel::new(color, margin, min_extent, max_extent)))
    }

    fn new_child(&mut self, widget: Widget) -> (r: WidgetBuilderScope<'_>)
        ensures
            r.widget == widget,
            *r.tree == old(self).spec_tree(),
            r.children_stack@ == old(self).spec_stack(),
            r.children_start == old(self).spec_stack().len(),
            final(self).spec_tree() == *final(r.tree),
            final(self).spec_stack() == final(r.children_stack)@,
    {
        let children_start = self.children_stack.len();
        WidgetBuilderScope {
            widget,
            tree: &mut self.tree,
            children_stack: &mut self.children_stack,
            children_start,
        }
    }
}

/// An open scope: the widget it stands for, the tree and stack it writes
/// to, and where its children start on the stack.
pub struct WidgetBuilderScope<'a> {
    pub widget: Widget,
    pub tree: &'a mut WidgetTree,
    pub children_stack: &'a mut Vec<Index>,
    pub children_start: usize,
}

impl<'a> WidgetBuilderScope<'a> {
    /// Opens a scope for a block of `size_hint` between `min_size` (zero if
    /// absent) and `max_size` (the largest extent if absent).
    pub fn block(&mut self, color: Color, size_hint: Extent, min_size: Option<Extent>, max_size: Option<Extent>) -> (r:
        WidgetBuilderScope<'_>)
        ensures
            r.widget == Widget::Block(
                Block {
                    color,
                    size: size_hint,
                    min_size: match min_size {
                        Some(min) => min,
                        None => Extent { width: Px(0), height: Px(0) },
                    },
                    max_size: match max_size {
                        Some(max) => max,
                        None => Extent { width: Px(i16::MAX), height: Px(i16::MAX) },
                    },
                },
            ),
            *r.tree == *old(self).tree,
            r.children_stack@ == old(self).children_stack@,
            r.children_start == old(self).children_stack@.len(),
            *final(self).tree == *final(r.tree),
            final(self).children_stack@ == final(r.children_stack)@,
            *final(final(self).tree) == *final(old(self).tree),
            final(final(self).children_stack)@ == final(old(self).children_stack)@,
            final(self).widget == old(self).widget,
            final(self).children_start == old(self).children_start,
    {
        let min_size = if let Some(min) = min_size {
            min
        } else {
            Extent::new(Px(0), Px(0))
        };
        let max_size = if let Some(max) = max_size {
            max
        } else {
            Extent::max_value()
        };
        self.new_child(Widget::Block(Block { color, size: size_hint, min_size, max_size }))
    }

    /// Opens a scope for a column of children `margin` apart.
    pub fn layout_columns(&mut self, margin: Px) -> (r: WidgetBuilderScope<'_>)
        ensures
            r.widget == Widget::Column(Column { margin }),
            *r.tree == *old(self).tree,
            r.children_stack@ == old(self).children_stack@,
            r.children_start == old(self).children_stack@.len(),
            *final(self).tree == *final(r.tree),
            final(self).children_stack@ == final(r.children_stack)@,
            *final(final(self).tree) == *final(old(self).tree),
            final(final(self).children_stack)@ == final(old(self).children_stack)@,
            final(self).widget == old(self).widget,
            final(self).children_start == old(self).children_start,
    {
        self.new_child(Widget::Column(Column { margin }))
    }

    /// Opens a scope for a panel; see [`Panel::new`].
    pub fn panel(&mut self, color: Color, margin: Px, min_extent: Option<Extent>, max_extent: Option<Extent>) -> (r:
        WidgetBuilderScope<'_>)
        ensures
            r.widget matches Widget::Panel(p) && p.color == color && p.margin == margin && p.min_extent == match min_extent {
                Some(min) => min,
                None => Extent { width: Px(0), height: Px(0) },
            } && p.max_extent == match max_extent {
                Some(max) => max,
                None => Extent { width: Px(i16::MAX), height: Px(i16::MAX) },
            },
            *r.tree == *old(self).tree,
            r.children_stack@ == old(self).children_stack@,
            r.children_start == old(self).children_stack@.len(),
            *final(self).tree == *final(r.tree),
            final(self).children_stack@ == final(r.children_stack)@,
            *final(final(self).tree) == *final(old(self).tree),
            final(final(self).children_stack)@ == final(old(self).children_stack)@,
            final(self).widget == old(self).widget,
            final(self).children_start == old(self).children_start,
    {
        self.new_child(Widget::Panel(Panel::new(color, margin, min_extent, max_extent)))
    }

    /// Opens a scope for a panel of exactly `size`.
    pub fn panel_fixed(&mut self, color: Color, margin: Px, size: Extent) -> (r: WidgetBuilderScope<'_>)
        ensures
            r.widget == Widget::Panel(Panel { color, margin, min_extent: size, max_extent: size }),
            *r.tree == *old(self).tree,
            r.children_stack@ == old(self).children_stack@,
            r.children_start == old(self).children_stack@.len(),
            *final(self).tree == *final(r.tree),
            final(self).children_stack@ == final(r.children_stack)@,
            *final(final(self).tree) == *final(old(self).tree),
            final(final(self).children_stack)@ == final(old(self).children_stack)@,
            final(self).widget == old(self).widget,
            final(self).children_start == old(self).children_start,
    {
        self.new_child(Widget::Panel(Panel::fixed_size(color, margin, size)))
    }

    fn new_child(&mut self, widget: Widget) -> (r: WidgetBuilderScope<'_>)
        ensures
            r.widget == widget,
            *r.tree == *old(self).tree,
            r.children_stack@ == old(self).children_stack@,
            r.children_start == old(self).children_stack@.len(),
            *final(self).tree == *final(r.tree),
            final(self).children_stack@ == final(r.children_stack)@,
            *final(final(self).tree) == *final(old(self).tree),
            final(final(self).children_stack)@ == final(old(self).children_stack)@,
            final(self).widget == old(self).widget,
            final(self).children_start == old(self).children_start,
    {
        let children_start = self.children_stack.len();
        WidgetBuilderScope {
            widget,
            tree: &mut *self.tree,
            children_stack: &mut *self.children_stack,
            children_start,
        }
    }

    /// Closes the scope: adds its widget to the tree, with the widgets
    /// ended inside it as children, and leaves the new widget on the stack
    /// in their place. None of those widgets may already be a child in the
    /// tree.
    pub fn end(self)
        requires
            old(self.tree).wf(),
            self.children_start <= old(self.children_stack)@.len(),
            old(self.tree).can_add((old(self.children_stack)@.len() - self.children_start) as nat),
            !old(self.tree).any_has_parent(
                old(self.children_stack)@.subrange(self.children_start as int, old(self.children_stack)@.len() as int),
            ),
        ensures
            final(self.tree).wf(),
            old(self.tree).added(
                *final(self.tree),
                self.widget,
                old(self.children_stack)@.subrange(self.children_start as int, old(self.children_stack)@.len() as int),
            ),
            final(self.children_stack)@ == old(self.children_stack)@.subrange(0, self.children_start as int).push(
                Index(old(self.tree).data().len() as u16),
            ),
    {
        let len = self.children_stack.len();
        let children = vstd::slice::slice_subrange(self.children_stack.as_slice(), self.children_start, len);
        match self.tree.add(self.widget, children) {
            Ok(index) => {
                self.children_stack.truncate(self.children_start);
                self.children_stack.push(index);
            },
            Err(_) => vstd::pervasive::unreached(),
        }
    }
}

} // verus!
