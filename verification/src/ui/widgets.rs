//! The widgets of a widget tree.
use crate::gfx::color::Color;
use crate::px::Px;
use crate::shapes::Extent;
use super::tree::Tree;
use vstd::prelude::*;

verus! {

/// A widget of the tree.
#[derive(Clone, Debug)]
pub enum Widget {
    Column(Column),
    Row(Row),
    Panel(Panel),
    Block(Block),
}

/// A tree of widgets.
pub type WidgetTree = Tree<Widget>;

/// The [`Block`] widget is a simple solid-colored rectangle. Useful for
/// blocking out user interfaces or testing new layouts.
///
/// It can be given a strict size, a preferred size, or a preferred size within
/// a size range.
#[derive(Clone, Debug)]
pub struct Block {
    pub color: Color,
    pub max_size: Extent,
    pub min_size: Extent,
    pub size: Extent,
}

/// The [`Column`] widget defines a column-based layout, where each child is
/// placed below the previous one separated by a user-defined margin. The
/// dimensions of the column is the smaller of the area allocated to it by its
/// parent, and the smallest bounds that enclose its children.
#[derive(Clone, Debug)]
pub struct Column {
    pub margin: Px,
}

/// The [`Row`] widget places each child to the right of the previous one,
/// separated by a margin.
#[derive(Clone, Debug)]
pub struct Row {
    pub margin: Px,
}

/// A [`Panel`] widget is a flexibly-sized container for child widgets with a
/// `margin`-pixel gap on every side.
///
/// Child widgets are placed vertically from top to bottom, with that same
/// `margin`-pixel gap between each.
#[derive(Clone, Debug)]
pub struct Panel {
    pub color: Color,
    pub margin: Px,
    pub min_extent: Extent,
    pub max_extent: Extent,
}

impl Panel {
    /// A panel whose size lies between `min_extent` (zero if absent) and
    /// `max_extent` (the largest extent if absent).
    pub fn new(color: Color, margin: Px, min_extent: Option<Extent>, max_extent: Option<Extent>) -> (r: Self)
        ensures
            r.color == color,
            r.margin == margin,
            r.min_extent == match min_extent {
                Some(min) => min,
                None => Extent { width: Px(0), height: Px(0) },
            },
            r.max_extent == match max_extent {
                Some(max) => max,
                None => Extent { width: Px(i16::MAX), height: Px(i16::MAX) },
            },
    {
        Self {
            color,
            margin,
            min_extent: if let Some(min) = min_extent {
                min
            } else {
                Extent::new(Px(0), Px(0))
            },
            max_extent: if let Some(max) = max_extent {
                max
            } else {
                Extent::max_value()
            },
        }
    }

    /// A panel of exactly `size`.
    pub fn fixed_size(color: Color, margin: Px, size: Extent) -> (r: Self)
        ensures
            r.color == color,
            r.margin == margin,
            r.min_extent == size,
            r.max_extent == size,
    {
        Self { color, margin, min_extent: size, max_extent: size }
    }
}

} // verus!
