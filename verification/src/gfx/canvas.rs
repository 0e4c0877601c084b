//! Collects the triangles of the shapes drawn in a frame: a list of vertices
//! and a list of `u16` indices into it, three per triangle.
use super::color::Color;
use crate::shapes::{Extent, Point, Rect};
use vstd::prelude::*;

verus! {

/// A corner of a drawn triangle: its position in pixels and its color. The
/// renderer turns the position into floats when it uploads the vertex.
#[derive(Clone, Copy, Debug, PartialEq, Eq, Structural)]
pub struct Vertex {
    pub position: Point,
    pub color: Color,
}

/// The buffers that a [`Canvas`] fills; kept between frames so that their
/// memory is reused.
pub struct CanvasStorage {
    vertices: Vec<Vertex>,
    indices: Vec<u16>,
}

impl CanvasStorage {
    /// The vertices drawn so far.
    pub closed spec fn spec_vertices(&self) -> Seq<Vertex> {
        self.vertices@
    }

    /// The indices drawn so far.
    pub closed spec fn spec_indices(&self) -> Seq<u16> {
        self.indices@
    }

    pub fn new() -> (r: Self)
        ensures
            r.spec_vertices() == Seq::<Vertex>::empty(),
            r.spec_indices() == Seq::<u16>::empty(),
    {
        CanvasStorage { vertices: Vec::new(), indices: Vec::new() }
    }
}

impl Default for CanvasStorage {
    fn default() -> (r: Self)
        ensures
            r.spec_vertices() == Seq::<Vertex>::empty(),
            r.spec_indices() == Seq::<u16>::empty(),
    {
        CanvasStorage::new()
    }
}

/// A frame's drawing surface of a given size, writing into a
/// [`CanvasStorage`].
pub struct Canvas<'a> {
    size: Extent,
    storage: &'a mut CanvasStorage,
}

impl<'a> Canvas<'a> {
    /// The size of the canvas.
    pub closed spec fn spec_size(&self) -> Extent {
        self.size
    }

    /// The vertices drawn so far.
    pub closed spec fn spec_vertices(&self) -> Seq<Vertex> {
        self.storage.vertices@
    }

    /// The indices drawn so far.
    pub closed spec fn spec_indices(&self) -> Seq<u16> {
        self.storage.indices@
    }

    /// A canvas of `size` over `storage`, which is emptied first.
    pub fn new(size: Extent, storage: &'a mut CanvasStorage) -> (r: Self)
        ensures
            r.spec_size() == size,
            r.spec_vertices() == Seq::<Vertex>::empty(),
            r.spec_indices() == Seq::<u16>::empty(),
    {
        storage.vertices.clear();
        storage.indices.clear();
        Canvas { size, storage }
    }

    /// Removes everything drawn.
    pub fn clear(&mut self)
        ensures
            final(self).spec_size() == old(self).spec_size(),
            final(self).spec_vertices() == Seq::<Vertex>::empty(),
            final(self).spec_indices() == Seq::<u16>::empty(),
    {
        self.storage.vertices.clear();
        self.storage.indices.clear();
    }

    pub fn size(&self) -> (r: Extent)
        ensures
            r == self.spec_size(),
    {
        self.size
    }

    pub fn vertices(&self) -> (r: &[Vertex])
        ensures
            r@ == self.spec_vertices(),
    {
        self.storage.vertices.as_slice()
    }

    pub fn indices(&self) -> (r: &[u16])
        ensures
            r@ == self.spec_indices(),
    {
        self.storage.indices.as_slice()
    }
}

/// Something that can be drawn on.
pub trait Draw<T> {
    fn draw(&mut self, shape: &T);
}

/// Something that can be drawn on in a color.
pub trait DrawStyled<T> {
    /// Whether `shape` can be drawn: its triangles' indices must fit.
    spec fn can_draw(&self, shape: &T) -> bool;

    fn draw_styled(&mut self, shape: &T, color: Color)
        requires
            old(self).can_draw(shape),
    ;
}

/// The vertices of a rectangle in a color: its corners in the order of
/// [`Rect::points`].
pub open spec fn rect_vertices(shape: Rect, color: Color) -> Seq<Vertex> {
    seq![
        Vertex { position: shape.point, color },
        Vertex { position: Point { x: shape.point.x, y: crate::px::Px(shape.bottom_int() as i16) }, color },
        Vertex { position: Point { x: crate::px::Px(shape.right_int() as i16), y: crate::px::Px(shape.bottom_int() as i16) }, color },
        Vertex { position: Point { x: crate::px::Px(shape.right_int() as i16), y: shape.point.y }, color },
    ]
}

/// The indices of a rectangle's two triangles, for corners stored from
/// `offset` on.
pub open spec fn rect_indices(offset: u16) -> Seq<u16> {
    seq![offset, (offset + 1) as u16, (offset + 2) as u16, offset, (offset + 2) as u16, (offset + 3) as u16]
}

impl<'a> DrawStyled<Rect> for Canvas<'a> {
    /// The rectangle's edges fit in `i16`, and the index of its last corner
    /// fits in `u16` (the vertex count is taken modulo 2^16).
    open spec fn can_draw(&self, shape: &Rect) -> bool {
        &&& shape.edges_fit()
        &&& (self.spec_vertices().len() as u16) + 3 <= u16::MAX
    }

    /// Appends the four corners of `shape` and the six indices of its two
    /// triangles.
    fn draw_styled(&mut self, shape: &Rect, color: Color)
        ensures
            final(self).spec_size() == old(self).spec_size(),
            final(self).spec_vertices() == old(self).spec_vertices() + rect_vertices(*shape, color),
            final(self).spec_indices() == old(self).spec_indices() + rect_indices(
                old(self).spec_vertices().len() as u16,
            ),
    {
        #[verifier::truncate]
        let offset = self.storage.vertices.len() as u16;
        let points = shape.points();
        let mut i: usize = 0;
        while i < 4
            invariant
                0 <= i <= 4,
                self.size == old(self).size,
                self.storage.vertices@ == old(self).storage.vertices@ + rect_vertices(*shape, color).take(i as int),
                self.storage.indices@ == old(self).storage.indices@,
                points[0] == shape.point,
                points[1].x == shape.point.x && points[1].y.0 == shape.bottom_int(),
                points[2].x.0 == shape.right_int() && points[2].y.0 == shape.bottom_int(),
                points[3].x.0 == shape.right_int() && points[3].y == shape.point.y,
            decreases 4 - i,
        {
            self.storage.vertices.push(Vertex { position: points[i], color });
            proof {
                assert(rect_vertices(*shape, color).take(i as int + 1) =~= rect_vertices(*shape, color).take(i as int).push(
                    Vertex { position: points[i as int], color },
                ));
            }
            i = i + 1;
        }
        assert(rect_vertices(*shape, color).take(4) =~= rect_vertices(*shape, color));
        let mut j: usize = 0;
        while j < 6
            invariant
                0 <= j <= 6,
                self.size == old(self).size,
                self.storage.vertices@ == old(self).storage.vertices@ + rect_vertices(*shape, color),
                self.storage.indices@ == old(self).storage.indices@ + rect_indices(offset).take(j as int),
                offset == old(self).storage.vertices@.len() as u16,
                offset + 3 <= u16::MAX,
            decreases 6 - j,
        {
            let index = Rect::INDICES[j];
            assert(index <= 3) by {
                assert(Rect::INDICES@ == seq![0u16, 1, 2, 0, 2, 3]);
            }
            self.storage.indices.push(offset + index);
            proof {
                assert(Rect::INDICES@ == seq![0u16, 1, 2, 0, 2, 3]);
                assert(rect_indices(offset).take(j as int + 1) =~= rect_indices(offset).take(j as int).push(
                    (offset + index) as u16,
                ));
            }
            j = j + 1;
        }
        assert(rect_indices(offset).take(6) =~= rect_indices(offset));
    }
}

} // verus!
