//! Line layers: point data interleaved for the device, and what a frame draws.

use crate::buffer::{allows_copies, planned_extension, Extension, GpuBuffer};
use vstd::layout::size_of;
use vstd::prelude::*;

verus! {

/// Usage flags of a line's point buffer: storage that the vertex stage reads,
/// and both directions of device-side copies.
pub const LINE_USAGE: u32 = 0x8c;

/// Number of vertices that the triangle strip of a thickened line takes per point.
pub const VERTICES_PER_POINT: u32 = 2;

/// The union of `wgpu::BufferUsages::STORAGE`, `COPY_DST` and `COPY_SRC`, as
/// bits. The graphics crate declares them as bits 7, 3 and 2.
#[verifier::external_body]
fn line_usage() -> (usage: u32)
    ensures
        usage == LINE_USAGE,
{
    let storage = vello::wgpu::BufferUsages::STORAGE;
    (storage | vello::wgpu::BufferUsages::COPY_DST | vello::wgpu::BufferUsages::COPY_SRC).bits()
}

/// The coordinates of points in buffer order: `x0, y0, x1, y1, ...`.
pub open spec fn interleave<T>(xs: Seq<T>, ys: Seq<T>) -> Seq<T>
    recommends
        xs.len() == ys.len(),
{
    Seq::new(
        2 * xs.len(),
        |i: int|
            if i % 2 == 0 {
                xs[i / 2]
            } else {
                ys[i / 2]
            },
    )
}

/// The points with the given coordinates.
pub open spec fn paired<T>(xs: Seq<T>, ys: Seq<T>) -> Seq<(T, T)>
    recommends
        xs.len() == ys.len(),
{
    Seq::new(xs.len(), |i: int| (xs[i], ys[i]))
}

/// The points that interleaved coordinates stand for.
pub open spec fn points_of<T>(data: Seq<T>) -> Seq<(T, T)>
    recommends
        data.len() % 2 == 0,
{
    Seq::new(data.len() / 2, |i: int| (data[2 * i], data[2 * i + 1]))
}

/// Interleaving loses nothing: the points of interleaved coordinates are the
/// points that were given.
pub proof fn lemma_points_of_interleave<T>(xs: Seq<T>, ys: Seq<T>)
    requires
        xs.len() == ys.len(),
    ensures
        points_of(interleave(xs, ys)) == paired(xs, ys),
{
    assert(points_of(interleave(xs, ys)) =~= paired(xs, ys));
}

/// Appending interleaved coordinates appends their points.
pub proof fn lemma_points_of_concat<T>(data: Seq<T>, more: Seq<T>)
    requires
        data.len() % 2 == 0,
        more.len() % 2 == 0,
    ensures
        points_of(data + more) == points_of(data) + points_of(more),
{
    assert(points_of(data + more) =~= points_of(data) + points_of(more));
}

/// Writes the coordinates of points in buffer order.
pub fn interleaved<T: Copy>(xs: &[T], ys: &[T]) -> (data: Vec<T>)
    requires
        xs@.len() == ys@.len(),
        2 * xs@.len() <= usize::MAX,
    ensures
        data@ == interleave(xs@, ys@),
{
    let count = xs.len();
    let mut data: Vec<T> = Vec::new();
    let mut i: usize = 0;
    while i < count
        invariant
            count == xs@.len(),
            count == ys@.len(),
            i <= count,
            data@.len() == 2 * i,
            forall|j: int| 0 <= j < 2 * i ==> data@[j] == #[trigger] interleave(xs@, ys@)[j],
        decreases count - i,
    {
        data.push(xs[i]);
        data.push(ys[i]);
        i = i + 1;
    }
    assert(data@ =~= interleave(xs@, ys@));
    data
}

/// New elements on their way into a buffer, with the device work that puts
/// them there.
pub struct Staged<T> {
    /// The elements to write to the start of the staging buffer.
    pub data: Vec<T>,
    /// The allocations and copies to encode.
    pub work: Extension,
}

/// A polyline: its points in a device buffer, and its thickness.
pub struct Line<T> {
    buffer: GpuBuffer<T>,
    thickness: T,
}

impl<T> View for Line<T> {
    type V = Seq<(T, T)>;

    /// The points of the line, first to last.
    open spec fn view(&self) -> Seq<(T, T)> {
        points_of(self.spec_buffer()@)
    }
}

impl<T> Line<T> {
    /// The buffer that holds the interleaved coordinates.
    pub closed spec fn spec_buffer(&self) -> GpuBuffer<T> {
        self.buffer
    }

    /// The thickness that the line is drawn with.
    pub closed spec fn spec_thickness(&self) -> T {
        self.thickness
    }

    /// The invariant: the buffer is well formed, has the usage of a point
    /// buffer and holds whole points.
    pub open spec fn wf(&self) -> bool {
        &&& self.spec_buffer().wf()
        &&& self.spec_buffer().spec_usage() == LINE_USAGE
        &&& self.spec_buffer()@.len() % 2 == 0
    }

    /// Whether a line of `points` points can be sized.
    pub open spec fn spec_holds(points: nat) -> bool {
        2 * points <= usize::MAX && GpuBuffer::<T>::spec_fits(2 * points)
    }

    /// Whether `points` more points can be appended.
    pub open spec fn spec_accepts(&self, points: nat) -> bool {
        Self::spec_holds(self@.len() + points)
    }
}

impl<T: Copy> Line<T> {
    /// Tests whether a line of `points` points can be sized.
    pub fn holds(points: usize) -> (held: bool)
        ensures
            held == Self::spec_holds(points as nat),
    {
        points <= usize::MAX / 2 && GpuBuffer::<T>::fits(2 * points)
    }

    /// Tests whether `points` more points can be appended.
    pub fn accepts(&self, points: usize) -> (accepted: bool)
        requires
            self.wf(),
        ensures
            accepted == self.spec_accepts(points as nat),
    {
        let present = self.buffer.len() / 2;
        points <= usize::MAX - present && Self::holds(present + points)
    }

    /// The buffer that holds the interleaved coordinates.
    pub fn buffer(&self) -> (buffer: &GpuBuffer<T>)
        ensures
            *buffer == self.spec_buffer(),
    {
        &self.buffer
    }

    /// The thickness that the line is drawn with.
    pub fn thickness(&self) -> (thickness: T)
        ensures
            thickness == self.spec_thickness(),
    {
        self.thickness
    }

    /// The number of points.
    pub fn len(&self) -> (count: usize)
        requires
            self.wf(),
        ensures
            count == self@.len(),
    {
        self.buffer.len() / 2
    }

    /// The number of vertices that drawing the line takes: two for each point.
    pub fn vertex_count(&self) -> (count: u32)
        requires
            self.wf(),
            VERTICES_PER_POINT * self@.len() <= u32::MAX,
        ensures
            count == VERTICES_PER_POINT * self@.len(),
    {
        let points = self.buffer.len() / 2;
        VERTICES_PER_POINT * (points as u32)
    }

    /// Makes a line through the points `(xs[i], ys[i])`.
    ///
    /// Returns the line and the contents of its buffer, which go to the start of
    /// a device buffer of `buffer().capacity()` bytes.
    pub fn new(xs: &[T], ys: &[T], thickness: T) -> (made: (Self, Vec<T>))
        requires
            xs@.len() == ys@.len(),
            Self::spec_holds(xs@.len()),
        ensures
            made.0.wf(),
            made.0@ == paired(xs@, ys@),
            made.0.spec_thickness() == thickness,
            made.0.spec_buffer()@ == interleave(xs@, ys@),
            made.0.spec_buffer().spec_capacity() == crate::buffer::initial_capacity(
                2 * xs@.len() * size_of::<T>(),
            ),
            made.1@ == interleave(xs@, ys@),
    {
        let data = interleaved(xs, ys);
        let usage = line_usage();
        proof {
            assert(0x8cu32 & 0x04 == 0x04 && 0x8cu32 & 0x08 == 0x08) by (bit_vector);
            lemma_points_of_interleave(xs@, ys@);
        }
        let buffer = GpuBuffer::new(usage, data.as_slice());
        (Line { buffer, thickness }, data)
    }

    /// Appends the point `(x, y)`.
    pub fn append(&mut self, x: T, y: T) -> (staged: Staged<T>)
        requires
            old(self).wf(),
            old(self).spec_accepts(1),
        ensures
            final(self).wf(),
            final(self)@ == old(self)@.push((x, y)),
            final(self).spec_thickness() == old(self).spec_thickness(),
            staged.data@ == seq![x, y],
            old(self).spec_buffer().extends_to(staged.data@, final(self).spec_buffer()),
            staged.work == planned_extension(
                old(self).spec_buffer().spec_capacity(),
                old(self).spec_buffer().spec_size(),
                2 * size_of::<T>(),
            ),
    {
        let mut data: Vec<T> = Vec::new();
        data.push(x);
        data.push(y);
        proof {
            lemma_points_of_concat(self.spec_buffer()@, data@);
            assert(points_of(data@) =~= seq![(x, y)]);
            assert(self@ + seq![(x, y)] =~= self@.push((x, y)));
            assert(data@ =~= seq![x, y]);
        }
        let work = self.buffer.extend(data.as_slice());
        Staged { data, work }
    }

    /// Appends the points `(xs[i], ys[i])`.
    pub fn extend(&mut self, xs: &[T], ys: &[T]) -> (staged: Staged<T>)
        requires
            old(self).wf(),
            xs@.len() == ys@.len(),
            old(self).spec_accepts(xs@.len()),
        ensures
            final(self).wf(),
            final(self)@ == old(self)@ + paired(xs@, ys@),
            final(self).spec_thickness() == old(self).spec_thickness(),
            staged.data@ == interleave(xs@, ys@),
            old(self).spec_buffer().extends_to(staged.data@, final(self).spec_buffer()),
            staged.work == planned_extension(
                old(self).spec_buffer().spec_capacity(),
                old(self).spec_buffer().spec_size(),
                2 * xs@.len() * size_of::<T>(),
            ),
    {
        let data = interleaved(xs, ys);
        proof {
            lemma_points_of_concat(self.spec_buffer()@, data@);
            lemma_points_of_interleave(xs@, ys@);
        }
        let work = self.buffer.extend(data.as_slice());
        Staged { data, work }
    }
}

/// What a plot is made of.
pub enum Layer<'a, T> {
    /// The horizontal axis.
    XAxis,
    /// The vertical axis.
    YAxis,
    /// A polyline.
    Line(&'a Line<T>),
}

/// Data that arrives for a line that is already shown.
pub enum NewData<T> {
    /// One more point.
    Point { x: T, y: T },
    /// Several more points, as their coordinates.
    Points { xs: Vec<T>, ys: Vec<T> },
}

} // verus!
