use vstd::prelude::*;

verus! {

/// Why a framebuffer operation was refused.
#[derive(Clone, Copy, Debug, PartialEq, Eq, Structural)]
pub enum FramebufferError {
    /// A dimension was zero, or `width * height` does not fit in `usize`.
    InvalidDimensions,
    /// A point outside the `width` x `height` grid.
    IndexOutOfBounds,
}

/// A row-major grid of packed 24-bit pixels, with a current draw color.
pub struct Framebuffer {
    pub width: usize,
    pub height: usize,
    pub buffer: Vec<u32>,
    pub current_color: u32,
}

/// The row-major index of pixel `(x, y)` in a grid `width` pixels wide.
pub open spec fn pixel_index(width: int, x: int, y: int) -> int {
    y * width + x
}

impl Framebuffer {
    /// Both dimensions are positive and the buffer holds exactly one pixel per
    /// cell of the grid.
    pub open spec fn wf(&self) -> bool {
        &&& self.width > 0
        &&& self.height > 0
        &&& self.width * self.height <= usize::MAX
        &&& self.buffer@.len() == self.width * self.height
    }

    /// A black framebuffer of the given size, drawing in black.
    pub fn new(width: usize, height: usize) -> (r: Result<Framebuffer, FramebufferError>)
        ensures
            r is Err <==> (width == 0 || height == 0 || width * height > usize::MAX),
            r is Err ==> r->Err_0 == FramebufferError::InvalidDimensions,
            r matches Ok(fb) ==> {
                &&& fb.wf()
                &&& fb.width == width
                &&& fb.height == height
                &&& fb.current_color == 0
                &&& forall|i: int| 0 <= i < fb.buffer@.len() ==> fb.buffer@[i] == 0
            },
    {
        if width == 0 || height == 0 {
            return Err(FramebufferError::InvalidDimensions);
        }
        let n = match width.checked_mul(height) {
            Some(n) => n,
            None => return Err(FramebufferError::InvalidDimensions),
        };
        let mut buffer: Vec<u32> = Vec::with_capacity(n);
        let mut i: usize = 0;
        while i < n
            invariant
                i <= n,
                buffer@.len() == i,
                forall|j: int| 0 <= j < i ==> buffer@[j] == 0,
            decreases n - i,
        {
            buffer.push(0);
            i = i + 1;
        }
        Ok(Framebuffer { width, height, buffer, current_color: 0 })
    }

    /// Sets the color that later calls of `point` write.
    pub fn set_current_color(&mut self, color: u32)
        ensures
            final(self).current_color == color,
            final(self).width == old(self).width,
            final(self).height == old(self).height,
            final(self).buffer@ == old(self).buffer@,
    {
        self.current_color = color;
    }

    /// Writes the current color at `(x, y)`; a point outside the grid is
    /// refused and changes nothing.
    pub fn point(&mut self, x: usize, y: usize) -> (r: Result<(), FramebufferError>)
        requires
            old(self).wf(),
        ensures
            final(self).wf(),
            final(self).width == old(self).width,
            final(self).height == old(self).height,
            final(self).current_color == old(self).current_color,
            r is Ok <==> (x < old(self).width && y < old(self).height),
            r is Err ==> r->Err_0 == FramebufferError::IndexOutOfBounds
                && final(self).buffer@ == old(self).buffer@,
            r is Ok ==> final(self).buffer@ == old(self).buffer@.update(
                pixel_index(old(self).width as int, x as int, y as int),
                old(self).current_color,
            ),
    {
        if x >= self.width || y >= self.height {
            return Err(FramebufferError::IndexOutOfBounds);
        }
        proof {
            lemma_pixel_index_bounds(self.width as int, self.height as int, x as int, y as int);
        }
        let i = y * self.width + x;
        self.buffer.set(i, self.current_color);
        Ok(())
    }
}

/// A point inside the grid has an index inside the buffer.
pub proof fn lemma_pixel_index_bounds(width: int, height: int, x: int, y: int)
    requires
        0 <= x < width,
        0 <= y < height,
    ensures
        0 <= pixel_index(width, x, y) < width * height,
{
    assert(y * width + x < width * height) by (nonlinear_arith)
        requires
            0 <= x < width,
            0 <= y < height,
    ;
    assert(0 <= y * width) by (nonlinear_arith)
        requires
            0 <= x < width,
            0 <= y,
    ;
}

} // verus!
