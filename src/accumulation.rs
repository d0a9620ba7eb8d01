use vstd::prelude::*;

use crate::layout::{is_renderable, renderable};

verus! {

/// Abstract state of progressive accumulation over a `width` x `height`
/// surface: `iteration` full sweeps are complete and the current sweep has
/// already refined the rows above `line`.
pub struct AccumulationView {
    pub width: nat,
    pub height: nat,
    pub iteration: nat,
    pub line: nat,
}

impl AccumulationView {
    /// The next row to refine lies on the surface (or is row 0 of an empty one).
    pub open spec fn wf(self) -> bool {
        self.line == 0 || self.line < self.height
    }

    /// Nothing accumulated yet on a `width` x `height` surface.
    pub open spec fn fresh(width: nat, height: nat) -> AccumulationView {
        AccumulationView { width, height, iteration: 0, line: 0 }
    }

    /// Samples already averaged into every pixel of `row`.
    pub open spec fn samples(self, row: nat) -> nat {
        if row < self.line {
            self.iteration + 1
        } else {
            self.iteration
        }
    }

    /// State once row `line` has received one more sample: the next row, or
    /// the first row of the next sweep after the last one.
    pub open spec fn after_line(self) -> AccumulationView {
        if self.line + 1 >= self.height {
            AccumulationView { line: 0, iteration: self.iteration + 1, ..self }
        } else {
            AccumulationView { line: self.line + 1, ..self }
        }
    }

    /// State once every pixel of the surface has received one more sample.
    pub open spec fn after_frame(self) -> AccumulationView {
        AccumulationView { line: 0, iteration: self.iteration + 1, ..self }
    }

    /// State after `k` scanline steps.
    pub open spec fn after_lines(self, k: nat) -> AccumulationView
        decreases k,
    {
        if k == 0 {
            self
        } else {
            self.after_line().after_lines((k - 1) as nat)
        }
    }
}

/// A scanline step adds exactly one sample to the row it refines and leaves
/// every other row as it was, so each pixel always holds the mean of the
/// samples folded into it.
pub proof fn lemma_line_adds_one_sample(v: AccumulationView, row: nat)
    requires
        v.wf(),
        row < v.height,
    ensures
        v.after_line().samples(row) == v.samples(row) + if row == v.line {
            1nat
        } else {
            0nat
        },
{
}

/// Scanline steps from the start of a sweep bring every row of the surface
/// up by exactly one sample after `height` steps, and the next sweep begins.
pub proof fn lemma_sweep_completes(v: AccumulationView)
    requires
        v.line == 0,
        1 <= v.height,
    ensures
        v.after_lines(v.height) == v.after_frame(),
        forall|row: nat| row < v.height ==> #[trigger] v.after_lines(v.height).samples(row)
            == v.samples(row) + 1,
{
    lemma_rest_of_sweep(v);
}

/// From row `line` of a sweep, `height - line` steps reach the start of the
/// next sweep.
proof fn lemma_rest_of_sweep(v: AccumulationView)
    requires
        v.line < v.height,
    ensures
        v.after_lines((v.height - v.line) as nat) == (AccumulationView {
            line: 0,
            iteration: v.iteration + 1,
            ..v
        }),
    decreases v.height - v.line,
{
    let next = v.after_line();
    if v.line + 1 < v.height {
        lemma_rest_of_sweep(next);
        assert((v.height - v.line - 1) as nat == (next.height - next.line) as nat);
    } else {
        assert(next.after_lines(0) == next);
    }
}

/// After a resize no sample survives: the first sample traced for any pixel
/// of the new surface is taken as it is, not blended with stale data.
pub proof fn lemma_resize_forgets_samples(width: nat, height: nat, row: nat)
    ensures
        AccumulationView::fresh(width, height).samples(row) == 0,
        AccumulationView::fresh(width, height).wf(),
{
}

/// One scanline of work: trace a new sample for every pixel of `row` and fold
/// it into the buffer as `(pixel * samples + sample) / (samples + 1)`.
#[derive(Debug, Clone, Copy, PartialEq, Eq)]
pub struct LineTask {
    /// Row to trace, counted from the top.
    pub row: usize,
    /// Samples already averaged into the pixels of `row`.
    pub samples: u64,
    /// Value to restart the random number stream with, at the start of a sweep.
    pub reseed: Option<u64>,
}

/// One whole frame of work: a new sample for every pixel, folded in with
/// weight `samples`, after the random number stream restarts from `seed`.
#[derive(Debug, Clone, Copy, PartialEq, Eq)]
pub struct FrameTask {
    pub samples: u64,
    pub seed: u64,
}

/// Progress of progressive accumulation on the current surface.
#[derive(Debug)]
pub struct Accumulation {
    width: usize,
    height: usize,
    iteration: u64,
    line: usize,
}

impl View for Accumulation {
    type V = AccumulationView;

    closed spec fn view(&self) -> AccumulationView {
        AccumulationView {
            width: self.width as nat,
            height: self.height as nat,
            iteration: self.iteration as nat,
            line: self.line as nat,
        }
    }
}

impl Accumulation {
    #[verifier::type_invariant]
    spec fn inv(self) -> bool {
        self@.wf()
    }

    /// Nothing accumulated yet on a `width` x `height` surface.
    pub fn new(width: usize, height: usize) -> (r: Accumulation)
        ensures
            r@ == AccumulationView::fresh(width as nat, height as nat),
    {
        Accumulation { width, height, iteration: 0, line: 0 }
    }

    pub fn width(&self) -> (r: usize)
        ensures
            r == self@.width,
    {
        self.width
    }

    pub fn height(&self) -> (r: usize)
        ensures
            r == self@.height,
    {
        self.height
    }

    /// Completed sweeps.
    pub fn iteration(&self) -> (r: u64)
        ensures
            r == self@.iteration,
    {
        self.iteration
    }

    /// Next row the current sweep refines.
    pub fn line(&self) -> (r: usize)
        ensures
            r == self@.line,
    {
        self.line
    }

    /// Start over on a `width` x `height` surface: what was accumulated
    /// belongs to the old pixel grid and is dropped.
    pub fn resize(&mut self, width: usize, height: usize)
        ensures
            final(self)@ == AccumulationView::fresh(width as nat, height as nat),
    {
        *self = Accumulation::new(width, height);
    }

    /// Follow the surface size: a different size starts over (returns
    /// `true`), the same size keeps every sample (returns `false`).
    pub fn sync(&mut self, width: usize, height: usize) -> (resized: bool)
        ensures
            resized == (old(self)@.width != width || old(self)@.height != height),
            resized ==> final(self)@ == AccumulationView::fresh(width as nat, height as nat),
            !resized ==> final(self)@ == old(self)@,
    {
        if self.width != width || self.height != height {
            self.resize(width, height);
            true
        } else {
            false
        }
    }

    /// Take the next scanline of the current sweep, or `None` (and change
    /// nothing) when the surface is too small to render.
    pub fn next_line(&mut self) -> (task: Option<LineTask>)
        requires
            old(self)@.iteration < u64::MAX,
        ensures
            task is Some <==> renderable(old(self)@.width, old(self)@.height),
            task is None ==> final(self)@ == old(self)@,
            task matches Some(t) ==> {
                &&& t.row == old(self)@.line
                &&& t.row < old(self)@.height
                &&& t.samples == old(self)@.samples(t.row as nat)
                &&& t.reseed == if t.row == 0 {
                    Some(old(self)@.iteration as u64)
                } else {
                    None
                }
                &&& final(self)@ == old(self)@.after_line()
            },
    {
        proof {
            use_type_invariant(&*self);
        }
        if !is_renderable(self.width, self.height) {
            return None;
        }
        let row = self.line;
        let task = LineTask {
            row,
            samples: self.iteration,
            reseed: if row == 0 {
                Some(self.iteration)
            } else {
                None
            },
        };
        if row + 1 >= self.height {
            self.line = 0;
            self.iteration = self.iteration + 1;
        } else {
            self.line = row + 1;
        }
        Some(task)
    }

    /// Take a whole frame, or `None` (and change nothing) when the surface is
    /// too small to render. Every pixel then holds one more sample.
    pub fn next_frame(&mut self) -> (task: Option<FrameTask>)
        requires
            old(self)@.iteration < u64::MAX,
            old(self)@.line == 0,
        ensures
            task is Some <==> renderable(old(self)@.width, old(self)@.height),
            task is None ==> final(self)@ == old(self)@,
            task matches Some(t) ==> {
                &&& t.samples == old(self)@.iteration
                &&& t.seed == old(self)@.iteration
                &&& final(self)@ == old(self)@.after_frame()
            },
    {
        if !is_renderable(self.width, self.height) {
            return None;
        }
        let task = FrameTask { samples: self.iteration, seed: self.iteration };
        self.iteration = self.iteration + 1;
        Some(task)
    }
}

} // verus!
