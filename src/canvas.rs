use vstd::prelude::*;

verus! {

/// Row-major grid of `width * height` cells; cell `(x, y)` sits at index
/// `y * width + x`.
#[derive(Debug, Clone)]
pub struct Canvas<T> {
    width: usize,
    height: usize,
    elems: Vec<T>,
}

/// Index of cell `(x, y)` in a row-major grid `width` cells wide.
pub open spec fn cell_index(width: int, x: int, y: int) -> int {
    y * width + x
}

impl<T> View for Canvas<T> {
    type V = Seq<T>;

    closed spec fn view(&self) -> Seq<T> {
        self.elems@
    }
}

impl<T> Canvas<T> {
    /// One cell per (column, row) pair.
    pub open spec fn wf(&self) -> bool {
        self@.len() == self.spec_width() * self.spec_height()
    }

    pub closed spec fn spec_width(&self) -> usize {
        self.width
    }

    pub closed spec fn spec_height(&self) -> usize {
        self.height
    }

    /// The cell in column `x` of row `y`.
    pub open spec fn at(&self, x: int, y: int) -> T {
        self@[cell_index(self.spec_width() as int, x, y)]
    }

    /// A grid with no cells.
    pub fn empty() -> (r: Canvas<T>)
        ensures
            r.spec_width() == 0,
            r.spec_height() == 0,
            r@.len() == 0,
            r.wf(),
    {
        Canvas { width: 0, height: 0, elems: Vec::new() }
    }

    /// A `width` x `height` grid whose cell `(x, y)` is `generator((x, y))`;
    /// the generator is called row by row, left to right.
    pub fn new<F>(width: usize, height: usize, mut generator: F) -> (r: Canvas<T>) where
        F: FnMut((usize, usize)) -> T,

        requires
            width * height <= usize::MAX,
            forall|x: usize, y: usize|
                x < width && y < height ==> call_requires(generator, ((x, y),)),
        ensures
            r.spec_width() == width,
            r.spec_height() == height,
            r.wf(),
            forall|x: usize, y: usize|
                x < width && y < height ==> call_ensures(
                    generator,
                    ((x, y),),
                    #[trigger] r.at(x as int, y as int),
                ),
    {
        let ghost entry = generator;
        let mut elems: Vec<T> = Vec::with_capacity(width * height);
        proof {
            assert(0 * width == 0) by (nonlinear_arith);
        }
        for y in 0..height
            invariant
                width * height <= usize::MAX,
                generator == entry,
                elems@.len() == y * width,
                forall|x: usize, y: usize|
                    x < width && y < height ==> call_requires(generator, ((x, y),)),
                forall|xx: usize, yy: usize|
                    xx < width && yy < y ==> call_ensures(
                        generator,
                        ((xx, yy),),
                        #[trigger] elems@[cell_index(width as int, xx as int, yy as int)],
                    ),
        {
            let ghost row_start = elems@.len();
            proof {
                assert(y * width + width <= width * height) by (nonlinear_arith)
                    requires
                        y < height,
                ;
            }
            for x in 0..width
                invariant
                    width * height <= usize::MAX,
                    y < height,
                    generator == entry,
                    row_start == y * width,
                    y * width + width <= width * height,
                    elems@.len() == row_start + x,
                    forall|x: usize, y: usize|
                        x < width && y < height ==> call_requires(generator, ((x, y),)),
                    forall|xx: usize, yy: usize|
                        xx < width && yy < y ==> call_ensures(
                            generator,
                            ((xx, yy),),
                            #[trigger] elems@[cell_index(width as int, xx as int, yy as int)],
                        ),
                    forall|xx: usize|
                        xx < x ==> call_ensures(
                            generator,
                            ((xx, y),),
                            #[trigger] elems@[cell_index(width as int, xx as int, y as int)],
                        ),
            {
                let ghost before = elems@;
                let cell = generator((x, y));
                elems.push(cell);
                proof {
                    assert forall|xx: usize, yy: usize| xx < width && yy < y implies call_ensures(
                        generator,
                        ((xx, yy),),
                        #[trigger] elems@[cell_index(width as int, xx as int, yy as int)],
                    ) by {
                        assert(cell_index(width as int, xx as int, yy as int) < y * width)
                            by (nonlinear_arith)
                            requires
                                xx < width,
                                yy < y,
                        ;
                        assert(elems@[cell_index(width as int, xx as int, yy as int)]
                            == before[cell_index(width as int, xx as int, yy as int)]);
                    }
                    assert forall|xx: usize| xx < x + 1 implies call_ensures(
                        generator,
                        ((xx, y),),
                        #[trigger] elems@[cell_index(width as int, xx as int, y as int)],
                    ) by {
                        if xx < x {
                            assert(elems@[cell_index(width as int, xx as int, y as int)]
                                == before[cell_index(width as int, xx as int, y as int)]);
                        }
                    }
                }
            }
            proof {
                assert(elems@.len() == (y + 1) * width) by (nonlinear_arith)
                    requires
                        elems@.len() == y * width + width,
                ;
            }
        }
        proof {
            assert(height * width == width * height) by (nonlinear_arith);
        }
        let r = Canvas { width, height, elems };
        assert forall|x: usize, y: usize| x < width && y < height implies call_ensures(
            generator,
            ((x, y),),
            #[trigger] r.at(x as int, y as int),
        ) by {
            assert(r.at(x as int, y as int) == r@[cell_index(width as int, x as int, y as int)]);
        }
        r
    }

    /// The grid of `f` applied to every cell, same shape, same order.
    pub fn map<F, O>(self, f: F) -> (r: Canvas<O>) where F: Fn(T) -> O
        requires
            forall|i: int| 0 <= i < self@.len() ==> call_requires(f, (self@[i],)),
        ensures
            r.spec_width() == self.spec_width(),
            r.spec_height() == self.spec_height(),
            r@.len() == self@.len(),
            self.wf() ==> r.wf(),
            forall|i: int|
                0 <= i < self@.len() ==> call_ensures(f, (self@[i],), #[trigger] r@[i]),
    {
        let ghost cells = self@;
        let Canvas { width, height, elems } = self;
        let mut out: Vec<O> = Vec::with_capacity(elems.len());
        for cell in it: elems.into_iter()
            invariant
                it.seq() == cells,
                out@.len() == it.index(),
                forall|i: int| 0 <= i < cells.len() ==> call_requires(f, (cells[i],)),
                forall|i: int|
                    0 <= i < out@.len() ==> call_ensures(f, (cells[i],), #[trigger] out@[i]),
        {
            out.push(f(cell));
        }
        Canvas { width, height, elems: out }
    }

    /// Calls `f((x, y), cell)` on every cell, row by row, left to right.
    pub fn for_each<F>(&self, mut f: F) where F: FnMut((usize, usize), &T)
        requires
            self.wf(),
            forall|x: usize, y: usize|
                x < self.spec_width() && y < self.spec_height() ==> call_requires(
                    f,
                    ((x, y), &#[trigger] self.at(x as int, y as int)),
                ),
    {
        let width = self.width;
        let height = self.height;
        let cells = self.elems.len();
        let ghost entry = f;
        for y in 0..height
            invariant
                self.wf(),
                cells == width * height,
                width == self.spec_width(),
                height == self.spec_height(),
                f == entry,
                forall|x: usize, y: usize|
                    x < width && y < height ==> call_requires(
                        f,
                        ((x, y), &#[trigger] self.at(x as int, y as int)),
                    ),
        {
            for x in 0..width
                invariant
                    self.wf(),
                    cells == width * height,
                    y < height,
                    width == self.spec_width(),
                    height == self.spec_height(),
                    f == entry,
                    forall|x: usize, y: usize|
                        x < width && y < height ==> call_requires(
                            f,
                            ((x, y), &#[trigger] self.at(x as int, y as int)),
                        ),
            {
                proof {
                    assert(y * width + x < width * height) by (nonlinear_arith)
                        requires
                            x < width,
                            y < height,
                    ;
                }
                let cell = &self.elems[y * width + x];
                assert(*cell == self.at(x as int, y as int));
                f((x, y), cell);
            }
        }
    }

    #[verifier::when_used_as_spec(spec_width)]
    pub fn width(&self) -> (r: usize)
        ensures
            r == self.spec_width(),
    {
        self.width
    }

    #[verifier::when_used_as_spec(spec_height)]
    pub fn height(&self) -> (r: usize)
        ensures
            r == self.spec_height(),
    {
        self.height
    }
}

} // verus!
