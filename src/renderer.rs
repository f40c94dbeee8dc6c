//! Progressive multi-sample accumulation.
//!
//! A renderer keeps one accumulated cell per pixel and a count of the samples
//! taken so far. Each render pass hands in one sum per pixel, which is added
//! into the cell; finalizing reads the cells and the count and never changes
//! them. Cells are stored by pixel index: pixel `i` sits at column
//! `i / height` and row `i % height`.
//!
//! The cell type and its arithmetic are the caller's: additions and the final
//! conversion come in as functions.
use vstd::prelude::*;
use crate::strategy::Functs;

verus! {

/// What a renderer holds, as mathematical values.
pub ghost struct RendererView<C> {
    pub width: nat,
    pub height: nat,
    pub cells: Seq<C>,
    pub rendered_samples: nat,
    pub functs: Functs,
}

impl<C> RendererView<C> {
    /// The cell of the pixel at column `x` and row `y`.
    pub open spec fn cell(self, x: int, y: int) -> C {
        self.cells[x * self.height + y]
    }

    pub open spec fn wf(self) -> bool {
        self.cells.len() == self.width * self.height
    }
}

/// The pixel index of column `x` and row `y` in an image `height` rows tall.
pub open spec fn index_of(x: int, y: int, height: int) -> int {
    x * height + y
}

/// A fresh accumulation state: every cell `zero`, no samples taken.
pub open spec fn cleared<C>(v: RendererView<C>, width: nat, height: nat, zero: C) -> bool {
    &&& v.width == width
    &&& v.height == height
    &&& v.cells == Seq::new(width * height, |i: int| zero)
    &&& v.rendered_samples == 0
}

/// `new` is `old` after a pass of `samples` samples per pixel whose per-pixel
/// sums are `pass`: the first pass since the state was cleared replaces the
/// cells, every later one adds into them.
pub open spec fn merged<C, F: Fn(C, C) -> C>(
    old: RendererView<C>,
    pass: Seq<C>,
    samples: nat,
    combine: F,
    new: RendererView<C>,
) -> bool {
    &&& new.width == old.width
    &&& new.height == old.height
    &&& new.functs == old.functs
    &&& new.rendered_samples == old.rendered_samples + samples
    &&& new.cells.len() == old.cells.len()
    &&& forall|i: int|
        0 <= i < old.cells.len() ==> if old.rendered_samples > 0 {
            combine.ensures((old.cells[i], pass[i]), #[trigger] new.cells[i])
        } else {
            new.cells[i] == pass[i]
        }
}

/// `out` is the finalized raster of `v`: each cell converted together with
/// the cumulative sample count.
pub open spec fn finalized<C, R, F: Fn(C, usize) -> R>(v: RendererView<C>, finish: F, out: Seq<R>) -> bool {
    &&& out.len() == v.cells.len()
    &&& forall|i: int|
        0 <= i < v.cells.len() ==> finish.ensures(
            (v.cells[i], v.rendered_samples as usize),
            #[trigger] out[i],
        )
}

/// `f` gives one result for each pair of arguments.
pub open spec fn deterministic2<A, B, R, F: Fn(A, B) -> R>(f: F) -> bool {
    forall|a: A, b: B, r1: R, r2: R|
        f.ensures((a, b), r1) && f.ensures((a, b), r2) ==> r1 == r2
}

/// Finalizing is read-only and depends on the state alone: two rasters
/// finalized from one state, with no render pass between them, are the same.
pub proof fn lemma_finalize_idempotent<C, R, G: Fn(C, usize) -> R>(
    v: RendererView<C>,
    finish: G,
    first: Seq<R>,
    second: Seq<R>,
)
    requires
        deterministic2(finish),
        finalized(v, finish, first),
        finalized(v, finish, second),
    ensures
        first == second,
{
    assert forall|i: int| 0 <= i < first.len() implies first[i] == second[i] by {
        assert(finish.ensures((v.cells[i], v.rendered_samples as usize), first[i]));
        assert(finish.ensures((v.cells[i], v.rendered_samples as usize), second[i]));
    }
    assert(first =~= second);
}

/// Progressive accumulation: starting from a cleared state, a pass of `n1`
/// samples followed by a pass of `n2` samples leaves the same state, and so
/// finalizes to the same raster, as a single pass of `n1 + n2` samples whose
/// per-pixel sums combine those of the two passes.
pub proof fn lemma_split_passes_agree<C, R, F: Fn(C, C) -> C, G: Fn(C, usize) -> R>(
    start: RendererView<C>,
    combine: F,
    finish: G,
    first_pass: Seq<C>,
    n1: nat,
    second_pass: Seq<C>,
    n2: nat,
    whole_pass: Seq<C>,
    after_first: RendererView<C>,
    after_second: RendererView<C>,
    after_whole: RendererView<C>,
    split_raster: Seq<R>,
    whole_raster: Seq<R>,
)
    requires
        start.rendered_samples == 0,
        n1 > 0,
        deterministic2(combine),
        deterministic2(finish),
        forall|i: int|
            0 <= i < start.cells.len() ==> combine.ensures(
                (first_pass[i], second_pass[i]),
                #[trigger] whole_pass[i],
            ),
        merged(start, first_pass, n1, combine, after_first),
        merged(after_first, second_pass, n2, combine, after_second),
        merged(start, whole_pass, n1 + n2, combine, after_whole),
        finalized(after_second, finish, split_raster),
        finalized(after_whole, finish, whole_raster),
    ensures
        after_second == after_whole,
        split_raster == whole_raster,
{
    assert forall|i: int| 0 <= i < start.cells.len() implies after_second.cells[i]
        == after_whole.cells[i] by {
        assert(after_first.cells[i] == first_pass[i]);
        assert(combine.ensures((after_first.cells[i], second_pass[i]), after_second.cells[i]));
        assert(combine.ensures((first_pass[i], second_pass[i]), whole_pass[i]));
    }
    assert(after_second.cells =~= after_whole.cells);
    lemma_finalize_idempotent(after_whole, finish, split_raster, whole_raster);
}

/// The column and row of pixel `i` in an image `height` rows tall.
pub fn pixel_position(i: usize, height: usize) -> (r: (usize, usize))
    requires
        height > 0,
    ensures
        r.0 == i / height,
        r.1 == i % height,
        index_of(r.0 as int, r.1 as int, height as int) == i,
{
    let x = i / height;
    let y = i % height;
    proof {
        vstd::arithmetic::div_mod::lemma_fundamental_div_mod(i as int, height as int);
        assert(x * height + y == i) by (nonlinear_arith)
            requires
                i == height * (i / height) + i % height,
                x == i / height,
                y == i % height,
        ;
    }
    (x, y)
}

/// The accumulation state of a progressive renderer.
pub struct Renderer<C> {
    width: usize,
    height: usize,
    functs: Functs,
    raw: Vec<C>,
    rendered_samples: usize,
}

impl<C> View for Renderer<C> {
    type V = RendererView<C>;

    closed spec fn view(&self) -> RendererView<C> {
        RendererView {
            width: self.width as nat,
            height: self.height as nat,
            cells: self.raw@,
            rendered_samples: self.rendered_samples as nat,
            functs: self.functs,
        }
    }
}

fn filled<C: Copy>(n: usize, zero: C) -> (r: Vec<C>)
    ensures
        r@ == Seq::new(n as nat, |i: int| zero),
{
    let mut r: Vec<C> = Vec::new();
    let mut k: usize = 0;
    while k < n
        invariant
            k <= n,
            r@ == Seq::new(k as nat, |i: int| zero),
        decreases n - k,
    {
        r.push(zero);
        k += 1;
        assert(r@ =~= Seq::new(k as nat, |i: int| zero));
    }
    r
}

impl<C: Copy> Renderer<C> {
    /// A renderer for a `width` by `height` image with every cell `zero` and
    /// no samples taken.
    pub fn new(width: usize, height: usize, functs: Functs, zero: C) -> (r: Renderer<C>)
        requires
            width * height <= usize::MAX,
        ensures
            r@.wf(),
            cleared(r@, width as nat, height as nat, zero),
            r@.functs == functs,
    {
        let n = width * height;
        Renderer { width, height, functs, raw: filled(n, zero), rendered_samples: 0 }
    }

    /// Changes the image size. All accumulated work is discarded: every cell
    /// of the new size is `zero` and the sample count is 0.
    pub fn resize(&mut self, w: usize, h: usize, zero: C)
        requires
            w * h <= usize::MAX,
        ensures
            final(self)@.wf(),
            cleared(final(self)@, w as nat, h as nat, zero),
            final(self)@.functs == old(self)@.functs,
    {
        let n = w * h;
        self.width = w;
        self.height = h;
        self.raw = filled(n, zero);
        self.rendered_samples = 0;
    }

    /// Records a render pass of `samples` samples per pixel, whose per-pixel
    /// sums (by pixel index) are `pass`. The first pass after the renderer was
    /// cleared replaces the cells; later ones are added into them with `combine`.
    pub fn render_samples<F: Fn(C, C) -> C>(&mut self, samples: usize, pass: &Vec<C>, combine: F)
        requires
            old(self)@.wf(),
            pass@.len() == old(self)@.cells.len(),
            old(self)@.rendered_samples + samples <= usize::MAX,
            forall|a: C, b: C| combine.requires((a, b)),
        ensures
            final(self)@.wf(),
            merged(old(self)@, pass@, samples as nat, combine, final(self)@),
    {
        let n = self.raw.len();
        let ghost before = self.raw@;
        if self.rendered_samples > 0 {
            let mut i: usize = 0;
            while i < n
                invariant
                    n == self.raw@.len(),
                    n == before.len(),
                    n == pass@.len(),
                    i <= n,
                    self.rendered_samples > 0,
                    self.rendered_samples == old(self).rendered_samples,
                    self.width == old(self).width,
                    self.height == old(self).height,
                    self.functs == old(self).functs,
                    forall|a: C, b: C| combine.requires((a, b)),
                    forall|j: int| i <= j < n ==> self.raw@[j] == before[j],
                    forall|j: int|
                        0 <= j < i ==> combine.ensures((before[j], pass@[j]), #[trigger] self.raw@[j]),
                decreases n - i,
            {
                let v = combine(self.raw[i], pass[i]);
                self.raw.set(i, v);
                i += 1;
            }
        } else {
            let mut i: usize = 0;
            while i < n
                invariant
                    n == self.raw@.len(),
                    n == pass@.len(),
                    i <= n,
                    self.rendered_samples == old(self).rendered_samples,
                    self.width == old(self).width,
                    self.height == old(self).height,
                    self.functs == old(self).functs,
                    forall|j: int| 0 <= j < i ==> self.raw@[j] == pass@[j],
                decreases n - i,
            {
                self.raw.set(i, pass[i]);
                i += 1;
            }
        }
        self.rendered_samples = self.rendered_samples + samples;
    }

    /// The finalized raster, by pixel index: each cell converted by `finish`
    /// together with the cumulative sample count. The renderer is not changed.
    pub fn process_image<R, F: Fn(C, usize) -> R>(&self, finish: F) -> (r: Vec<R>)
        requires
            forall|c: C, n: usize| finish.requires((c, n)),
        ensures
            finalized(self@, finish, r@),
    {
        let mut out: Vec<R> = Vec::new();
        let n = self.raw.len();
        let mut i: usize = 0;
        while i < n
            invariant
                n == self.raw@.len(),
                i <= n,
                out@.len() == i,
                forall|c: C, k: usize| finish.requires((c, k)),
                forall|j: int|
                    0 <= j < i ==> finish.ensures(
                        (self.raw@[j], self.rendered_samples),
                        #[trigger] out@[j],
                    ),
            decreases n - i,
        {
            out.push(finish(self.raw[i], self.rendered_samples));
            i += 1;
        }
        out
    }

    /// Replaces the strategy table; the accumulated work is kept.
    pub fn update_functs(&mut self, functs: Functs)
        ensures
            final(self)@ == (RendererView { functs, ..old(self)@ }),
    {
        self.functs = functs;
    }

    /// The accumulated cell of the pixel at column `x` and row `y`.
    pub fn cell(&self, x: usize, y: usize) -> (r: C)
        requires
            self@.wf(),
            x < self@.width,
            y < self@.height,
        ensures
            r == self@.cell(x as int, y as int),
    {
        let len = self.raw.len();
        proof {
            assert(x * self.height + y < len) by (nonlinear_arith)
                requires
                    x < self.width,
                    y < self.height,
                    len == self.width * self.height,
            ;
        }
        let row_start = x * self.height;
        self.raw[row_start + y]
    }

    pub fn width(&self) -> (r: usize)
        ensures
            r == self@.width,
    {
        self.width
    }

    pub fn height(&self) -> (r: usize)
        ensures
            r == self@.height,
    {
        self.height
    }

    pub fn rendered_samples(&self) -> (r: usize)
        ensures
            r == self@.rendered_samples,
    {
        self.rendered_samples
    }

    pub fn functs(&self) -> (r: Functs)
        ensures
            r == self@.functs,
    {
        self.functs
    }
}

} // verus!
