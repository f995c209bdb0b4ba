//! The grid: a fixed-size, row-major buffer of binary-state cells,
//! its deterministic initialization rule, and its structural queries.

use vstd::prelude::*;
use vstd::string::StringExecFns;
use crate::adapter::{AdapterError, HostAdapter};
use crate::render::{glyph, spec_render, spec_render_rows, spec_row};

verus! {

/// The greeting shown for `text`.
fn greeting(text: &str) -> (r: String)
    ensures
        r@ == "Hello, "@ + text@ + "!"@,
{
    let mut m: String = "Hello, ".to_owned();
    m.append(text);
    m.append("!");
    m
}

/// The diagnostic emitted when the advisory container id is reassigned
/// to `root_id`.
fn registration_message(root_id: &str) -> (r: String)
    ensures
        r@ == "Registering app at id: "@ + root_id@ + "!"@,
{
    let mut m: String = "Registering app at id: ".to_owned();
    m.append(root_id);
    m.append("!");
    m
}

/// One unit of grid state.
#[derive(Clone, Copy, Debug, PartialEq, Eq, Structural)]
pub enum Cell {
    Dead,
    Alive,
}

/// The initialization rule: the cell at linear index `i` starts alive
/// exactly when `i` is even or divisible by seven.
pub open spec fn init_cell(i: int) -> Cell {
    if i % 2 == 0 || i % 7 == 0 {
        Cell::Alive
    } else {
        Cell::Dead
    }
}

/// The mathematical state of a [`Builder`]: its dimensions, its cell
/// buffer in row-major order, and the advisory container id.
pub ghost struct GridView {
    pub width: u32,
    pub height: u32,
    pub cells: Seq<Cell>,
    pub root_id: Seq<char>,
}

/// The sole stateful entity: owns the cell buffer, fixed at
/// construction; only the advisory `root_id` may later be reassigned.
pub struct Builder {
    width: u32,
    height: u32,
    cells: Vec<Cell>,
    root_id: String,
}

impl View for Builder {
    type V = GridView;

    closed spec fn view(&self) -> GridView {
        GridView {
            width: self.width,
            height: self.height,
            cells: self.cells@,
            root_id: self.root_id@,
        }
    }
}

impl Builder {
    /// Structural invariant: positive dimensions, and the buffer tiles
    /// exactly into `height` rows of `width` cells.
    pub open spec fn wf(&self) -> bool {
        &&& self@.width > 0
        &&& self@.height > 0
        &&& self@.cells.len() == (self@.width as int) * (self@.height as int)
    }

    /// Build the grid: 64 by 64, every cell set by [`init_cell`], the
    /// advisory container id set to `"root"`.
    pub fn new() -> (r: Builder)
        ensures
            r.wf(),
            r@.width == 64,
            r@.height == 64,
            forall|i: int| 0 <= i < r@.cells.len() ==> #[trigger] r@.cells[i] == init_cell(i),
            r@.root_id == "root"@,
    {
        let width: u32 = 64;
        let height: u32 = 64;
        let n: u32 = width * height;

        let mut cells: Vec<Cell> = Vec::new();
        let mut i: u32 = 0;
        while i < n
            invariant
                i <= n,
                n == 4096,
                cells@.len() == i as int,
                forall|j: int| 0 <= j < i as int ==> cells@[j] == init_cell(j),
            decreases n - i,
        {
            let c = if i % 2 == 0 || i % 7 == 0 {
                Cell::Alive
            } else {
                Cell::Dead
            };
            cells.push(c);
            i = i + 1;
        }

        let root_id: String = "root".to_owned();

        Builder { width, height, cells, root_id }
    }

    /// The grid's fixed width.
    pub fn width(&self) -> (r: u32)
        ensures
            r == self@.width,
    {
        self.width
    }

    /// The grid's fixed height.
    pub fn height(&self) -> (r: u32)
        ensures
            r == self@.height,
    {
        self.height
    }

    /// The full text rendering of the grid: `height` lines in row
    /// order, each of `width` glyphs followed by one line terminator.
    /// A pure function of the dimensions and the cell buffer: it
    /// neither reads the advisory container id nor changes anything.
    pub fn render(&self) -> (r: String)
        requires
            self.wf(),
        ensures
            r@ == spec_render(self@),
    {
        let w: usize = self.width as usize;
        let h: usize = self.height as usize;
        let n: usize = self.cells.len();
        let mut s: String = String::new();
        let mut row: usize = 0;
        while row < h
            invariant
                w as int == self@.width as int,
                h as int == self@.height as int,
                n as int == self@.cells.len(),
                n as int == (w as int) * (h as int),
                row <= h,
                s@ == spec_render_rows(self@.cells, w as int, row as int),
            decreases h - row,
        {
            let mut col: usize = 0;
            while col < w
                invariant
                    w as int == self@.width as int,
                    h as int == self@.height as int,
                    n as int == self@.cells.len(),
                    n as int == (w as int) * (h as int),
                    row < h,
                    col <= w,
                    s@ == spec_render_rows(self@.cells, w as int, row as int) + Seq::new(
                        col as nat,
                        |j: int| glyph(self@.cells[row as int * w as int + j]),
                    ),
                decreases w - col,
            {
                proof {
                    assert((row as int) * (w as int) + (col as int) < (w as int) * (h as int)
                        && (row as int) * (w as int) <= (row as int) * (w as int) + (
                    col as int)) by (nonlinear_arith)
                        requires
                            0 <= row as int,
                            (row as int) < (h as int),
                            0 <= col as int,
                            (col as int) < (w as int),
                    ;
                }
                let idx: usize = row * w + col;
                let cell = self.cells[idx];
                let gl: &str = match cell {
                    Cell::Dead => "\u{25fb}",
                    Cell::Alive => "\u{25fc}",
                };
                proof {
                    reveal_strlit("\u{25fb}");
                    reveal_strlit("\u{25fc}");
                    assert(gl@ =~= seq![glyph(self@.cells[idx as int])]);
                }
                s.append(gl);
                proof {
                    let f = |j: int| glyph(self@.cells[row as int * w as int + j]);
                    assert(Seq::new(col as nat, f).push(f(col as int)) =~= Seq::new(
                        (col + 1) as nat,
                        f,
                    ));
                    assert(s@ =~= spec_render_rows(self@.cells, w as int, row as int) + Seq::new(
                        (col + 1) as nat,
                        f,
                    ));
                }
                col = col + 1;
            }
            s.append("\n");
            proof {
                reveal_strlit("\n");
                let f = |j: int| glyph(self@.cells[row as int * w as int + j]);
                assert(Seq::new(w as nat, f).push('\n') =~= spec_row(
                    self@.cells,
                    w as int,
                    row as int,
                ));
                assert(s@ =~= spec_render_rows(self@.cells, w as int, row as int) + spec_row(
                    self@.cells,
                    w as int,
                    row as int,
                ));
                assert(s@ =~= spec_render_rows(self@.cells, w as int, (row + 1) as int));
            }
            row = row + 1;
        }
        s
    }

    /// A borrowed, read-only view of the cell buffer, row-major.
    pub fn cells(&self) -> (r: &[Cell])
        ensures
            r@ == self@.cells,
    {
        self.cells.as_slice()
    }

    /// Ask the host to show a greeting for `text`. Best effort: the
    /// host's success is not observable, and the grid is untouched.
    pub fn alert<A: HostAdapter>(&self, host: &mut A, text: &str) {
        let m = greeting(text);
        host.alert_user(m.as_str());
    }

    /// Reassign the advisory container id, emitting one diagnostic
    /// that names the new id. Isolation: only `root_id` changes — the
    /// dimensions and every cell are exactly as before, so the
    /// rendering is unaffected, and well-formedness is kept.
    pub fn set_root_by_id<A: HostAdapter>(&mut self, host: &mut A, root_id: &str)
        ensures
            final(self)@.root_id == root_id@,
            final(self)@.width == old(self)@.width,
            final(self)@.height == old(self)@.height,
            final(self)@.cells == old(self)@.cells,
            final(self).wf() == old(self).wf(),
    {
        let m = registration_message(root_id);
        host.notify(m.as_str());
        self.root_id = root_id.to_owned();
    }

    /// Hand `text` to the host to be inserted as a new child of the
    /// currently configured container. The one fallible path: the host
    /// may answer that the container does not resolve or that its
    /// document primitives are absent, and that answer is returned
    /// verbatim, with no local recovery. The grid itself is unchanged
    /// whatever the host answers.
    pub fn create_div<A: HostAdapter>(&self, host: &mut A, text: &str) -> Result<
        (),
        AdapterError,
    > {
        host.insert_rendered_output(self.root_id.as_str(), text)
    }
}

/// The structural invariant in the form a host reads it: the exposed
/// buffer is exactly as long as the dimensions say.
pub proof fn lemma_cells_len(g: &Builder)
    requires
        g.wf(),
    ensures
        g@.cells.len() == (g@.width as int) * (g@.height as int),
{
}

} // verus!
