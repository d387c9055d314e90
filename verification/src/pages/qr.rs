//! The QR code that leads to the profile of the user: its matrix, which the
//! `qrcode_generator` crate computes, framed and enlarged for the screen.

use vstd::prelude::*;

verus! {

/// How much of a QR code may be lost without loss of what it says.
#[derive(Debug, Clone, Copy, PartialEq, Eq, Structural)]
pub enum ErrorCorrection {
    Low,
    Medium,
    Quartile,
    High,
}

/// The matrix of the QR code that says `text` with the error correction
/// `level`, row by row, `true` for a dark cell; `None` where `text` is too
/// long for a QR code.
pub uninterp spec fn qr_matrix(text: Seq<char>, level: ErrorCorrection) -> Option<Seq<Seq<bool>>>;

/// Whether `data` has as many cells in each row as it has rows.
pub open spec fn is_square(data: Seq<Seq<bool>>) -> bool {
    forall|y: int| 0 <= y < data.len() ==> (#[trigger] data[y]).len() == data.len()
}

/// Computes the matrix of a QR code with `qrcode_generator::to_matrix`.
///
/// Nothing is proved of this function. Its contract claims that the matrix
/// depends on the text and the level alone, which gives it the name
/// `qr_matrix`, and that it is square, as the loop that fills it shows.
#[verifier::external_body]
fn to_matrix(text: &str, level: ErrorCorrection) -> (matrix: Option<Vec<Vec<bool>>>)
    ensures
        matrix.deep_view() == qr_matrix(text@, level),
        matrix matches Some(m) ==> is_square(m.deep_view()),
{
    let ecc = match level {
        ErrorCorrection::Low => qrcode_generator::QrCodeEcc::Low,
        ErrorCorrection::Medium => qrcode_generator::QrCodeEcc::Medium,
        ErrorCorrection::Quartile => qrcode_generator::QrCodeEcc::Quartile,
        ErrorCorrection::High => qrcode_generator::QrCodeEcc::High,
    };
    qrcode_generator::to_matrix(text, ecc).ok()
}

/// Whether no row of `data` has more cells than `data` has rows.
pub open spec fn fits_a_square(data: Seq<Seq<bool>>) -> bool {
    forall|y: int| 0 <= y < data.len() ==> (#[trigger] data[y]).len() <= data.len()
}

/// The row `cells` drawn out to `width` cells and with every cell repeated
/// `by` times. Cells that the row lacks are light.
pub open spec fn widened(cells: Seq<bool>, width: nat, by: nat) -> Seq<bool> {
    Seq::new(
        (width * by) as nat,
        |x: int|
            if x / (by as int) < cells.len() {
                cells[x / (by as int)]
            } else {
                false
            },
    )
}

/// The matrix `data` made square and with every cell blown up to a block of
/// `by` times `by` cells.
pub open spec fn grown(data: Seq<Seq<bool>>, by: nat) -> Seq<Seq<bool>> {
    Seq::new(
        (data.len() * by) as nat,
        |y: int| widened(data[y / (by as int)], data.len(), by),
    )
}

/// The side of the framed matrix, less one: `size`, made even.
pub open spec fn framed_size(size: nat) -> nat {
    if size % 2 != 0 {
        size + 1
    } else {
        size
    }
}

/// The width of the frame, less one, around a matrix of `len` rows that is
/// to fill `size` rows with its frame.
pub open spec fn frame_width(len: nat, size: nat) -> int {
    (framed_size(size) - len) / 2
}

/// Whether row or column `at` lies in the frame.
pub open spec fn in_frame(len: nat, size: nat, at: int) -> bool {
    at <= frame_width(len, size) || at >= framed_size(size) - frame_width(len, size)
}

/// The number of rows, and of cells in each, that the frame leaves for the
/// matrix.
pub open spec fn framed_room(len: nat, size: nat) -> int {
    framed_size(size) - 2 * frame_width(len, size) - 1
}

/// Whether `data` has a cell wherever the frame leaves room for one.
pub open spec fn fills_the_frame(data: Seq<Seq<bool>>, size: nat) -> bool {
    forall|y: int|
        0 <= y < framed_room(data.len(), size) ==> y < data.len() && (#[trigger] data[y]).len()
            >= framed_room(data.len(), size)
}

/// A square matrix has a cell wherever a frame that is no smaller than the
/// matrix leaves room for one.
pub proof fn lemma_square_fills_the_frame(data: Seq<Seq<bool>>, size: nat)
    requires
        is_square(data),
        data.len() <= size,
    ensures
        fills_the_frame(data, size),
{
}

/// The matrix `data` inside a frame of light cells, `size` rows high and
/// wide if `size` is even, `size + 1` if it is odd, and one more for the
/// last row and column.
pub open spec fn framed(data: Seq<Seq<bool>>, size: nat) -> Seq<Seq<bool>> {
    let width = frame_width(data.len(), size);
    Seq::new(
        framed_size(size) + 1,
        |y: int|
            Seq::new(
                framed_size(size) + 1,
                |x: int|
                    if in_frame(data.len(), size, y) || in_frame(data.len(), size, x) {
                        false
                    } else {
                        data[y - width - 1][x - width - 1]
                    },
            ),
    )
}

/// The matrix of a QR code, `true` for a dark cell.
#[derive(Debug, Clone, PartialEq, Eq)]
pub struct QrCode {
    pub data: Vec<Vec<bool>>,
}

impl View for QrCode {
    type V = Seq<Seq<bool>>;

    open spec fn view(&self) -> Seq<Seq<bool>> {
        Seq::new(self.data@.len(), |y: int| self.data@[y]@)
    }
}

fn widened_row(cells: &Vec<bool>, width: usize, by: usize) -> (row: Vec<bool>)
    requires
        by > 0,
        width * by <= usize::MAX,
    ensures
        row@ == widened(cells@, width as nat, by as nat),
{
    let mut row: Vec<bool> = Vec::new();
    let mut x: usize = 0;
    while x < width
        invariant
            by > 0,
            width * by <= usize::MAX,
            x <= width,
            row@.len() == x * by,
            forall|k: int|
                0 <= k < row@.len() ==> row@[k] == widened(cells@, width as nat, by as nat)[k],
        decreases width - x,
    {
        let dark = if x < cells.len() {
            cells[x]
        } else {
            false
        };
        let mut j: usize = 0;
        while j < by
            invariant
                by > 0,
                width * by <= usize::MAX,
                x < width,
                j <= by,
                row@.len() == x * by + j,
                dark == if x < cells@.len() {
                    cells@[x as int]
                } else {
                    false
                },
                forall|k: int|
                    0 <= k < row@.len() ==> row@[k] == widened(cells@, width as nat, by as nat)[k],
            decreases by - j,
        {
            proof {
                let k = (x * by + j) as int;
                assert(k / (by as int) == x && k < width * by) by (nonlinear_arith)
                    requires
                        k == x * by + j,
                        0 <= j < by,
                        x < width,
                ;
            }
            row.push(dark);
            j = j + 1;
        }
        proof {
            assert(x * by + by == (x + 1) * by) by (nonlinear_arith);
        }
        x = x + 1;
    }
    row
}

fn copy_row(cells: &Vec<bool>) -> (row: Vec<bool>)
    ensures
        row@ == cells@,
{
    let mut row: Vec<bool> = Vec::new();
    let mut x: usize = 0;
    while x < cells.len()
        invariant
            x <= cells@.len(),
            row@ == cells@.take(x as int),
        decreases cells@.len() - x,
    {
        row.push(cells[x]);
        x = x + 1;
    }
    row
}

impl QrCode {
    /// The QR code that says `text`, with low error correction; `None`
    /// where `text` is too long for a QR code.
    pub fn encode(text: &str) -> (code: Option<QrCode>)
        ensures
            match code {
                Some(c) => qr_matrix(text@, ErrorCorrection::Low) == Some(c@) && is_square(c@),
                None => qr_matrix(text@, ErrorCorrection::Low) is None,
            },
    {
        match to_matrix(text, ErrorCorrection::Low) {
            Some(data) => {
                let code = QrCode { data };
                assert(code@ =~~= data.deep_view());
                Some(code)
            },
            None => None,
        }
    }

    /// Puts a frame of light cells round the matrix, so that it fills `size`
    /// rows and columns, or `size + 1` if `size` is odd, and one more.
    pub fn add_margin(&mut self, size: usize)
        requires
            old(self)@.len() <= size < usize::MAX - 1,
            fills_the_frame(old(self)@, size as nat),
        ensures
            final(self)@ == framed(old(self)@, size as nat),
    {
        let len = self.data.len();
        let mut new_size = size;
        if new_size % 2 != 0 {
            new_size += 1;
        }
        let margin_width = (new_size - len) / 2;
        let mut rows: Vec<Vec<bool>> = Vec::new();
        let mut y: usize = 0;
        while y < new_size + 1
            invariant
                *self == *old(self),
                len == self.data@.len(),
                len <= size < usize::MAX - 1,
                new_size == framed_size(size as nat),
                margin_width == frame_width(len as nat, size as nat),
                fills_the_frame(self@, size as nat),
                y <= new_size + 1,
                rows@.len() == y,
                forall|k: int|
                    0 <= k < y ==> (#[trigger] rows@[k])@ == framed(self@, size as nat)[k],
            decreases new_size + 1 - y,
        {
            let mut row: Vec<bool> = Vec::new();
            let mut x: usize = 0;
            while x < new_size + 1
                invariant
                    *self == *old(self),
                    len == self.data@.len(),
                    len <= size < usize::MAX - 1,
                    new_size == framed_size(size as nat),
                    margin_width == frame_width(len as nat, size as nat),
                    fills_the_frame(self@, size as nat),
                    y < new_size + 1,
                    x <= new_size + 1,
                    row@.len() == x,
                    forall|k: int|
                        0 <= k < x ==> row@[k] == framed(self@, size as nat)[y as int][k],
                decreases new_size + 1 - x,
            {
                let is_in_margin = y <= margin_width || y >= new_size - margin_width || x
                    <= margin_width || x >= new_size - margin_width;
                if is_in_margin {
                    row.push(false);
                } else {
                    assert(self@[y - margin_width - 1].len() >= framed_room(
                        len as nat,
                        size as nat,
                    ));
                    row.push(self.data[y - margin_width - 1][x - margin_width - 1]);
                }
                x = x + 1;
            }
            rows.push(row);
            y = y + 1;
        }
        self.data = rows;
    }

    /// Blows every cell up to a block of `by` times `by` cells. A row that is
    /// shorter than the matrix is high is filled up with light cells first.
    pub fn grow(&mut self, by: usize)
        requires
            by > 0,
            fits_a_square(old(self)@),
            old(self)@.len() * by <= usize::MAX,
        ensures
            final(self)@ == grown(old(self)@, by as nat),
    {
        let n = self.data.len();
        let mut rows: Vec<Vec<bool>> = Vec::new();
        let mut y: usize = 0;
        while y < n
            invariant
                by > 0,
                n == self.data@.len(),
                *self == *old(self),
                n * by <= usize::MAX,
                y <= n,
                rows@.len() == y * by,
                forall|k: int|
                    0 <= k < rows@.len() ==> (#[trigger] rows@[k])@ == grown(self@, by as nat)[k],
            decreases n - y,
        {
            let wide = widened_row(&self.data[y], n, by);
            let mut i: usize = 0;
            while i < by
                invariant
                    by > 0,
                    n == self.data@.len(),
                    y < n,
                    n * by <= usize::MAX,
                    i <= by,
                    rows@.len() == y * by + i,
                    wide@ == widened(self@[y as int], n as nat, by as nat),
                    forall|k: int|
                        0 <= k < rows@.len() ==> (#[trigger] rows@[k])@ == grown(
                            self@,
                            by as nat,
                        )[k],
                decreases by - i,
            {
                proof {
                    let k = (y * by + i) as int;
                    assert(k / (by as int) == y && k < n * by) by (nonlinear_arith)
                        requires
                            k == y * by + i,
                            0 <= i < by,
                            y < n,
                    ;
                }
                rows.push(copy_row(&wide));
                i = i + 1;
            }
            proof {
                assert(y * by + by == (y + 1) * by) by (nonlinear_arith);
            }
            y = y + 1;
        }
        self.data = rows;
    }
}

} // verus!
