//! A borrowed, dense, row-major pixel matrix in the layout OpenCV uses.
use vstd::prelude::*;

verus! {

/// Element type code of an 8-bit unsigned, three-channel matrix.
pub const CV_8UC3: i32 = 16;

/// Status code of an operation whose sizes do not agree.
pub const STS_UNMATCHED_SIZES: i32 = -209;

/// An error reported by the matrix's byte accessor.
#[derive(Debug)]
pub struct CvError {
    pub code: i32,
    pub message: String,
}

/// A dense matrix with `rows * cols` pixels stored row by row in `data`.
/// The matrix is borrowed: the bytes belong to whoever made it.
#[derive(Clone, Copy)]
pub struct Mat<'a> {
    /// Element type code; only [`CV_8UC3`] can be converted.
    pub typ: i32,
    /// Number of pixel rows (the image height).
    pub rows: i32,
    /// Number of pixel columns (the image width).
    pub cols: i32,
    /// The backing bytes, three per pixel in B, G, R order.
    pub data: &'a [u8],
}

impl<'a> Mat<'a> {
    /// The element type is 8-bit unsigned with three channels.
    pub open spec fn format_ok(&self) -> bool {
        self.typ == CV_8UC3
    }

    /// Both dimensions are positive.
    pub open spec fn dims_ok(&self) -> bool {
        self.cols > 0 && self.rows > 0
    }

    /// The backing bytes hold exactly `rows * cols` pixels of three bytes.
    pub open spec fn len_ok(&self) -> bool {
        self.rows >= 0 && self.cols >= 0 && self.data@.len() == 3 * (self.cols * self.rows)
    }

    /// Every condition for a conversion holds.
    pub open spec fn convertible(&self) -> bool {
        self.format_ok() && self.dims_ok() && self.len_ok()
    }

    /// A matrix over `data` with the given type code and dimensions.
    pub fn new(typ: i32, rows: i32, cols: i32, data: &'a [u8]) -> (m: Mat<'a>)
        ensures
            m.typ == typ,
            m.rows == rows,
            m.cols == cols,
            m.data@ == data@,
    {
        Mat { typ, rows, cols, data }
    }

    /// Element type code.
    pub fn typ(&self) -> (t: i32)
        ensures
            t == self.typ,
    {
        self.typ
    }

    /// Number of rows.
    pub fn rows(&self) -> (r: i32)
        ensures
            r == self.rows,
    {
        self.rows
    }

    /// Number of columns.
    pub fn cols(&self) -> (c: i32)
        ensures
            c == self.cols,
    {
        self.cols
    }

    /// The backing bytes, handed out only when they hold exactly
    /// `rows * cols` three-byte pixels.
    pub fn data_bytes(&self) -> (r: Result<&'a [u8], CvError>)
        ensures
            r is Ok <==> self.len_ok(),
            r is Ok ==> r->Ok_0@ == self.data@,
            r is Err ==> r->Err_0.code == STS_UNMATCHED_SIZES,
    {
        if self.rows < 0 || self.cols < 0 {
            return Err(CvError {
                code: STS_UNMATCHED_SIZES,
                message: String::from_str("negative matrix size"),
            });
        }
        proof {
            let (r, c) = (self.rows as int, self.cols as int);
            assert(3 * (c * r) < 0x1_0000_0000_0000_0000) by (nonlinear_arith)
                requires
                    0 <= r < 0x8000_0000,
                    0 <= c < 0x8000_0000,
            ;
        }
        let total: u64 = self.cols as u64 * self.rows as u64;
        if self.data.len() as u64 != 3 * total {
            return Err(CvError {
                code: STS_UNMATCHED_SIZES,
                message: String::from_str("byte length does not match the matrix size"),
            });
        }
        Ok(self.data)
    }
}

} // verus!
