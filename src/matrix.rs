use vstd::prelude::*;

use crate::error::ReduceError;

verus! {

/// `s` has `rows` rows, each of exactly `cols` entries.
pub open spec fn is_grid<T>(s: Seq<Seq<T>>, rows: nat, cols: nat) -> bool {
    &&& s.len() == rows
    &&& forall|i: int| 0 <= i < rows ==> (#[trigger] s[i]).len() == cols
}

/// The entries of a row-major array of vectors, row by row.
pub open spec fn rows_view<T>(v: Seq<Vec<T>>) -> Seq<Seq<T>> {
    v.map_values(|r: Vec<T>| r@)
}

/// A row-major matrix whose dimensions are fixed when it is built.
pub struct Matrix<T> {
    rows: usize,
    cols: usize,
    data: Vec<Vec<T>>,
}

impl<T> View for Matrix<T> {
    type V = Seq<Seq<T>>;

    closed spec fn view(&self) -> Seq<Seq<T>> {
        rows_view(self.data@)
    }
}

impl<T: Copy> Matrix<T> {
    /// Number of rows fixed at construction.
    pub closed spec fn row_count(&self) -> nat {
        self.rows as nat
    }

    /// Number of columns fixed at construction.
    pub closed spec fn col_count(&self) -> nat {
        self.cols as nat
    }

    /// Both dimensions are positive and the entries form a grid of exactly those dimensions.
    pub open spec fn wf(&self) -> bool {
        &&& self.row_count() > 0
        &&& self.col_count() > 0
        &&& is_grid(self@, self.row_count(), self.col_count())
    }

    /// A `rows` by `cols` matrix with every entry equal to `value`.
    pub fn filled(rows: usize, cols: usize, value: T) -> (m: Self)
        requires
            rows > 0,
            cols > 0,
        ensures
            m.wf(),
            m.row_count() == rows,
            m.col_count() == cols,
            forall|i: int, j: int| 0 <= i < rows && 0 <= j < cols ==> m@[i][j] == value,
    {
        let mut data: Vec<Vec<T>> = Vec::new();
        let mut i: usize = 0;
        while i < rows
            invariant
                i <= rows,
                data@.len() == i,
                forall|a: int| 0 <= a < i ==> (#[trigger] data@[a])@ == Seq::new(cols as nat, |c: int| value),
            decreases rows - i,
        {
            let mut line: Vec<T> = Vec::new();
            let mut j: usize = 0;
            while j < cols
                invariant
                    j <= cols,
                    line@ == Seq::new(j as nat, |c: int| value),
                decreases cols - j,
            {
                line.push(value);
                j = j + 1;
                assert(line@ =~= Seq::new(j as nat, |c: int| value));
            }
            data.push(line);
            i = i + 1;
        }
        let m = Matrix { rows, cols, data };
        assert(is_grid(m@, rows as nat, cols as nat));
        m
    }

    /// The dimensions `(rows, cols)`.
    pub fn dims(&self) -> (d: (usize, usize))
        ensures
            d.0 == self.row_count(),
            d.1 == self.col_count(),
    {
        (self.rows, self.cols)
    }

    /// The entry in row `i`, column `j`.
    pub fn get(&self, i: usize, j: usize) -> (v: T)
        requires
            self.wf(),
            i < self.row_count(),
            j < self.col_count(),
        ensures
            v == self@[i as int][j as int],
    {
        assert(self.data@[i as int]@ == self@[i as int]);
        self.data[i][j]
    }

    /// Builds a matrix of dimensions `dims` from its rows; fails unless both
    /// dimensions are positive and `entries` holds exactly `dims.0` rows of
    /// `dims.1` entries each.
    pub fn from_rows(dims: (usize, usize), entries: Vec<Vec<T>>) -> (r: Result<Self, ReduceError>)
        ensures
            r is Ok <==> (dims.0 > 0 && dims.1 > 0 && is_grid(
                rows_view(entries@),
                dims.0 as nat,
                dims.1 as nat,
            )),
            r matches Ok(m) ==> m.wf() && m.row_count() == dims.0 && m.col_count() == dims.1
                && m@ == rows_view(entries@),
            r matches Err(e) ==> e == ReduceError::InvalidDimensions,
    {
        let (rows, cols) = dims;
        if rows == 0 || cols == 0 || entries.len() != rows {
            return Err(ReduceError::InvalidDimensions);
        }
        let mut i: usize = 0;
        while i < rows
            invariant
                i <= rows,
                rows == dims.0,
                cols == dims.1,
                entries@.len() == rows,
                forall|a: int| 0 <= a < i ==> (#[trigger] entries@[a])@.len() == cols,
            decreases rows - i,
        {
            if entries[i].len() != cols {
                assert(rows_view(entries@)[i as int] == entries@[i as int]@);
                return Err(ReduceError::InvalidDimensions);
            }
            i = i + 1;
        }
        let m = Matrix { rows, cols, data: entries };
        assert(is_grid(m@, rows as nat, cols as nat));
        Ok(m)
    }

    /// Gives up the matrix as its rows.
    pub fn into_rows(self) -> (v: Vec<Vec<T>>)
        ensures
            rows_view(v@) == self@,
    {
        self.data
    }

    /// Sets the entry in row `i`, column `j` to `value`.
    pub fn set(&mut self, i: usize, j: usize, value: T)
        requires
            old(self).wf(),
            i < old(self).row_count(),
            j < old(self).col_count(),
        ensures
            final(self).wf(),
            final(self).row_count() == old(self).row_count(),
            final(self).col_count() == old(self).col_count(),
            final(self)@ == old(self)@.update(i as int, old(self)@[i as int].update(j as int, value)),
    {
        assert(self.data@[i as int]@ == self@[i as int]);
        let mut line: Vec<T> = Vec::new();
        std::mem::swap(&mut line, &mut self.data[i]);
        line.set(j, value);
        std::mem::swap(&mut line, &mut self.data[i]);
        assert(self@ =~= old(self)@.update(i as int, old(self)@[i as int].update(j as int, value)));
    }

    /// Exchanges rows `i` and `j`.
    pub fn swap_rows(&mut self, i: usize, j: usize)
        requires
            old(self).wf(),
            i < old(self).row_count(),
            j < old(self).row_count(),
        ensures
            final(self).wf(),
            final(self).row_count() == old(self).row_count(),
            final(self).col_count() == old(self).col_count(),
            final(self)@ == old(self)@.update(i as int, old(self)@[j as int]).update(
                j as int,
                old(self)@[i as int],
            ),
    {
        if i != j {
            let mut line: Vec<T> = Vec::new();
            std::mem::swap(&mut line, &mut self.data[i]);
            std::mem::swap(&mut line, &mut self.data[j]);
            std::mem::swap(&mut line, &mut self.data[i]);
        }
        assert(self@ =~= old(self)@.update(i as int, old(self)@[j as int]).update(
            j as int,
            old(self)@[i as int],
        ));
    }

    /// Copies row `index` of `src` over row `index` of this matrix.
    pub fn assign_row(&mut self, src: &Matrix<T>, index: usize)
        requires
            old(self).wf(),
            src.wf(),
            src.col_count() == old(self).col_count(),
            index < old(self).row_count(),
            index < src.row_count(),
        ensures
            final(self).wf(),
            final(self).row_count() == old(self).row_count(),
            final(self).col_count() == old(self).col_count(),
            final(self)@ == old(self)@.update(index as int, src@[index as int]),
    {
        assert(src.data@[index as int]@ == src@[index as int]);
        let mut line: Vec<T> = Vec::new();
        let mut c: usize = 0;
        while c < src.cols
            invariant
                c <= src.cols,
                src.wf(),
                index < src.row_count(),
                src.data@[index as int]@ == src@[index as int],
                line@ == src@[index as int].subrange(0, c as int),
            decreases src.cols - c,
        {
            line.push(src.data[index][c]);
            c = c + 1;
            assert(line@ =~= src@[index as int].subrange(0, c as int));
        }
        assert(line@ =~= src@[index as int]);
        std::mem::swap(&mut line, &mut self.data[index]);
        assert(self@ =~= old(self)@.update(index as int, src@[index as int]));
    }
}

} // verus!
