//! Two-dimensional arrays stored row-major in one flat vector.
use vstd::prelude::*;

verus! {

/// The `i`-th row of `flat`, read as rows of `cols` entries each.
pub open spec fn row_of<T>(flat: Seq<T>, cols: nat, i: int) -> Seq<T> {
    flat.subrange(i * cols, i * cols + cols)
}

/// The first `rows` rows of `flat`, read as rows of `cols` entries each.
pub open spec fn rows_of<T>(flat: Seq<T>, rows: nat, cols: nat) -> Seq<Seq<T>> {
    Seq::new(rows, |i: int| row_of(flat, cols, i))
}

/// The contents of a sequence of vectors.
pub open spec fn rows_view<T>(rows: Seq<Vec<T>>) -> Seq<Seq<T>> {
    rows.map_values(|v: Vec<T>| v@)
}

/// A `rows x cols` array whose entries are stored row after row.
pub struct Array2<T> {
    data: Vec<T>,
    rows: usize,
    cols: usize,
}

impl<T> Array2<T> {
    #[verifier::type_invariant]
    spec fn inv(&self) -> bool {
        self.data@.len() == self.rows * self.cols
    }

    /// The entries, row after row.
    pub closed spec fn flat(&self) -> Seq<T> {
        self.data@
    }

    pub closed spec fn spec_n_rows(&self) -> nat {
        self.rows as nat
    }

    pub closed spec fn spec_n_cols(&self) -> nat {
        self.cols as nat
    }

    /// The array as a sequence of rows.
    pub open spec fn view(&self) -> Seq<Seq<T>> {
        rows_of(self.flat(), self.spec_n_rows(), self.spec_n_cols())
    }

    /// Wraps `data` as a `rows x cols` array; `None` where the length is not `rows * cols`.
    pub fn new(data: Vec<T>, rows: usize, cols: usize) -> (r: Option<Self>)
        ensures
            r is Some <==> data@.len() == rows * cols,
            r matches Some(a) ==> a.flat() == data@ && a.spec_n_rows() == rows
                && a.spec_n_cols() == cols,
    {
        let ghost n = data@.len();
        if cols == 0 {
            if data.len() == 0 {
                Some(Array2 { data, rows, cols })
            } else {
                None
            }
        } else if data.len() % cols == 0 && data.len() / cols == rows {
            proof {
                vstd::arithmetic::div_mod::lemma_fundamental_div_mod(n as int, cols as int);
            }
            Some(Array2 { data, rows, cols })
        } else {
            proof {
                if n == rows * cols {
                    vstd::arithmetic::div_mod::lemma_div_multiples_vanish(rows as int, cols as int);
                    vstd::arithmetic::div_mod::lemma_mod_multiples_basic(rows as int, cols as int);
                    assert(rows * cols == cols * rows) by (nonlinear_arith);
                }
            }
            None
        }
    }

    /// The entries, row after row, giving up the array.
    pub fn into_flat(self) -> (r: Vec<T>)
        ensures
            r@ == self.flat(),
    {
        self.data
    }

    pub fn n_rows(&self) -> (r: usize)
        ensures
            r == self.spec_n_rows(),
    {
        self.rows
    }

    pub fn n_cols(&self) -> (r: usize)
        ensures
            r == self.spec_n_cols(),
    {
        self.cols
    }
}

/// Where `i < rows`, row `i` ends within the first `rows * cols` entries.
proof fn lemma_row_end(i: int, rows: int, cols: int)
    requires
        0 <= i < rows,
        0 <= cols,
    ensures
        0 <= i * cols,
        i * cols + cols <= rows * cols,
{
    assert(0 <= i * cols) by (nonlinear_arith)
        requires
            0 <= i,
            0 <= cols,
    ;
    assert(i * cols + cols <= rows * cols) by (nonlinear_arith)
        requires
            i < rows,
            0 <= cols,
    ;
}

impl<T: Copy> Array2<T> {
    /// The entries, row after row, as one vector.
    pub fn to_flat(&self) -> (r: Vec<T>)
        ensures
            r@ == self.flat(),
    {
        let mut out: Vec<T> = Vec::new();
        let mut k: usize = 0;
        while k < self.data.len()
            invariant
                k <= self.data@.len(),
                out@ == self.data@.subrange(0, k as int),
            decreases self.data@.len() - k,
        {
            out.push(self.data[k]);
            k += 1;
            assert(out@ =~= self.data@.subrange(0, k as int));
        }
        assert(out@ =~= self.data@);
        out
    }

    /// The rows, each as a vector of its own.
    pub fn to_rows(&self) -> (r: Vec<Vec<T>>)
        ensures
            rows_view(r@) == self@,
            forall|i: int| 0 <= i < r@.len() ==> (#[trigger] r@[i])@.len() == self.spec_n_cols(),
            r@.len() * self.spec_n_cols() <= usize::MAX,
    {
        proof {
            use_type_invariant(self);
        }
        let len = self.data.len();
        let mut out: Vec<Vec<T>> = Vec::new();
        let mut i: usize = 0;
        while i < self.rows
            invariant
                i <= self.rows,
                len == self.data@.len(),
                self.data@.len() == self.rows * self.cols,
                out@.len() == i,
                forall|k: int|
                    0 <= k < i ==> (#[trigger] out@[k])@ == row_of(
                        self.data@,
                        self.cols as nat,
                        k,
                    ) && out@[k]@.len() == self.cols,
            decreases self.rows - i,
        {
            proof {
                lemma_row_end(i as int, self.rows as int, self.cols as int);
            }
            let start: usize = i * self.cols;
            let mut row: Vec<T> = Vec::new();
            let mut j: usize = 0;
            while j < self.cols
                invariant
                    j <= self.cols,
                    len == self.data@.len(),
                    start + self.cols <= self.data@.len(),
                    row@ == self.data@.subrange(start as int, start + j),
                decreases self.cols - j,
            {
                row.push(self.data[start + j]);
                j += 1;
                assert(row@ =~= self.data@.subrange(start as int, start + j));
            }
            out.push(row);
            i += 1;
        }
        assert(rows_view(out@) =~= self@);
        assert(self.rows * self.cols == len);
        out
    }

    /// Reads `data` as rows of `cols` entries; `None` where `cols` is zero or does not
    /// divide the length.
    pub fn from_flat(data: Vec<T>, cols: usize) -> (r: Option<Self>)
        ensures
            r is Some <==> cols > 0 && data@.len() % (cols as nat) == 0,
            r matches Some(a) ==> a.flat() == data@ && a.spec_n_cols() == cols
                && a.spec_n_rows() == data@.len() / (cols as nat),
    {
        if cols == 0 || data.len() % cols != 0 {
            None
        } else {
            let rows: usize = data.len() / cols;
            proof {
                vstd::arithmetic::div_mod::lemma_fundamental_div_mod(
                    data@.len() as int,
                    cols as int,
                );
                assert(rows * cols == cols * rows) by (nonlinear_arith);
            }
            Some(Array2 { data, rows, cols })
        }
    }

    /// Joins rows of `cols` entries each into one array; `None` where a row has another
    /// length or the entries would not fit in memory.
    pub fn from_rows(rows: &Vec<Vec<T>>, cols: usize) -> (r: Option<Self>)
        ensures
            r is Some <==> (forall|i: int| 0 <= i < rows@.len() ==> (#[trigger] rows@[i])@.len()
                == cols) && rows@.len() * cols <= usize::MAX,
            r matches Some(a) ==> a.spec_n_rows() == rows@.len() && a.spec_n_cols() == cols
                && a@ == rows_view(rows@),
    {
        let mut i: usize = 0;
        while i < rows.len()
            invariant
                i <= rows@.len(),
                forall|k: int| 0 <= k < i ==> (#[trigger] rows@[k])@.len() == cols,
            decreases rows@.len() - i,
        {
            if rows[i].len() != cols {
                return None;
            }
            i += 1;
        }
        let total = rows.len().checked_mul(cols);
        if total.is_none() {
            return None;
        }
        let mut data: Vec<T> = Vec::new();
        let mut i: usize = 0;
        while i < rows.len()
            invariant
                i <= rows@.len(),
                rows@.len() * cols <= usize::MAX,
                forall|k: int| 0 <= k < rows@.len() ==> (#[trigger] rows@[k])@.len() == cols,
                data@.len() == i * cols,
                forall|k: int|
                    0 <= k < i ==> row_of(data@, cols as nat, k) == (#[trigger] rows@[k])@,
            decreases rows@.len() - i,
        {
            proof {
                lemma_row_end(i as int, rows@.len() as int, cols as int);
            }
            let row = &rows[i];
            let ghost before = data@;
            let mut j: usize = 0;
            while j < cols
                invariant
                    j <= cols,
                    row@.len() == cols,
                    data@.len() == i * cols + j,
                    data@.subrange(0, i * cols) == before,
                    data@.subrange(i * cols, i * cols + j) == row@.subrange(0, j as int),
                decreases cols - j,
            {
                data.push(row[j]);
                j += 1;
                assert(data@.subrange(0, i * cols) =~= before);
                assert(data@.subrange(i * cols, i * cols + j) =~= row@.subrange(0, j as int));
            }
            proof {
                assert(row@.subrange(0, cols as int) =~= row@);
                assert forall|k: int| 0 <= k < i + 1 implies row_of(data@, cols as nat, k)
                    == (#[trigger] rows@[k])@ by {
                    lemma_row_end(k, i as int + 1, cols as int);
                    if k < i {
                        lemma_row_end(k, i as int, cols as int);
                        assert(row_of(data@, cols as nat, k) =~= row_of(before, cols as nat, k));
                    }
                }
                assert((i + 1) * cols == i * cols + cols) by (nonlinear_arith);
            }
            i += 1;
        }
        let a = Array2 { data, rows: rows.len(), cols };
        assert(a@ =~= rows_view(rows@));
        Some(a)
    }
}

/// Splits `(i, j, value)` triples into a two-column array of the index pairs and a
/// vector of the values, in the same order.
pub fn split_pairs<V: Copy>(triples: &Vec<(u32, u32, V)>) -> (r: (Array2<u32>, Vec<V>))
    ensures
        r.0.spec_n_cols() == 2,
        r.0@.len() == triples@.len(),
        r.1@.len() == triples@.len(),
        forall|k: int|
            0 <= k < triples@.len() ==> (#[trigger] r.0@[k]) == seq![triples@[k].0, triples@[k].1]
                && r.1@[k] == triples@[k].2,
{
    let n = triples.len();
    let mut ids: Vec<u32> = Vec::new();
    let mut vals: Vec<V> = Vec::new();
    let mut k: usize = 0;
    while k < n
        invariant
            n == triples@.len(),
            k <= n,
            ids@.len() == 2 * k,
            vals@.len() == k,
            forall|m: int|
                0 <= m < k ==> ids@[2 * m] == (#[trigger] triples@[m]).0 && ids@[2 * m + 1]
                    == triples@[m].1 && vals@[m] == triples@[m].2,
        decreases n - k,
    {
        let (i, j, v) = triples[k];
        ids.push(i);
        ids.push(j);
        vals.push(v);
        k += 1;
    }
    let a = Array2 { data: ids, rows: n, cols: 2 };
    assert forall|m: int| 0 <= m < n implies (#[trigger] a@[m]) == seq![
        triples@[m].0,
        triples@[m].1,
    ] by {
        assert(row_of(a.data@, 2, m) =~= seq![triples@[m].0, triples@[m].1]);
    }
    (a, vals)
}

} // verus!
