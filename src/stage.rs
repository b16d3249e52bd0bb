use crate::error::{Error, LCMSResult};
use vstd::prelude::*;

verus! {

/// `g` to the power `n`.
pub open spec fn grid_pow(g: nat, n: nat) -> nat
    decreases n,
{
    if n == 0 {
        1
    } else {
        g * grid_pow(g, (n - 1) as nat)
    }
}

/// The entries of a lookup table with `g` points on each of `inputs` axes
/// and `outputs` values at each point.
pub open spec fn clut_entries(g: nat, inputs: nat, outputs: nat) -> nat {
    outputs * grid_pow(g, inputs)
}

/// With at least one point per axis, more axes never mean fewer entries.
pub proof fn lemma_grid_pow_grows(g: nat, i: nat, n: nat)
    requires
        g >= 1,
        i <= n,
    ensures
        grid_pow(g, i) <= grid_pow(g, n),
    decreases n,
{
    if i < n {
        lemma_grid_pow_grows(g, i, (n - 1) as nat);
        let p = grid_pow(g, (n - 1) as nat);
        assert(p <= g * p) by (nonlinear_arith)
            requires
                g >= 1,
        ;
    }
}

/// Checks the buffers of a matrix stage: the matrix needs `rows * cols`
/// values, given row by row, and an offset, where there is one, `cols`.
pub fn check_matrix(matrix_len: usize, rows: usize, cols: usize, offsets_len: Option<usize>) -> (r: LCMSResult<()>)
    ensures
        (matrix_len < rows * cols || (offsets_len matches Some(o) && o < cols)) ==> r == Err::<(), Error>(
            Error::MissingData,
        ),
        !(matrix_len < rows * cols || (offsets_len matches Some(o) && o < cols)) ==> r is Ok,
{
    match rows.checked_mul(cols) {
        None => {
            return Err(Error::MissingData);
        },
        Some(n) => {
            if matrix_len < n {
                return Err(Error::MissingData);
            }
        },
    }
    if let Some(o) = offsets_len {
        if o < cols {
            return Err(Error::MissingData);
        }
    }
    Ok(())
}

/// Checks a prefilled lookup table: it needs `grid_points` to the power
/// `input_channels`, times `output_channels`, entries.
pub fn check_clut(grid_points: usize, input_channels: u32, output_channels: u32, table_len: usize) -> (r: LCMSResult<()>)
    ensures
        table_len < clut_entries(grid_points as nat, input_channels as nat, output_channels as nat) ==> r == Err::<
            (),
            Error,
        >(Error::MissingData),
        table_len >= clut_entries(grid_points as nat, input_channels as nat, output_channels as nat) ==> r is Ok,
{
    let ghost g = grid_points as nat;
    let ghost total = clut_entries(g, input_channels as nat, output_channels as nat);
    if grid_points == 0 {
        proof {
            if input_channels > 0 {
                assert(g == 0);
                assert(grid_pow(g, input_channels as nat) == 0 * grid_pow(g, (input_channels - 1) as nat));
                assert(total == output_channels * 0);
            } else {
                assert(grid_pow(0, 0) == 1);
                assert(total == output_channels);
            }
        }
        if input_channels == 0 && (table_len as u64) < (output_channels as u64) {
            return Err(Error::MissingData);
        }
        return Ok(());
    }
    let mut acc: usize = output_channels as usize;
    let mut i: u32 = 0;
    assert(grid_pow(g, 0) == 1);
    while i < input_channels
        invariant
            g == grid_points,
            g >= 1,
            i <= input_channels,
            acc == clut_entries(g, i as nat, output_channels as nat),
            total == clut_entries(g, input_channels as nat, output_channels as nat),
        decreases input_channels - i,
    {
        proof {
            lemma_grid_pow_grows(g, i as nat, input_channels as nat);
            let a = grid_pow(g, i as nat);
            let b = grid_pow(g, input_channels as nat);
            assert(output_channels * a <= output_channels * b) by (nonlinear_arith)
                requires
                    a <= b,
            ;
            lemma_grid_pow_grows(g, (i + 1) as nat, input_channels as nat);
            let c = grid_pow(g, (i + 1) as nat);
            assert(output_channels * c <= output_channels * b) by (nonlinear_arith)
                requires
                    c <= b,
            ;
            assert(c == g * a);
            assert(output_channels * c == (output_channels * a) * g) by (nonlinear_arith)
                requires
                    c == g * a,
            ;
        }
        if acc > table_len {
            return Err(Error::MissingData);
        }
        match acc.checked_mul(grid_points) {
            None => {
                return Err(Error::MissingData);
            },
            Some(n) => {
                acc = n;
            },
        }
        i = i + 1;
    }
    if acc > table_len {
        Err(Error::MissingData)
    } else {
        Ok(())
    }
}

} // verus!
