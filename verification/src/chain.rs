//! Element-wise evaluation of an option chain given as parallel columns.
//!
//! A chain is four columns of equal length (for a pricing call: forwards or
//! spots, strikes, volatilities and expiries; for an implied-volatility call:
//! prices, forwards, strikes and expiries). Row `i` of the result is the
//! model evaluated on row `i` of the columns.

use vstd::prelude::*;

verus! {

/// The columns of a chain do not all have the same length.
#[derive(Debug, Clone, Copy, PartialEq, Eq, Structural)]
pub struct LengthMismatch;

/// The four columns have one common length.
pub open spec fn same_length<A>(a: Seq<A>, b: Seq<A>, c: Seq<A>, d: Seq<A>) -> bool {
    b.len() == a.len() && c.len() == a.len() && d.len() == a.len()
}

/// Evaluates `f` on every row of the chain `(a[i], b[i], c[i], d[i])`.
///
/// The length of `a` is the length of the chain; when any other column has
/// another length the chain is refused with [`LengthMismatch`] and `f` is
/// not called. Otherwise row `i` of the result is what `f` returned on row
/// `i`, and the result has one row per row of the chain.
pub fn run_chain<A: Copy, B, F: Fn(A, A, A, A) -> B>(
    a: &[A],
    b: &[A],
    c: &[A],
    d: &[A],
    f: F,
) -> (res: Result<Vec<B>, LengthMismatch>)
    requires
        same_length(a@, b@, c@, d@) ==> forall|i: int|
            0 <= i < a@.len() ==> #[trigger] f.requires((a@[i], b@[i], c@[i], d@[i])),
    ensures
        res is Err <==> !same_length(a@, b@, c@, d@),
        res matches Ok(out) ==> {
            &&& out@.len() == a@.len()
            &&& forall|i: int|
                0 <= i < a@.len() ==> f.ensures(
                    (a@[i], b@[i], c@[i], d@[i]),
                    #[trigger] out@[i],
                )
        },
{
    let n = a.len();
    if !(b.len() == n && c.len() == n && d.len() == n) {
        return Err(LengthMismatch);
    }
    let mut out: Vec<B> = Vec::with_capacity(n);
    let mut i: usize = 0;
    while i < n
        invariant
            n == a@.len(),
            same_length(a@, b@, c@, d@),
            forall|j: int| 0 <= j < a@.len() ==> #[trigger] f.requires((a@[j], b@[j], c@[j], d@[j])),
            i <= n,
            out@.len() == i,
            forall|j: int|
                0 <= j < i ==> f.ensures((a@[j], b@[j], c@[j], d@[j]), #[trigger] out@[j]),
        decreases n - i,
    {
        let r = f(a[i], b[i], c[i], d[i]);
        out.push(r);
        i = i + 1;
    }
    Ok(out)
}

} // verus!
