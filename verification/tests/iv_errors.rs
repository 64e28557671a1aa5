use opengreeks::{iv_err, ErrorKind, IvError};

#[test]
fn out_of_bounds_quotes_are_value_errors() {
    let r = iv_err(IvError::BelowIntrinsic);
    assert_eq!(r.kind, ErrorKind::ValueError);
    assert_eq!(r.message, "price is below intrinsic value");
    let r = iv_err(IvError::AboveMaximum);
    assert_eq!(r.kind, ErrorKind::ValueError);
    assert_eq!(r.message, "price exceeds theoretical maximum");
}

#[test]
fn non_convergence_is_a_runtime_error() {
    let r = iv_err(IvError::NotConverged);
    assert_eq!(r.kind, ErrorKind::RuntimeError);
    assert_eq!(r.message, "IV solver failed to converge");
}
