# opengreeks

Fast option pricing and Greeks (Black-76, Black-Scholes, Black-Scholes-Merton)
for Python, with the discrete decisions of the library verified by Verus.

- `src/` — the verified crate: the option type and how a flag is read
  (`option_type`), how implied-volatility failures are reported (`iv_error`),
  and the row-by-row evaluation of an option chain (`chain`).
- `app/` — the floating-point models (error function, normal distribution,
  pricing, Greeks, implied-volatility solver) and the PyO3 / NumPy bindings of
  the `_opengreeks` extension module, built on the verified crate.
- `tests/` — tests of the verified crate.
