# lau-complex-analysis

Complex analysis for agents: holomorphic functions, contour integration,
residue calculus, Riemann surfaces, Möbius maps, harmonic and entire
functions, Julia/Mandelbrot sets and potential theory.

## Layout

- `src/` — the verified library (Verus). It holds everything of the library
  that is exact rather than floating-point:
  - `riemann_surface`: `Sheet`, `Monodromy` (sheet permutations: identity,
    transpositions, composition, application, identity test), the Euler
    characteristic χ = 2n − b and the genus g = (2 − χ)/2, with proved laws
    (composition is associative and has the identity as neutral element, a
    transposition is its own inverse, permutations are closed under
    composition, the genus recovers g from χ = 2 − 2g).
  - `agent_complex`: `ReasoningMode`, `BoundaryClassification`, and
    `record_membership`, which decides what an agent records and reports
    once the membership of its position in a Julia or Mandelbrot set is known.
  - `residue::SingularityType`, `julia::FixedPointType`.
- `app/` — the numerical routines, which compute with `f64` and
  `num_complex::Complex64` (contours and integrals, residues, Möbius maps,
  harmonic functions, entire functions, iteration of z² + c, logarithmic
  potentials, the `AgentComplex` API). They use the verified types and
  functions above.
- `tests/` — tests of the verified library.
