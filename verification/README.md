# brayton

Design-point models of the simple recuperated and the recompression Brayton
cycles, built on the Twine modelling crates.

- `src/` is the verified library. It holds what the solvers decide before and
  around their thermodynamic work: the order in which each facade validates
  its input fields and the error reported for the first rejected one, the
  choice of thermodynamic model and fluid by name, the length check of batch
  state construction, the order of the recompression solver's input checks,
  the reaction of the bisection solvers to model failures, the errors of the
  recompression solver's nested models, the layout of the cycle states, and
  the texts of these errors and of the C interface's error replies. The
  range checks of the floating-point inputs themselves, the problem text of
  an out-of-range recompression fraction, and the contexts of thermodynamic
  model failures inside the solvers stay with the floating-point code.
- `app/` carries out the floating-point thermodynamics with `twine-models`
  (perfect gas and CoolProp), the plain-data facades, batch state
  construction and the Emscripten interface, calling the library for each of
  the decisions above.
- `tests/` exercises the library's functions on concrete inputs.
