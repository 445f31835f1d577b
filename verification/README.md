# floating_ui

Positioning logic for floating elements such as tooltips, popovers and
dropdowns, written in Verus: the decisions are stated in `requires` / `ensures`
contracts and proved.

## Layout

- `src/` is the verified library.
  - `placement`: sides, alignments, axes and placements, and the placement
    combinatorics (opposites, expanded placements, side lists, alignment sides).
  - `auto_placement`, `flip`, `shift`, `size`, `offset`, `arrow`, `inline`:
    the decisions of each middleware (which placements are tried, in which
    order, what is reset, which sides limit the size, how lines are grouped).
  - `lifecycle`: the middleware loop of `compute_position` as a state machine,
    with its termination argument.
  - `middleware_data`: the data store shared between middleware, a map from
    names to JSON values.
  - `auto_update`, `move_observer`: which updates `auto_update` sets up and how
    its observers react.
  - `detect_overflow`, `viewport`, `clipping`, `offset_parent`, `coords`,
    `config`, `text`: the remaining decisions of overflow detection and of the
    DOM platform.
- `tests/` exercises the library on concrete values.
- `app/` holds what works on floating-point geometry and on the platform: the
  middleware implementations, `compute_position` and overflow detection. It
  calls the library for every decision.
