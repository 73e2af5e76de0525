# trackfolio

A terminal book of US T-Bills and USD/EUR deposits: capital, weighted yield
and interest projections (day, week, month, year), with adding, editing and
two-stage deleting of positions.

## Layout

- `src/` is the verified library (Verus):
  - `decimal` exact decimals, computed by `rust_decimal`;
  - `date` calendar dates, parsed and printed by `chrono`;
  - `json` reading values that `serde_json` parsed, by key and by shape;
  - `model` positions and the book;
  - `calc` current values (daily compounding of deposits) and projections;
  - `fx` Frankfurter request addresses, answer parsing, EUR conversion;
  - `format` money and percentage text;
  - `overlay` the add/edit form, its validation and the position it builds;
  - `ui` the application state and what each key does;
  - `screen` the texts that the screen shows;
  - `laws` properties of the library as a whole.
- `app/` is the terminal program: files, network requests, drawing.
- `tests/` exercises the library on concrete values.

Deposits grow as `principal * (1 + yield/100/365)^n`, `n` being the whole
days since the start date; other kinds stay at their nominal. EUR amounts are
converted once, at entry, and the rate and its date are kept with the position.
