# eal_leptos_web

The Embedded Alerts user dashboard: a server-rendered read and interest-preview
surface over the Embedded Alerts API.

- `src/` is the verified library (Verus). It validates interest previews
  (trimmed interest of 3 to 2,000 characters, finite threshold in `[0, 1]`,
  limit in `1..=50`, never an alert-rule revision), gathers the API's answers
  into one dashboard page with one error line per failed call, and builds the
  text of every card: service health, source boundaries, page revisions,
  candidates, preview results, and the semantic console's source, rule and
  candidate cards. Scores are held as `f32` bit patterns and clamped on those
  bits; UUID text comes from the `uuid` crate and minute-precision UTC labels
  from `chrono`.
- `app/` is the web server: configuration, the HTTP client for the API, JSON
  decoding, Leptos markup, float percentages, and the Axum routes.
- `tests/` runs the library on concrete values.
