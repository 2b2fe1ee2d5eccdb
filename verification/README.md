# hideseek

The rules and state of a Hide & Seek game in the style of Jetlag: The Game,
verified with Verus, and the Dioxus web app around them.

- `src/` — the verified library: form rules (game codes, joining, hosting,
  naming maps, zones typed by hand), the map editor's boundary, transit-route
  selection and step order, the radar question panel, the hider's cards, the
  state machines of the map-creation form and the transit page, page paths, and
  the browser scripts the pages run.
- `tests/` — tests of the library on concrete values.
- `app/` — the Dioxus components, the router and the server entry point; they
  call the server's API and hand the library plain values.
