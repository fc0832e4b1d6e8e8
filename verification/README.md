# stellui

A terminal planetarium: an all-sky map, a field-of-view view, a solar-system
view, a 24-hour almanac and a weather outlook with an observing rating.

- `src/` is the verified library. It holds what the program decides without
  floating-point astronomy or the terminal: the keyboard state machine
  (`controls`, with its laws), typed dates read in UTC and time-zone names
  (`clock`, through chrono and chrono-tz), the seeing rating of forecast
  hours (`weather`), configuration paths and command-line overrides (`config`),
  clock-speed presets and form types (`app`), and display rules (`ui`,
  `image_render`, `sky`).
- `app/` is the program around it: terminal, clock, network, configuration
  file, the astronomy engine and all floating-point geometry.
- `tests/` runs the library on concrete inputs.

## Keys

The keys follow the program's own keybinding table: Space toggles live mode
(leaving it holds the clock), `l` and `o` edit latitude and longitude (`L`
opens the location list), and `t` edits the date and time, read in UTC. `T`
edits the date and time too, on every tab. The almanac's list of rise and set
times therefore has no key of its own (`t` edits the date and time on the
almanac tab as on every other), so the almanac shows its legend.
