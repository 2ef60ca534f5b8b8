# tws — terminal weather station

Weather shown as text pictures in a terminal, in four modes (full,
minimalist, data, art).

- `src/` is the library, verified with Verus: WMO condition names, wind and
  cloud categories, the derived weather data, the character pictures (grid
  writing, backgrounds, indicators, particle characters and counts), the
  screen layout of each mode, the information listing and the key commands.
  Measurements enter as `Figure`s: how they compare with whole numbers
  (`Level`) and their decimal renderings.
- `app/` is the program around it: the command line, the Open-Meteo
  requests, and the parts of the pictures computed in floating point
  (particle motion, cloud shapes, the thermal bloom, colour interpolation).
- `tests/` exercise the library on concrete values.
