# Solar Navigator

A 3D solar-system navigator. Planet and moon positions come from NASA/NAIF
SPICE kernels when they are present, from simple fallback orbits otherwise,
and are cross-checked against JPL Horizons.

- `src/` is the library, verified with Verus: the target catalogues and the
  choice of position source (`ephemeris`), the Horizons request and the
  reading of its response (`horizons`), the Horizons sync schedule and its
  reports (`sync`), the date-picker calendar (`calendar`), the body catalogue and
  search (`bodies`), texture selection (`textures`), the window icon
  (`icon`), trails (`trails`), status texts
  (`labels`), the procedural generator (`rng`) and the text primitives they
  share (`text`).
- `tests/` exercises the library.
- `app/` is the Bevy application: rendering, input, the camera, file and
  network access, the SPICE calls and the floating-point orbit models.
