# hover_pill

Hover Pill is a small 3D game: the player steers a pill-shaped craft that can hover while it
has fuel, must avoid red walls and reach the green goal, and moves through the levels in a
fixed order. A level editor lets levels be built, tested and saved.

- `src/` is the verified library: the rules of the game, with contracts proved by Verus.
  - `level_order`: which level follows which.
  - `controls`, `mouse`, `player`, `pause`, `hover`: how inputs, pausing and hovering work.
  - `collision`, `wall`, `fuel_ball`: what touching walls and fuel balls does.
  - `load_level`, `next_level`, `main_menu`, `ui`: loading levels and moving between screens.
  - `level_editor`: the editor's modes, its panel's buttons, spawning and deleting level items
    and keeping every entity's index into the level consistent.
  - `mesh`: the triangle lists of cone and cylinder meshes, proved to close each surface with
    one consistent winding.
- `tests/` runs the library on concrete inputs.
- `app/` is the Bevy program around the library: rendering, physics, input, files and the
  floating-point geometry.

`bevy_atmosphere_macros` is listed in `Cargo.toml` only to hold it at 0.2.0: `bevy_atmosphere`
0.6.0 accepts any 0.2 release of it, and 0.2.1 no longer builds against Bevy 0.10.
