# spaghetti_engine

The game logic of a small 3D action game, written in Verus and proved against its
contracts: the entity registry and its sparse sets, the player and enemy state
machines, hit resolution, weapon abilities and attack chains, enemy rounds, and the
text formats the game reads (level grids, skeletons with their clips, skinned
models, shader files).

- `src/` is the verified library. Each public function states in `ensures` what it
  returns or changes; the `lemma_*` proof functions state the laws that hold across
  calls (what a read gives back of a write, that hits are hostile and counted once,
  that an attack chain comes round, and so on).
- `tests/` runs the library on concrete values.
- `app/` is the program around it: it reads and writes files, parses the JSON
  configuration files, and hands the library plain values.

The few calls into other crates (`rand` for random draws, `image` for decoding and
encoding pictures, and parts of std that the verifier has no specification for) go through
small trusted wrappers whose doc comments say what is assumed of them.
