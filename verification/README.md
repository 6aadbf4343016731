# sim — the verified core of a deterministic space-trading simulation

`src/` is a Verus library: the integer logic of the simulation, each public
function with a contract, and the laws noted below proved as public proof
functions or as clauses of those contracts.

- `ids`, `cargo`, `structure`, `doctrine` — identifiers and small vocabularies.
- `rng` — the SplitMix64 stream and its keyed sub-streams (FNV-1a tags),
  with a closed form for the draw after `k` calls and a proof that the first
  draw is one-to-one in the seed.
- `ship`, `module` — hull tables, fitting budgets, size buckets, the
  regime a fleet wants, the drive state machine and its tick (a regime
  changes only by way of thrusters);
  canonical loadouts, their fitting cost (unchanged by canonicalisation,
  additive over lists) and their wire key (parse ∘ print is the identity).
- `roster` — a formation's hulls in id order: adding, absorbing, detaching
  (fitted first), refitting and removing (unfitted first). A split hands
  over whole hulls: taken and kept together are exactly the roster's hulls
  (as a multiset), and every count is conserved across a split and a merge.
- `production`, `specialist`, `node`, `pirate`, `operation`, `migration`,
  `standing`, `syndicate`, `sites`, `lane`, `nebula`, `rankings` — tables,
  wire slugs and the small rules around them.
- `research` — the programme catalog, tier gates, costs, and the ladder rule
  deciding what a syndicate may research next.
- `market` — matching a call-auction book at one candidate price, and
  ranking the candidate prices (most volume, then least imbalance, then
  lowest price).
- `tactical` — rules versions, the first kernel's frozen stream, the battle
  fingerprint, and the battle archive, generic over a deterministic kernel
  described by spec functions: reconstruction and keyframe slices are exact
  replays of the recorded inputs, a whole recording reconstructs the live
  battle, and a changed steering seed changes the fingerprint.

`app/` holds the floating-point side: hull and weapon tables, formation
speed, mass, power and damage, the research clock and modifiers,
leaderboard assembly, nebula fields, intercept geometry, the auction's
candidate prices and order willingness, and serde twins of the wire types.
The lane network and the tactical kernel itself are not part of this crate;
the archive works with any kernel that implements `TacticalKernel`.

`tests/` exercises the library on concrete values.
