# sts2core

The rule kernel's data and pure rules for Slay the Spire 2, as a Verus-verified library:

* `state` — statuses, combatants (`Entity`), card instances and the combat random stream.
* `damage` — the single damage pipeline: card face value, attacker and defender
  multipliers rounded once, caps, block absorption, card block, Artifact.
* `ops` — effects as data (cards, powers, enemy moves, potions, enchantments) and the
  fixed move cycle of enemies.
* `content` — the content tables and the rules read from them (playability, random card
  generation, relic and enchantment lookups, curse-of-knowledge bookkeeping, hit points
  still to fight through).
* `json` — a dependency-free JSON reader for recorded traces, specified byte by byte.

Every executable function states its result in `ensures` over spec functions; the laws
the rules keep (caps, the move cycle, ordered objects, ...) are public proof functions.

`app/` holds what the verified library cannot: numbers as `f64`, objects as ordered maps
and a printable parse error.
