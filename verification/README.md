# loot_forge

The rules of a wave-survival game's loot, crafting, inventories and equipment,
as a Verus library whose functions carry proved contracts.

- `src/` — the verified library:
  - `rarity`, `crafting`: item rarities, crafting materials, affix families,
    affix rolls and the crafting operations on items;
  - `inventory`: items, the unbounded run inventory, the safe inventory of at
    most twenty items, and moves between them;
  - `equipment`: the main-hand slot, moves with the safe inventory, syncing
    the player's weapon and attribute bonuses;
  - `menus`: menu states, crafting actions and the menu texts;
  - `wave`, `animation`, `screens`, `messages`, `text`: wave counter, sprite
    frames, screen states, collision kinds and decimal text.
- `tests/` — tests of the library.
- `app/` — the Bevy side: resources, states, messages, timers and the
  floating-point parts (spatial index, tooltip placement, monster scaling).
