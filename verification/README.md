# hmk

Rules of the HMK roleplaying system as a verified library: success tests,
opposed and value tests, mastery and effective mastery levels, injuries,
shock, armour protection and layering, weapon modes and missile ranges,
initiative order, the calendar and sunsigns, and the character sheet.
Verus proves each function against its `requires`/`ensures` contract.
Where dice decide, the function that rolls them states what holds whatever
they show, and a companion function that takes the dice as arguments
(`resolve_attack`, `injure_with`, `apply_shock`, `success_test_with`,
`locate`, ...) states exactly what each roll gives; only the die roll
itself, in `dice`, is taken on trust.

Layout:

- `src/` — the library, one module per subject:
  `core_rules` (tests, skills, attributes, mastery levels),
  `being` (bodies, hit locations, injuries, shock, combat),
  `item` (weapon modes, items, inventories, missile bands),
  `armor`, `weapons`, `armory`, `beastiary` (layered armour, weapons,
  stock suits, non-player characters), `date` (calendar and sunsigns),
  `initiative`, `sheet` (the character sheet), `text` (numerals and
  padding), `limits` (checks that a test, a sheet or an attack stays within
  the arithmetic of the rules), `ranking` (how injuries compare) and `dice`
  (the one place where chance enters).
- `tests/` — tests of the library on concrete values.
- `app/` — the command line: reading and writing sheets and item files,
  menus, and printing.
