# opgame

The game-state logic of OPGAME, a third-person open-world game framework,
written in Verus with its behaviour stated in contracts and proved.

- `src/` is the verified library: the player's inventory and progression
  (`player`), missions (`mission`), vehicle occupancy (`vehicle`), the
  behaviour decisions of non-player characters (`npc`) and of combat
  (`combat`), sound and HUD switches (`sound`, `ui`), display-mode decisions
  and the resolution list (`display`), the choice of OpenGL configuration
  (`gl_config`), menu text (`menu`, `text`), text-image composition (`font`),
  mesh index handling (`model`), file-version rules and weather (`world`),
  setting defaults (`settings`) and random identities (`ids`).
- `app/` is the program around it: the window and OpenGL context, file and
  glTF loading, and everything that computes with floating-point positions,
  angles, health and time (camera, collision, physics, movement).
- `tests/` runs the library on concrete values.
