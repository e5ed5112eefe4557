# game_core

The logic of a small Godot shooter, verified with Verus.

- `src/node_pool`: a pool of reusable nodes, told apart by their Godot
  `InstanceId` and grouped by lifecycle state; it follows the state changes
  its nodes signal.
- `src/projectiles`: the crystal projectile's state machine and the effects
  each transition asks of the engine.
- `src/entities`: player health, damage, firing and movement decisions; the enemy.
- `src/movement_controller.rs`: which game action each key stands for, and the
  key states after a poll of the keyboard.
- `app/`: the Godot classes. They read the engine, hand plain values to the
  library and carry out what it answers.
