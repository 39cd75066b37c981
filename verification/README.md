# dungeon_heroes

The rules of a small dungeon game built on the Ambient engine, verified with Verus.

- `src/hero.rs`, `src/skeleton.rs`: the hero and skeleton classes and their display names.
- `src/assets.rs`: hero animations and the model and clip paths built from class names.
- `src/messages.rs`: the action request and movement direction sent by clients.
- `src/client.rs`: how held keys become a movement direction and key events an action request.
- `src/server.rs`: how the server answers action requests and clicks, and steps a hero's locomotion countdown.
- `app/`: the Ambient server and client, which do the ECS work, the floating-point
  geometry and the I/O, and ask the library for each decision.
