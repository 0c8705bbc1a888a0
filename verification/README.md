# raycast_car

Control logic of a small driving game built on Bevy and Avian physics, as a
verified library.

- `src/input.rs`: the keys the game reads in one frame (`KeyboardState`).
- `src/forcer.rs`: driving events from the keys, tire steering, and the
  per-car plan of which tires push on the car in a physics step, with the
  laws that tie them together.
- `src/character.rs`: velocity nudges, live tuning of the suspension spring
  and respawning.
- `app/`: the Bevy program around the library: plugins, components, systems
  that read the keyboard and the physics world, and the floating-point force
  and camera maths.
