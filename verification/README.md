# Veyra

A spatial Wayland compositor: one monitor, and a desktop in three
dimensions to travel through. Windows stay where they are put, and the
camera goes to them.

## What is here

`src/` is the decision core, verified with Verus. It holds the windows and
their life, keyboard and pointer focus, workspaces, groups, the camera's
modes, maximizing and fullscreen, client resizes, menus, the taskbar, the
render loop, outputs and the assignment of displays, the configuration and
what is saved of a session.

`app/` is the program around it: the Wayland protocols, drawing, display
devices, files and all geometry in floating point.

`tests/` runs the library.

## How the core is stated

Each type has a mathematical model, reached by `@`. A handler of
`LookingGlass` says in its contract which model follows which; the
transitions are spec functions on `GlassModel`. What relates several of
them is stated as a proof function whose name begins with `law_`.

- Numbers of the geometry are carried as the bit patterns of their floats
  and never computed with, so a pose or a camera that is saved comes back
  bit for bit.
- Work outside the core leaves through `take_effects`, in order, and comes
  back as arguments: what is under the pointer, what became of a frame,
  which configure was acknowledged.

`src/compositor/` holds the handlers and, in the files that end in `_laws`,
what is promised across them.
