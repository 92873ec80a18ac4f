# therminal_window

The window of a terminal that shows many panes: how its panes are split, moved,
zoomed and closed, how it follows a daemon that keeps panes alive, what the mouse
and the settings overlay do, and what each frame draws.

The library under `src/` is written in Rust and verified with Verus. An operation
changes the state and lists in `effects` what is to be done outside of it. Where it
needs an answer from outside, it ends with a value that says what to find out, and a
second operation takes the answer. `app/` is ordinary Rust around it: it does what
is asked for, with winit, wgpu, glyphon, tokio and the terminal emulator.

- `text`, `words`, `paste`, `shell`, `cwd`: texts, commands and directories
- `layout`, `layout_ops`: the tree of panes
- `ids`, `ipc`, `swarm_panes`: panes of the daemon and of agents
- `window`: the operations on panes, and the mouse
- `editor`: how a location is opened in an editor
- `render`, `frame`: what is drawn of a pane, and the passes of a frame
- `settings`: the settings overlay
- `term_flags`, `hotspot`: flags of the terminal, and marks on its cells

Contracts are stated over mathematical models of the state. What holds of the
operations together is stated as proof functions whose names begin with `law_`.
