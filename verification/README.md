# antiafk

The decision logic of AntiAFK-RBX-Sober, a Wayland helper that keeps Sober
(Roblox) sessions active, written in Verus and verified.

- `src/` is the verified library. `state` holds the settings and the runtime
  status; `backend` the preflight check; `supervisor` the process watch loop
  and the runner outcome; `scopes` and `procs` the CPU capping of the game's
  systemd scopes and the parsing of `/proc/<pid>/cgroup` and `pgrep` output;
  `focus` the focused-window check, step by step; `config` the repair of settings files that
  hold both `stealth` and `hides_game`; `ui` what the window shows and how its
  controls change the settings; `text` the string functions they share.
- `app/` runs the commands, reads and writes files, talks to uinput, D-Bus
  and GTK, and hands what it saw to the library.
- `tests/` runs the library on concrete values.
