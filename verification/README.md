# dotfiles_tui

A terminal interface for setting up a dotfiles repository: it installs a
catalogue of developer tools, checks and creates the expected symbolic links,
previews and edits the configuration files, and shows what is present.

The library in `src/` holds every decision and is verified with Verus:

- `app` — the interface state, its invariant and its reaction to keys
  (`on_key`), plus the bookkeeping around installs, links and edits;
  `app_laws` states what holds across key presses.
- `tools`, `plans`, `installer` — the tool catalogue, what installing each
  tool takes on each system (a list of steps), and the machine that carries a
  plan out one outside request at a time; `installer_laws` states properties
  of runs.
- `status` — reading `/etc/os-release` (system detection and name) and where
  the home directory and the repository are.
- `symlink`, `config`, `view`, `tab`, `text` — links, configuration files,
  screen labels, tabs and string helpers.

`app/` is the program around it: the terminal, key events, running commands,
touching the file system and drawing with ratatui.
