# kiosk-browser

A kiosk browser that loads a URL in a locked-down window and blocks system
keyboard shortcuts (Win, Alt+Tab, Alt+F4, ...) so that users cannot leave it.

`src/` is the verified library: the shortcut names and their parsing, the
resolution of the command line into the set of shortcuts to block, the rule
that decides when a key press performs a blocked shortcut, and its three
platform backends (the evdev key filter, the X11 grab list, the Windows
low-level hook decision), plus the download file name and the target URL
check. `app/` runs the program: command line, window, devices, threads.

- `keys.rs`, `key_set.rs`: shortcuts, names, aliases, the blocked set.
- `shortcut.rs`: the platform-independent blocking rule.
- `evdev_filter.rs`, `x11_grabs.rs`, `windows_hook.rs`: the backends.
- `window.rs`: the close button address and the close protection.
- `guard.rs`, `download.rs`, `launch.rs`, `cli.rs`, `text.rs`: the rest.
