# wpp-desktop

The native shell around the WordPuppi web admin: a window with the admin in a
frame, a terminal dock below it, a menu bar and a self-updater.

The library (`src/`) holds what the shell decides, each function with a contract
that Verus proves:

| module | what it decides |
| --- | --- |
| `navigation` | which links leave the window for the user's browser |
| `update`, `update_laws` | the course of an update check, background or requested |
| `terminal`, `terminal_laws` | starting, replacing and ending the dock's session, and which exits are reported |
| `command` | the login shell's command line |
| `workspace` | the directory that the dock opens in |
| `path` | resolving one path against another, on Unix and elsewhere |
| `menu` | where the shell's entries go in the menu bar and what they do |
| `dev_backend` | the local backend of debug builds |
| `lifecycle` | startup, the run loop's events, the clock of the update checks |
| `text` | comparing and assembling text |

Conversations with the outside (an update check, the start of a session) are
state machines: a step takes the reply to the last effect and returns the next
effects. The application (`app/`) performs them: windows, dialogs, processes,
terminals and files.
