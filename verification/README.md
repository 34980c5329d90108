# Robius

System features for applications, the same on every platform: authentication prompts, the camera,
file dialogs, the location, notifications, and opening URIs.

`src/` is a library verified with [Verus](https://github.com/verus-lang/verus). It holds what is
decided: what a notification is made of and what an interaction means, which session the location
portal needs next, which file name is free, what an error of the system means to an application. It
does no input or output. What takes several calls of the system is a state that names the next step
and is told what came of it.

| Module | About |
| --- | --- |
| `authentication` | policies, prompt texts, and what the systems answer |
| `camera` | how taking a photo goes on |
| `file_picker` | dialogs, filters, MIME types, file names, temporary copies |
| `location` | providers on every system, the callback queue, fixes, accuracy |
| `notifications` | options, histories, schedules, progress, and the five systems |
| `open` | URIs and who opens them |
| `bus`, `fnv`, `path`, `percent`, `sorted`, `table`, `text`, `time` | what the others share |

Files that end in `_laws.rs` hold what always holds of the modules next to them.

`app/` is ordinary Rust around the library: threads, D-Bus, dialogs, files and other programs on
Linux desktops. Layers for Android, iOS, macOS and Windows need those systems' own tools; the library
has what they decide.

`tests/` runs the library.
