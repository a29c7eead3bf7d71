# OpenClips

A game clip recorder: it keeps the last seconds of play in memory and writes
them to a file when a hotkey is pressed. This crate holds what the recorder
decides, with contracts that Verus proves; `app/` is the program around it.

| Module | What it decides |
| --- | --- |
| `engine` | what capture does next: starts, fallbacks, restarts, recordings |
| `sink` | where each frame goes, and when a recording continues in a new file |
| `pipeline`, `encoders`, `playback` | how a pipeline is put together and what its messages mean |
| `linux` | displays, audio devices, processes and the screen sharing portal |
| `library` | the index of the clips, the gallery and the background work on it |
| `settings`, `config` | the settings, the page that shows them and what a change calls for |
| `games`, `steam` | which game runs, its icon and its name |
| `hotkeys`, `discord`, `i18n`, `updater` | global shortcuts, presence, translations, updates |
| `ui`, `player`, `toast` | what the window shows and what an event changes |
| `startup`, `instance`, `bootstrap`, `crash`, `shell`, `platform` | the edges of the operating system |
| `text`, `paths`, `numbers`, `lists`, `error` | what the others are written with |

The contracts speak of mathematical models: texts are sequences of characters,
the engine is a `Session` whose operations are functions from state to state,
and `engine::laws` states what holds of every session.

Calls into other crates stand behind small functions whose contracts are not
proved: `chrono` writes dates, `serde_json` reads catalogs and release
descriptions, `sha2` hashes installers, `global-hotkey` knows the key codes.
Each of them says in its doc comment what is taken on trust.

The window, the media pipelines and the ring of encoded frames are not part of
this crate. A capture backend supplies them through the traits in
`app/backend.rs`.
