# unofficial-messenger-next

A desktop wrapper for Messenger Web built on Tauri. The crate is split in two:

- `src/` is a library verified with Verus. It holds every decision the app
  takes: reading the unread count from the page title, when the taskbar badge
  and the tray dot change, the 32×32 overlay icon with the count, which URLs
  load in the app and which go to the system browser, the checks before an
  image is copied to the clipboard, the settings, the start-with-Windows
  steps, the tray menu, and the update check / install state machine.
  Contracts are stated over `Seq`/`Option` models; the laws that relate
  several calls are proof functions named `law_*`.
- `app/` is the Tauri shell: windows, webview hooks, tray, file and network
  I/O, clipboard access and the platform cache clearing. It asks the library
  what to do and does it.

Calls into the `url`, `base64` and `image` crates stand behind small trusted
wrappers in `src/web_url.rs` and `src/clipboard.rs`; their results are named
by uninterpreted spec functions.
