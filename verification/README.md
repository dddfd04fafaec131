# tauri-plugin-livekit-mobile

A Tauri v2 plugin that bridges a WebView-hosted call to a native LiveKit room
on Android and iOS. The bridge validates basic input, forwards time-bounded
invocations to the native plugins, and delivers native snapshots to the
webview that owns the call.

Layout:

- `src/` — the verified library (Verus): the bounded failure and connection
  vocabularies (`models`, `error`), text and request validation (`text`,
  `validation`), and the bridge's decisions between native invocations
  (`bridge`): which requests reach the native side, how a timed-out connect
  is reconciled, and which webview owns the snapshot events.
- `app/` — the Tauri plugin around it: serde shapes of the models, the
  command queue and actor, the native plugin invocations, and the Tauri
  commands.
- `tests/` — tests of the library.
