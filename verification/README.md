# clash_verge

The verified core of a portable desktop client for the Mihomo proxy core,
written in Verus.

`src/` is the library; each public function carries a contract that Verus
proves:

- `path`: paths as a root plus component names, and their display strings.
- `dirs`: where configuration, profiles, logs, icons, keys and the core's
  socket live, in the portable `Data/app` layout and in the installed one.
- `portable`: the WebView2 data directory and the start-up plan that merges
  the directories of earlier layouts into `Data/app` and `Data/webview`.
- `window_state`: when saved window geometry is restored, moved or centred.
- `network`: the system proxy as the front end sees it, the host name,
  interface selection, and the set-up and retry of the HTTP requests.
- `service`, `lifecycle`: the refused service commands and the core's
  start/stop decisions.
- `text`: decimal rendering, trimming and file-name matching.
- `external`: the calls into std, `getrandom` and `serde_yaml_ng` whose
  contracts are taken on trust.

`app/` is the program around it: the runtime, the file system, the network
and the operating system's settings. `tests/` exercises the library.
