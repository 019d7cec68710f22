# brian_desktop

The local-first core of the CORE desktop companion, verified with Verus.

`src/` is the library. Its functions carry `requires`/`ensures` contracts
that Verus proves, except the few trusted wrappers around outside crates
(named below), whose contracts Verus takes on trust:

- `kinds`, `models`, `contract`: record, event and link kinds with their wire
  strings; the rows of the local store; each record kind's allowed statuses,
  required payload keys and default payload.
- `widget_catalog`, `layout`, `desktop_layout`: the widget catalog (the mobile
  seed plus the desktop shell's widgets), grid clamping, the next free row,
  and the default workbench layout.
- `projections`, `sort`: the task queue, the timeline and the installed
  widgets, with a stable sort.
- `commands`: what each local command writes — record, change event and
  outbox item.
- `store`: what a record is written as, and how stored columns read back; the
  text of the store's queries.
- `drain`, `push`, `pull`, `sync_error`: the sync engine's decisions, as state
  machines that say which request to make next given the last reply, and the
  tally of what a pull applied, each fetched row counted once.
- `config`, `session`, `oauth`, `device`, `local_prefs`: Supabase settings,
  sessions, the PKCE sign-in flow and device registration.
- `companion`, `shell`, `mcp`: the Work Room panes' rules, the shell's health
  report, and the assistant's tool registry.
- `text`, `json`, `ids`, `time`: strings, JSON documents, UUIDs and instants.
  Parsing and printing JSON, UUIDs and RFC 3339 text, hashing, base64 and
  URL parsing are done by `serde_json`, `uuid`, `chrono`, `sha2`, `base64`,
  `url` and `urlencoding`, behind small trusted wrappers whose contracts say
  what those crates do.

`tests/` runs the library on concrete values.

`app/` is the unverified shell around the library: SQLite through
`rusqlite`, HTTP through `reqwest`, the keychain through `keyring`, the sync
loops on `tokio`, and the file system side of the Work Room.
