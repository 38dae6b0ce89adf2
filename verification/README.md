# compass

The logic of the Compass stock-chart application as a verified library:
the functions in `src/` carry `requires` / `ensures` contracts that Verus
proves. The few calls into std and outside crates (clock reads, `Duration`
arithmetic, lower-casing, icon constants, the local time stamp) sit behind small trusted wrappers whose contracts are believed, not
proved.

## Layout

- `src/text.rs` — string helpers (Unicode trimming, prefix / suffix /
  substring tests, code-point order) and their specifications.
- `src/filter.rs` — the screener filter AST and its mathematical view.
- `src/screener_builder.rs` — the condition-card builder: filter → cards,
  cards → filter, and the round-trip laws between them.
- `src/screener.rs` — the screener panel state: default cards, restore,
  merging a generated filter, the natural-language request bookkeeping.
- `src/llm_screener.rs` — the model prompt and code-fence stripping.
- `src/i18n_name.rs` — choosing the Chinese or English data name.
- `src/tabs.rs` — dock tabs, their title keys, icons and panel ids.
- `src/modal.rs`, `src/toast.rs`, `src/searchable_dropdown.rs` — widget
  state: the confirmation dialog, the capped toast queue, the stock picker
  with its sorted, case-insensitive search.
- `src/config.rs`, `src/watchlist.rs`, `src/log_export.rs`,
  `src/feedback.rs`, `src/shortcuts.rs`, `src/chart.rs`, `src/session.rs` —
  settings,
  the sorted watchlist, the log export text, fetch toasts, keyboard
  shortcuts, the chart overlay cache, the startup guide and confirmed
  watchlist removal.
- `src/market.rs`, `src/sepa.rs`, `src/index_snapshot.rs` — the market
  overview ranking, the SEPA table and building the index snapshot.
- `src/fetch.rs`, `src/toolbar.rs`, `src/card_params.rs` — routing a bar
  fetch and the worker's answer, the toolbar's fetch / theme / language
  decisions, and the card parameter editors' dropdown mappings.
- `tests/` — tests on concrete values.
- `app/` — the program around the library: configuration file I/O, the
  JSON form of filters (and the float text of an unrecognized filter
  node), and egui drawing of toasts and dialogs.
