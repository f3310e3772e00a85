# headroom_tray

The logic behind the windows of the Headroom tray — the popup with one card per account,
the first-run window, and the settings — written in Verus and proved against its contracts.
The library decides what is shown and what each gesture does; drawing is left to the
toolkit. The GTK/libadwaita code that builds the windows is not part of this repository:
`app/` holds only the parts that read the service's reports.

Layout:

- `src/` — the verified library, one module per concern:
  - `payload`: the state the Headroom service reports (accounts, limit windows, display and
    notification settings);
  - `found`, `welcome`: the first-run list and keeping it in step with new findings;
  - `popup`, `combined_row`, `menu`, `dwell`, `context`: the order of the popup's cards, the context menu of a
    card, opening a popover on hover, the refresh button;
  - `picks`, `thresholds`, `notify`, `sections`, `panel`, `service`, `release`, `shortcut`, `key_form`, `target`,
    `registry`, `support`, `marks`: the settings pages and the sign-in flows;
  - `text`, `i18n`, `choices`, `diagnostics`: text building, the message catalog, names and
    readings, and file paths.
- `tests/` — tests of the library on concrete values.
- `app/` — what talks to the outside world: reading the service's diagnostics report as JSON.

Each public proof function states a property that holds of all inputs (for example, that no
card of the popup shows twice, or that the shortcut dialog only ever saves a valid
accelerator); the functions' `ensures` clauses pin down their results.
