# up_tui

A terminal client for [Up Banking](https://up.com.au/): browse accounts as
tabs and their transactions, with a detail pane, day-by-day navigation,
colour themes and on-demand refresh.

The library in `src/` holds the client's logic with Verus contracts:

- `money` — amounts in cents and their display as dollars.
- `models` — the API's documents, accounts, transactions and paging.
- `client` — request URLs, the authorization header, pages built from responses.
- `config`, `theme` — the configuration and the colour themes.
- `state`, `handler` — the application state and how key presses and
  finished requests change it (the requests to make come out as values).
- `days`, `listing`, `detail` — day navigation, the transaction list and
  the detail pane.
- `laws` — properties relating several operations.

`app/` is the program around it: reading the configuration file, HTTP
requests, the terminal, and drawing.
