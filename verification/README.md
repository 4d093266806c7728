# erolib: in-app login

Opens a login window, waits until the user is past the login page, captures the
session cookie and resolves who it belongs to.

- `src/` is the verified library: service adapters (`adapter`), judged cookie
  strings (`session`), addresses (`page_url`, `user_id`), the Pixiv login and its
  session (`pixiv_login`), the login flow as a state machine (`login_flow`) and
  what holds of all its runs (`flow_laws`), and the text functions that these
  stand on (`text`).
- `app/` is the window, the timers, the frontend event and the loop that drives
  the flow. Cookie capture and the Pixiv API come in through `window::Backend`.
- `tests/` runs the library with the real `url` crate.

One item is believed without proof: `page_url::parse_address`, which calls
`url::Url::parse`.
