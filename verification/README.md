# Onion Forum

The rules of a small self-hosted forum, written in Verus and proved correct: accounts,
categories, threads, replies and comments, CAPTCHAs, a limit on failed logins, tokens that guard
forms, sessions that expire, and the work of administrators.

- `src/` is the verified library. It does no I/O. Each request is a dialogue: a first step, and an
  `advance` from one reply of the database to the next step, until there is a response.
- `app/` is the web service around it: routes, SQLite, templates, CAPTCHA images and the clock.
- `tests/` runs the library, among other things against SQLite in memory.

## Layout of the library

| Module | What it holds |
|---|---|
| `text`, `markup`, `token`, `paging` | text, Markdown, slugs, tokens, pages |
| `clock`, `calendar` | the time, and dates as they are shown |
| `account`, `cookies`, `captcha`, `headers` | names and passwords, cookies, CAPTCHA numbers, headers |
| `store`, `sql`, `records` | commands to the database, their SQL, and what is read from replies |
| `pages`, `dialogue` | what pages show; steps, responses, and what a whole dialogue comes to |
| `index`, `thread`, `posting` | the front page, a thread, new threads, replies and comments |
| `login`, `session`, `admin`, `schema` | logging in and out, administration, making the database ready |
| `laws` | what holds across the forum |

Contracts speak of views: a type `XOf<T>` is used with `String` in executable code and with
`Seq<char>` in contracts. Proof functions whose names begin with `law_` state what the forum
promises.
