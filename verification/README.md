# umamurl

The request-handling logic of Umamurl, a URL shortener with Umami analytics,
written in Verus and verified.

- `src/` is the library. `access` decides who may use which endpoint (API key,
  session, public mode); `links` and `settings` decide what each endpoint answers
  once the link store has done its part; `analytics` plans the Umami event of a
  redirect; `login` checks and sets the administrator password with Argon2;
  `text` holds the string operations these rely on; `laws` states the properties
  that hold across endpoints.
- `app/` is the actix-web server around it: it reads requests, sessions and the
  database, calls the library, and sends what the library decided.
- `tests/` runs the library on concrete values.
