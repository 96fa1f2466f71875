# firewall_api

The decisions of a firewall API service, verified with Verus: validating
ban-check and unban requests, building the storage key of a ban target,
interpreting the ban store's TTL replies, checking the API key, and judging
the executors' answers to forwarded requests.

- `src/` is the verified library.
- `app/` is the service around it: configuration, the Redis ban store, the
  HTTP clients of the executors and the actix-web server.
- `tests/` runs the library on concrete values.
