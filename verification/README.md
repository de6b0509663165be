# fj-issue

`fji` is an agent-first command line client for Forgejo issues: every result
is one JSON value on stdout, every failure one JSON object on stderr, with the
exit codes 1 (usage), 2 (HTTP, partial or uncertain write), 3 (not found) and
4 (blocked or conflict).

The crate is verified with Verus.

- `src/` is the library, every function of it verified:
  - `text`: trimming, splitting and searching character sequences, decimal
    numbers;
  - `config`: issue references (`N`, `#N`, `owner/repo#N`), repository names,
    host normalization (HTTPS only, loopback HTTP for tests), git origins, and
    the resolution of host, repository and token;
  - `cli`: the checks of each command line;
  - `error`: the errors, their exit codes and the report written for each;
  - `model`: the JSON shapes of results, and RFC 3339 times;
  - `client`: what the client decides between requests (projections,
    assignees, labels, paging, dependency writes, the steps of `create`, and
    the error each API failure becomes);
  - `laws`: properties that span these functions.
- `app/` is the program: argument parsing, environment, files, the git
  subprocess, the HTTP requests and the JSON output.
- `tests/` runs the library on concrete values.
