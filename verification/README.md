# paperclip_bridge

The verified core of a native, read-only bridge to a Paperclip server: it
signs the user in through Paperclip's browser-approved CLI challenge, keeps
the board token in the native keychain, and lists the company's agents and
projects.

- `src/` is the library, verified with Verus:
  - `text`: trimming, prefix and character-class rules on strings;
  - `connection`: normalisation of the server URL and company UUID, and the
    endpoint URLs (through the `url` and `uuid` crates);
  - `uuid_form`: the forms of a UUID that a company id may take, and its
    canonical lowercase hyphenated form;
  - `http`: the checks made of every response before its body is trusted;
  - `settings`: the saved connection settings;
  - `keychain`: the board token in the keychain (through `keyring`);
  - `commands`: status report, stored connection, disconnect plan, rosters;
  - `login`: starting a sign-in, checking the challenge, and the poll
    and cancel state machines with their laws.
- `app/` is the I/O shell: HTTP with `reqwest`, files with `tokio`, the serde
  forms of the values, and the background-process helpers. It runs the poll
  state machine, performing each action and reporting its outcome.
- `tests/` runs the library on concrete values.
