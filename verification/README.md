# record

The verified core of a small messenger client (Discord for now).

- `src/` is the library, verified with Verus:
  - `auth`: platforms, credentials, the credentials file's line format
    (`Platform:token`) and the in-memory credential store, with the laws
    that reloading the file after `add` gives the store back, and so does
    reloading it after a removal where every line of the file holds a
    credential;
  - `secure`: the `secure-string` crate's `SecureString`, seen as the UTF-8
    bytes it holds;
  - `json_structs`: the documents of Discord's REST API and their
    conversion into the platform-independent `types`;
  - `discord`: the authorization header, the icons to cache, and the list
    conversions of the REST client;
  - `chat`: the chat page's navigation state and the images it shows;
  - `text`: character-level string operations.
- `app/` is the I/O around it: the credentials file, HTTP requests with
  `surf`, serde copies of the JSON structures, and the chat page's state.
- `tests/` exercises the library on concrete values.
