# webserver

A generalised webserver for hosting static website files, with optional HTTP
Basic authentication. The decisions it makes are verified with Verus.

- `src/` is the verified library:
  - `path.rs`: paths as sequences of components; component-wise prefix tests and
    joining a request path below the site directory.
  - `state.rs`: the authorization modes, the serving context, and the loading of
    the YAML configuration as a step function (the caller does the file work). A
    missing config file is replaced by the default one; then, for the config read or the
    default one alike, a missing site directory is created and a missing
    not-found page written.
  - `auth.rs`: HTTP Basic authentication of an `Authorization` header value, and
    the decision on every request under the configured mode.
  - `www.rs`: the resolution of a GET request to a file under the site directory
    (or the not-found page, with 404), as a step function, and the response
    headers; a file that cannot be opened or measured is answered with 500.
  - `server.rs`: the server's settings.
- `app/` is the binary: argument parsing, the filesystem and YAML work, the axum
  router and the network loop.
- `tests/` run the library on concrete values.

Configuration (`config.yml`, generated if it does not exist):

```yaml
site: './www'
not_found_file: './www/not_found.html'
auth: !Basic
  username: "Dr. Evil"
  password: "unhackable"
```
