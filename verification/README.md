# vetis

The configuration, routing and request-decision logic of the VeTiS web server,
verified with Verus.

- `src/` is the verified library: the builders of listener, server, host, virtual-host,
  path, cache and TLS settings with the exact conditions under which they refuse a
  setting; basic authentication (`.htpasswd` parsing, `Authorization` header checks);
  the routing of a request to the path registered under the longest prefix of its path;
  the decisions of the static-file handler (index page, metadata, byte ranges, media
  types, the cache's settings); the default headers added to responses; ALPN protocol
  names and identifiers. Calls into `regex`, `minimime`, `radix_trie`, `base64`,
  `bcrypt`, `argon2`, `time` and `http` sit behind small unverified functions whose
  contracts Verus takes on trust; their doc comments say what each one claims.
- `app/` is the runtime around it: requests and responses over `hyper`, the service that
  finds a request's host, the listeners, the file cache of the static handler, the
  reverse proxy over `deboa`, the PHP worker over `ripht-php-sapi`, and settings read
  from files with `serde`.
- `tests/` exercises the library on concrete values.
