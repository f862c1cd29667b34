# oidc_auth

OpenID Connect in front of a control plane: the authorization-code flow with PKCE, sessions behind
an opaque cookie, and a group claim that decides who may pass. The decisions are written in Verus
and proved against their contracts.

- `src/` is the library. It touches neither store nor network: it names one action at a time and
  goes on from the outcome.
  - `flow` holds the routes `/login`, `/callback`, `/logout` and everything else; `landing` is the
    page of the control plane.
  - `provider`, `jwks` and `jwt` deal with endpoints, keys and identity tokens; `pkce` and `session`
    with what is kept between requests.
  - `text`, `form`, `json`, `http`, `util`, `crypto`, `error`, `config` and `action` are what those
    are made of.
  - `laws` states what holds of the flow as a whole.
- `app/` is the Spin component around it: variables, the key-value store, HTTP, and JSON.
- `tests/` runs the library with a store and a provider that exist in memory alone.

What the library takes on trust is marked where it stands: the calls into the crates for base64,
forms, JSON, digests, signatures and entropy, and a few functions of the standard library.
