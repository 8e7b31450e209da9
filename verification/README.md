# rust-socialite

OAuth2 and OpenID Connect sign-in for many providers (Google, GitHub, Apple,
X, Okta, Auth0, Cognito, any discovered OpenID Connect issuer, and more),
written in Verus: the library's contracts state what each provider sends and
what it makes of each answer, and Verus proves the code meets them. Where an
answer goes through an outside crate (JSON and Base64 decoding, the key set,
ID token and client secret checks), the contracts speak of that crate's result
by name, and say what the crate's source shows of it. An ID token is taken
only where its signature checks out against the provider's key with the id
its header names, and its claims fit the client and issuer; its expiry, which
rests on the clock, and which random values a PKCE pair or a client secret
gets, are left unstated.

## How a sign-in runs

A provider performs no I/O. `get_user`, `get_user_with_pkce`,
`get_user_from_token` and `refresh_token` return a `Step`:

- `Send(flow, request)`: send the HTTP request, then call
  `provider.resume(flow, Event::Response(..))` (or `Event::Failed(..)`);
- `Done(result)`: the profile, or the error.

`revoke_token` works the same way with `Revoke`, finished by `revoke_finish`.

GitHub also signs in with the device flow (RFC 8628): send
`request_device_code()`, read the answer with `device_authorization`, show
the user code, then send `poll_device_token(..)` every interval and read each
answer with `device_poll`, until it says to `Proceed` with a step.

## Layout

- `src/` — the verified library:
  - `provider.rs`: the `Provider` and `ProviderFlow` traits, the shared
    configuration, and the steps most providers share;
  - `flow.rs`: steps, events, and the checks on token endpoint answers;
  - `providers/`: one module per provider;
  - `client.rs`: requests, responses and the status check;
  - `form.rs`, `json.rs`, `text.rs`, `codec.rs`: URL form encoding, JSON
    documents and their compact text, text routines, Base64;
  - `pkce.rs`, `extractors.rs`, `mock_idp.rs`: PKCE pairs, the callback's
    query and its CSRF check, and the answers of a local fake provider;
  - `jwt.rs`, `clock.rs`: the `jsonwebtoken` operations and the system clock,
    behind trusted wrappers.
- `app/` — the unverified I/O: the `reqwest` client, the async driver of the
  steps, OpenID Connect discovery, Axum and Actix Web extractors (which hand the query string to
  `AuthCallback::from_query`), the fake
  provider's Axum router, and serde / `thiserror` forms of the library types.
- `tests/` — tests of the library through its public interface.
