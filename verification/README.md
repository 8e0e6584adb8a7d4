# mdk_e2e_test

Relay transport for end-to-end tests of encrypted group messaging over Nostr,
verified with Verus.

`src/` is the verified library:

- `transport` - transport messages and their routing
- `peeler` - a pass-through peeler: payloads travel as the engine encrypted them
- `identity` - deterministic secp256k1 identities from seeds, and their proof signer
- `event` - relay events, and the transport message that one holds
- `publish` - the signed events that publish messages and key packages
- `query` - the filter that a relay is asked with
- `order` - fetched events, oldest first
- `codec`, `bytes` - hex, base64 and big-endian numbers

What the library trusts of `base64`, `hex`, `k256`, `nostr-sdk`, `sha2` and std is
stated in the contracts of its `external_body` functions. Functions named `law_..`
state what holds across functions: a published message is read back with the payload
and the routing that went in, a filter for a recipient, group or owner asks for what
was published for them, and sorting is stable and loses nothing. Every identity proof
verifies under the public key of its account.

`app/` is the part that talks to the network and to the group engine.
