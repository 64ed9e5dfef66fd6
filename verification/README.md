# forest_filecoin

Two parts of a Filecoin node, with what they do stated and proved in Verus.

- `eth`: legacy Ethereum transactions with chain replay protection. Their signatures are made,
  taken and brought into the form that can be verified, the chain is derived from a signature, and
  transactions are encoded, signed or to be signed.
- `rpc`: methods that describe themselves. Arguments become parameters of a request, and a module
  collects the definitions of its methods into an OpenRPC document.

`src/` is the verified library. The functions and proofs in `laws.rs` and `rlp_laws.rs` say what
holds of several functions together. Numbers of any size, streams, JSON objects and builders are
those of `num-bigint`, `rlp`, `serde_json` and `jsonrpsee`; what is relied on there stands at each
function marked `external_body`.

`tests/` runs the library. `app/` joins it to handlers, clients and error messages.
