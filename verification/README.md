# qaul_models

The data model and rules behind qaul's web and RPC layers, and the sealing
of stored records, as a Verus-verified library:

- `identity`: identities and their hex text form;
- `str_map`: string-keyed maps where a later entry overrides an earlier one;
- `document`: the JSON:API document model (resource objects, identifiers,
  relationships, links, document errors);
- `text_message`: text messages as resource objects, written from a stored
  message and read back part by part;
- `rpc`, `chat`, `messages`: RPC requests and the JSON request and response
  envelopes;
- `wire`: the binary framing of byte strings;
- `aes`: keys derived from passwords, and sealing and opening of records.

`app/` holds the serde forms of the library's types and the generic
(serde-based) encoder and encrypter built on the library.
