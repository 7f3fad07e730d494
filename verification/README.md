# file-storage

Verified core of a multi-tenant file storage service and the chat-message
primitives that reference its files, written in Verus.

`src/` is the verified library:

- `models`, `mime`, `policy`, `policy_laws`: the file and version model, MIME
  patterns, and the resolution of tenant and user policies into the most
  restrictive effective policy, with its laws.
- `multipart`, `service`, `sidecar`: the decisions of the multipart session
  lifecycle, of reads, deletes and downloads, and of the data-plane sidecar
  around each transfer and control-plane callback.
- `upload_flow`, `part_flow`: the sidecar's single-object and part uploads
  as step functions from state and outcome to next state and action.
- `initiate_flow`, `complete_flow`, `abort_flow`: initiating, completing
  and aborting a multipart upload as step functions, each refusing before
  it writes.
- `error`: domain errors, their client-facing problem descriptions and their
  messages.
- `config`, `gear`, `authz`, `local_client`, `idempotency`: configuration and
  its invariants, backend registry and key decoding, tenant-scoped
  authorization, the in-process client.
- `dto`: request and response shapes and their conversions.
- `chat`: message roles, part types, stored rows and the plain text of a
  message.
- `text`: string helpers (decimal, hexadecimal and UUID spellings, trimming).

`tests/` exercises the library on concrete values; `app/` holds the serde
shapes, configuration loading and environment reading around it, and the
loops that perform each step's action and feed its outcome back.
