# dynamo_llm

The core of a block manager for key-value caches of language models, written and
proved in Verus, with the runtime around it.

- `src/` decides: how blocks are moved between memory tiers and remote storage
  (`strategy`, `transfer`, `nixl`, `remote`, `remote_transfer`, `agent_transfer`), how
  a leader sizes the tiers and tracks what is in object storage (`leader_config`,
  `leader`, `messages`), when the master of the cache counts as healthy (`health`),
  and which frames of a video are sampled (`video`). The contracts say what is
  returned or changed; where a clock or a shared token is asked, they say which call is
  made and what follows from its answer. The public proof functions state what holds of
  several functions together.
- `app/` carries it out, with NIXL, tokio, reqwest, prometheus and video-rs.
- `tests/` runs the library on concrete values.

Floating-point settings go through the library as bit patterns. Times are in
nanoseconds unless a name says otherwise.
