# opencode_provider

The OpenCode Go provider of a model proxy, as a verified library.

- `src/model.rs`: the model catalogue, name resolution and the advertised names.
- `src/provider.rs`: the provider and its entry points.
- `src/exchange.rs`: the course of a request, as a machine from stage and event to the next step.
- `src/course.rs`: what holds of every course, whatever the outcomes.
- `src/error.rs`, `src/reply.rs`, `src/status.rs`: failures of the upstream and answers.
- `src/sse.rs`, `src/relay.rs`: counting events and relaying a stream under a meter.
- `src/json.rs`, `src/chunk.rs`, `src/message_id.rs`: JSON values, byte buffers and message ids.
- `src/cli.rs`: what the commands report.
- `src/text.rs`: the order of names and other text helpers.
- `app/`: runs the courses against an HTTP client, a translator and a monitor that the
  surrounding server supplies.

What is taken on trust are the calls into `serde_json`, `bytes`, `http` and `uuid`. Each stands in
a function of its own whose documentation says what is assumed of the call.
