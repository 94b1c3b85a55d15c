# Kraken

Kraken is a LAN-based, distributed, fault tolerant application deployment platform. A set
of devices runs the Kraken service; one of them is the orchestrator, which validates
deployment requests for GitHub repositories and delegates each to the worker with the fewest
deployments, where it is built and run in a Docker container. The devices talk over
RabbitMQ.

## Layout

- `src/` is the platform's logic, verified with Verus:
  - `rabbit/` the messages exchanged over RabbitMQ, each with its wire format and a proof
    that a message read back from its bytes is the message sent;
  - `platform_executor/orchestration_executor/` the orchestrator's database (with its
    read-after-write laws and the rollover ranks it hands out), the scheduling, update and
    destruction decisions, and the handling of node reports;
  - `platform_executor/worker_executor/` the worker's decisions, among them
    `deployment_job`, the steps of a deployment as a state machine;
  - `gql_model.rs`, `gql_schema.rs` the platform model and the API's queries and mutations;
  - `decimal.rs`, `text.rs`, `clock.rs` decimal text, text handling and time.
- `app/` runs a node: RabbitMQ, Docker, GitHub and the network, around the library.
- `tests/` exercises the library on concrete values.
