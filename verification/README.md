# buzzwords

The decisions of a small social network service, written in Verus, and the
server around them.

- `src/` is the library. Every request is served by a handler: a state machine
  that names the next thing to do outside and turns the reply into the next
  state or into the answer. `dialogue.rs` says what handlers, commands and
  replies are; `user.rs`, `post.rs`, `comment.rs`, `follow.rs` and
  `notification.rs` hold the records and the handlers; `mongo.rs`, `redis.rs`,
  `ampq.rs`, `clock.rs` and `config.rs` hold what touches the document store,
  the cache, the message broker, the clock and the settings.
- `src/conversation.rs` puts commands and replies together to whole requests,
  `src/world.rs` describes surroundings that do what they are asked, and
  `src/laws/` states what holds of requests: what one that succeeds does, when
  one is refused, what requests never do, what one leaves behind for the next,
  what they make of the document store, what becomes of messages, and that each
  is answered.
- `tests/` runs the handlers on concrete replies.
- `app/` is the server: it performs the commands on MongoDB, Redis and RabbitMQ.

## Setup

The server needs mongodb, rabbitmq and redis, and reads `MONGO_URL`,
`RABBITMQ_URL` and `REDIS_URL`. It listens on `SERVER_ADDR` (0.0.0.0 by default)
and `SERVER_PORT` (3000 by default).
