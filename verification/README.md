# tokio-quicker

QUIC listeners and sockets for [tokio](https://tokio.rs/) over
[quiche](https://github.com/cloudflare/quiche), with the decisions behind them verified by
[Verus](https://github.com/verus-lang/verus).

## Layout

- `src/` is the verified library. It does no I/O.
  - `crypto` mints and validates address validation tokens.
  - `backend::manager` decides what a listener does with each datagram.
  - `backend::send`, `backend::client` and `backend::server` move packets between a connection and
    its socket; `backend::timer` and `backend::handshake` say when to wake it and when it is up.
  - `connection` and `stream` number streams and carry their messages.
  - `config` holds the sizes and the default settings.
  - `packet`, `clock`, `random`, `error` and `backend::transport` state what is relied on of `quiche`,
    `chrono`, `rand`, `ring` and the standard library.
- `app/` is the async part: sockets, channels, and the tasks that carry out what the library decides.
- `tests/` runs the library.

## Building

`quiche` is taken without its bundled TLS library, so a program that links `app/` turns on one of
`quiche`'s TLS features. With the feature `key-gen` the app makes a certificate for the local host,
which is just for testing; this takes the `boring` crate and `quiche`'s `boringssl-boring-crate`.

## Examples

A client:

```rust
let mut connection = QuicSocket::bind("127.0.0.1:0", "key.pem", "cert.pem")
    .await?
    .connect(Some("localhost"), "127.0.0.1:4433")
    .await?;
let mut stream = connection.bidi(1).await?;
```

A server:

```rust
let mut listener = QuicListener::bind("127.0.0.1:4433", "key.pem", "cert.pem").await?;
while let Ok(mut connection) = listener.accept().await {
    tokio::spawn(async move {
        let mut stream = connection.incoming().await.unwrap();
        stream.shutdown().await
    });
}
```
