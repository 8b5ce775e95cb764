//! The service layer of a configuration-language toolchain.
//!
//! A host reaches the compiler engine through one call surface: a method
//! name and an encoded request go in, an encoded response or an error
//! comes out. This crate holds every decision taken on the way, each
//! with a contract that Verus proves:
//!
//! - `method`: the registry of operations and their names;
//! - `dispatch`: from name and payload to the reply, by way of routing,
//!   decoding, the handler and the boundary;
//! - `gateway`: the two conventions under which buffers carry payloads;
//! - `boundary`: what becomes of results, failures and faults;
//! - `artifact`: programs built once and run many times;
//! - `plugin`: the service handle and the callback of the host it owns;
//! - `testing` and `discovery`: test suites, found and run;
//! - `request`, `error`, `compare`, `text`: the values the others work on.
//!
//! The engine, the codec of the messages and the host are outside this
//! crate. They come in as functions: a decoder, a handler, a compiler, a
//! loader, a runner of one test case. What a contract says of a reply it
//! says for every outcome those functions can have.

pub mod artifact;
pub mod boundary;
pub mod compare;
pub mod discovery;
pub mod dispatch;
pub mod error;
pub mod gateway;
pub mod method;
pub mod plugin;
pub mod request;
pub mod testing;
pub mod text;
