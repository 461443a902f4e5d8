//! The peer server: the state that the event loop works on, and what it
//! decides for each event.

pub mod peer_server;
