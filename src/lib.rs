//! A client library for a sequenced, typed gateway event stream and its
//! rate-limited REST companion: frame codec, rate-limit tracking, the
//! connection state machine with its heartbeats, and event and command routing.

// Text and JSON primitives.
pub mod json_access;
pub mod text;

// The gateway: frames, the connection state machine, routing and caches.
pub mod cache;
pub mod gateway;
pub mod opcode;
pub mod payload;
pub mod payloads;
pub mod router;

// Commands: arguments, permissions, slash command registration.
pub mod args;
pub mod permissions;
pub mod slash_sync;

// REST: rate limits and retries.
pub mod lru_cache;
pub mod ratelimit;
pub mod rest;

// Constants and records.
pub mod consts;
pub mod models;
