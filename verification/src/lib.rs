//! Price lookup core for a game-economy data provider: a cached remote-dataset
//! loader and an approximate-match search over the loaded snapshot.
//!
//! The library holds the logic worth specifying: the freshness policy, the
//! loader's serve/refresh/fall-back decisions, the cache file codec, and the
//! matcher. Network and file I/O live outside, in the surrounding binary,
//! which hands the library plain values and takes plain values back.
pub mod catalog;
pub mod codec;
pub mod kinds;
pub mod loader;
pub mod matcher;
pub mod numerals;
pub mod paths;
pub mod snapshot;
