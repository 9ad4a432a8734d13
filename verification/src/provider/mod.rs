//! One adapter for each provider: the request that it is sent, and what is
//! read from its answer.

pub mod deepl;
pub mod google;
pub mod libre;
pub mod linguee;
pub mod microsoft;
pub mod mymemory;
pub mod papago;
pub mod pons;
pub mod qcri;
pub mod yandex;
