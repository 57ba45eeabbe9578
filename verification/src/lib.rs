//! Verified core of an NVMe submission/completion queue-pair driver.
//!
//! The crate models the driver's own logic — command-identifier allocation,
//! PRP (Physical Region Page) construction, bounce-buffer staging, the
//! buffer-strategy decision tree, and the queue handler's event steps — as
//! verified functions over plain values. The asynchronous runtime around it
//! (channels, DMA allocation, MMIO doorbells, interrupts) performs the
//! actions these functions decide on.

pub mod nvme;
pub mod pair;
pub mod pending;
pub mod prp;
pub mod issuer;
pub mod handler;
