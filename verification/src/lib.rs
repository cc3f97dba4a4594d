//! Unified failure reporting for a libblkid binding layer.
//!
//! Every fallible binding operation reports its failure through one closed
//! error taxonomy, [`err::BlkidErr`], so that callers can match on failure
//! kinds uniformly and render each failure as one line of text.

pub mod err;
