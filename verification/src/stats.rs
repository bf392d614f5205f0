//! Process-wide monotonic counters, written by the dispatcher and the
//! executor and read by an external exporter.
//!
//! Counters only grow; they saturate at `u64::MAX` instead of wrapping,
//! so a read value never exceeds a later one.

use vstd::prelude::*;

use crate::events::MessageType;

verus! {

/// One step of a monotonic counter.
pub open spec fn spec_bump(x: u64) -> u64 {
    if x == u64::MAX {
        x
    } else {
        (x + 1) as u64
    }
}

/// A monotonic counter moved forward by `n`.
pub open spec fn spec_add_saturating(x: u64, n: u64) -> u64 {
    if x + n > u64::MAX {
        u64::MAX
    } else {
        (x + n) as u64
    }
}

/// Messages received per entity type, error classes, and payload volume.
#[derive(Clone, Copy, Debug, PartialEq, Eq, Structural)]
pub struct Stats {
    pub kafka_update_account: u64,
    pub kafka_update_slot: u64,
    pub kafka_notify_transaction: u64,
    pub kafka_notify_block: u64,
    pub kafka_error_consumer: u64,
    pub kafka_error_deserialize: u64,
    pub kafka_bytes_rx: u64,
}

impl Stats {
    /// The received-message counter of one entity type.
    pub open spec fn spec_received(self, message_type: MessageType) -> u64 {
        match message_type {
            MessageType::UpdateAccount => self.kafka_update_account,
            MessageType::UpdateSlot => self.kafka_update_slot,
            MessageType::NotifyTransaction => self.kafka_notify_transaction,
            MessageType::NotifyBlock => self.kafka_notify_block,
        }
    }

    /// The registry with one received-message counter moved forward.
    pub open spec fn spec_bump_received(self, message_type: MessageType) -> Stats {
        match message_type {
            MessageType::UpdateAccount => (Stats {
                kafka_update_account: spec_bump(self.kafka_update_account),
                ..self
            }),
            MessageType::UpdateSlot => (Stats {
                kafka_update_slot: spec_bump(self.kafka_update_slot),
                ..self
            }),
            MessageType::NotifyTransaction => (Stats {
                kafka_notify_transaction: spec_bump(self.kafka_notify_transaction),
                ..self
            }),
            MessageType::NotifyBlock => (Stats {
                kafka_notify_block: spec_bump(self.kafka_notify_block),
                ..self
            }),
        }
    }

    /// All counters at zero.
    pub fn new() -> (s: Stats)
        ensures
            s == (Stats {
                kafka_update_account: 0u64,
                kafka_update_slot: 0u64,
                kafka_notify_transaction: 0u64,
                kafka_notify_block: 0u64,
                kafka_error_consumer: 0u64,
                kafka_error_deserialize: 0u64,
                kafka_bytes_rx: 0u64,
            }),
    {
        Stats {
            kafka_update_account: 0,
            kafka_update_slot: 0,
            kafka_notify_transaction: 0,
            kafka_notify_block: 0,
            kafka_error_consumer: 0,
            kafka_error_deserialize: 0,
            kafka_bytes_rx: 0,
        }
    }

    /// Counts one received message of the given type.
    pub fn record_received(&mut self, message_type: MessageType)
        ensures
            *final(self) == old(self).spec_bump_received(message_type),
    {
        match message_type {
            MessageType::UpdateAccount => {
                if self.kafka_update_account < u64::MAX {
                    self.kafka_update_account = self.kafka_update_account + 1;
                }
            },
            MessageType::UpdateSlot => {
                if self.kafka_update_slot < u64::MAX {
                    self.kafka_update_slot = self.kafka_update_slot + 1;
                }
            },
            MessageType::NotifyTransaction => {
                if self.kafka_notify_transaction < u64::MAX {
                    self.kafka_notify_transaction = self.kafka_notify_transaction + 1;
                }
            },
            MessageType::NotifyBlock => {
                if self.kafka_notify_block < u64::MAX {
                    self.kafka_notify_block = self.kafka_notify_block + 1;
                }
            },
        }
    }

    /// Counts one transport-level receive failure.
    pub fn record_consumer_error(&mut self)
        ensures
            *final(self) == (Stats {
                kafka_error_consumer: spec_bump(old(self).kafka_error_consumer),
                ..*old(self)
            }),
    {
        if self.kafka_error_consumer < u64::MAX {
            self.kafka_error_consumer = self.kafka_error_consumer + 1;
        }
    }

    /// Counts one undecodable message.
    pub fn record_deserialize_error(&mut self)
        ensures
            *final(self) == (Stats {
                kafka_error_deserialize: spec_bump(old(self).kafka_error_deserialize),
                ..*old(self)
            }),
    {
        if self.kafka_error_deserialize < u64::MAX {
            self.kafka_error_deserialize = self.kafka_error_deserialize + 1;
        }
    }

    /// Counts received payload bytes.
    pub fn record_bytes(&mut self, n: u64)
        ensures
            *final(self) == (Stats {
                kafka_bytes_rx: spec_add_saturating(old(self).kafka_bytes_rx, n),
                ..*old(self)
            }),
    {
        if self.kafka_bytes_rx <= u64::MAX - n {
            self.kafka_bytes_rx = self.kafka_bytes_rx + n;
        } else {
            self.kafka_bytes_rx = u64::MAX;
        }
    }
}

/// Reads the received-message counter of one entity type.
pub fn get_counter(stats: &Stats, message_type: MessageType) -> (r: u64)
    ensures
        r == stats.spec_received(message_type),
{
    match message_type {
        MessageType::UpdateAccount => stats.kafka_update_account,
        MessageType::UpdateSlot => stats.kafka_update_slot,
        MessageType::NotifyTransaction => stats.kafka_notify_transaction,
        MessageType::NotifyBlock => stats.kafka_notify_block,
    }
}

/// Read access to the error-class counters: consumer errors and
/// deserialize errors, in that order.
pub trait GetCounters {
    /// The two error counters a registry reports.
    spec fn spec_counters(&self) -> (u64, u64);

    /// A consistent snapshot of the two error counters.
    fn get_counters(&self) -> (r: (u64, u64))
        ensures
            r == self.spec_counters(),
    ;
}

impl GetCounters for Stats {
    open spec fn spec_counters(&self) -> (u64, u64) {
        (self.kafka_error_consumer, self.kafka_error_deserialize)
    }

    fn get_counters(&self) -> (r: (u64, u64))
        ensures
            r == self.spec_counters(),
    {
        (self.kafka_error_consumer, self.kafka_error_deserialize)
    }
}

} // verus!
