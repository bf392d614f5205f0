//! The consumption dispatcher's per-message decision: what each
//! receive outcome does to the counters and which decoded events flow
//! on to the filter stage.
//!
//! The receive loop itself suspends on the stream client and stays
//! outside the library; it hands every outcome to [`on_receive`] and
//! forwards whatever that returns. No outcome stops the loop: a
//! transport error or an undecodable message is counted and skipped.

use vstd::prelude::*;

use crate::events::{MessageType, NotifyBlockMetaData, UpdateAccount, UpdateSlotStatus};
use crate::stats::Stats;

verus! {

/// A successfully decoded message of any subscribed topic.
pub enum DecodedMessage {
    Account(UpdateAccount),
    Slot(UpdateSlotStatus),
    Block(NotifyBlockMetaData),
}

impl DecodedMessage {
    /// The entity type whose counter the message belongs to.
    pub open spec fn spec_message_type(&self) -> MessageType {
        match self {
            DecodedMessage::Account(_) => MessageType::UpdateAccount,
            DecodedMessage::Slot(_) => MessageType::UpdateSlot,
            DecodedMessage::Block(_) => MessageType::NotifyBlock,
        }
    }

    pub fn message_type(&self) -> (t: MessageType)
        ensures
            t == self.spec_message_type(),
    {
        match self {
            DecodedMessage::Account(_) => MessageType::UpdateAccount,
            DecodedMessage::Slot(_) => MessageType::UpdateSlot,
            DecodedMessage::Block(_) => MessageType::NotifyBlock,
        }
    }
}

/// One iteration's outcome at the receive loop, after the transport
/// and the decoder have spoken.
pub enum ReceiveOutcome {
    /// A message arrived and its payload read as text; `decoded` is its
    /// parse as the topic's schema, or nothing for a payload that is
    /// not valid against it.
    Message { payload_len: usize, decoded: Option<DecodedMessage> },
    /// A message arrived whose payload is not valid UTF-8: malformed,
    /// a decode failure like any other. Its length is not added to the
    /// byte counter, which counts readable text.
    UnreadablePayload,
    /// A message arrived carrying no payload at all; skipped.
    MissingPayload,
    /// The transport failed to deliver; the loop continues.
    TransportError,
}

/// What one receive outcome must do to the registry. A malformed
/// payload — unreadable text just as much as text the schema rejects —
/// moves the deserialize-error counter and nothing of the rest.
pub open spec fn spec_after_receive(stats: Stats, outcome: ReceiveOutcome) -> Stats {
    match outcome {
        ReceiveOutcome::Message { payload_len, decoded } => {
            let counted = Stats {
                kafka_bytes_rx: crate::stats::spec_add_saturating(
                    stats.kafka_bytes_rx,
                    payload_len as u64,
                ),
                ..stats
            };
            match decoded {
                Some(m) => counted.spec_bump_received(m.spec_message_type()),
                None => Stats {
                    kafka_error_deserialize: crate::stats::spec_bump(
                        counted.kafka_error_deserialize,
                    ),
                    ..counted
                },
            }
        },
        ReceiveOutcome::UnreadablePayload => Stats {
            kafka_error_deserialize: crate::stats::spec_bump(stats.kafka_error_deserialize),
            ..stats
        },
        ReceiveOutcome::MissingPayload => stats,
        ReceiveOutcome::TransportError => Stats {
            kafka_error_consumer: crate::stats::spec_bump(stats.kafka_error_consumer),
            ..stats
        },
    }
}

/// Accounts one receive outcome and returns the event to forward, if
/// any. A malformed payload only moves the deserialize-error counter;
/// it is dropped, never retried, and the next outcome is processed the
/// same way.
pub fn on_receive(stats: &mut Stats, outcome: ReceiveOutcome) -> (forward: Option<DecodedMessage>)
    ensures
        *final(stats) == spec_after_receive(*old(stats), outcome),
        match outcome {
            ReceiveOutcome::Message { payload_len, decoded } => forward == decoded,
            ReceiveOutcome::UnreadablePayload => forward is None,
            ReceiveOutcome::MissingPayload => forward is None,
            ReceiveOutcome::TransportError => forward is None,
        },
{
    match outcome {
        ReceiveOutcome::Message { payload_len, decoded } => {
            stats.record_bytes(payload_len as u64);
            match decoded {
                Some(message) => {
                    let message_type = message.message_type();
                    stats.record_received(message_type);
                    Some(message)
                },
                None => {
                    stats.record_deserialize_error();
                    None
                },
            }
        },
        ReceiveOutcome::UnreadablePayload => {
            stats.record_deserialize_error();
            None
        },
        ReceiveOutcome::MissingPayload => None,
        ReceiveOutcome::TransportError => {
            stats.record_consumer_error();
            None
        },
    }
}

} // verus!
