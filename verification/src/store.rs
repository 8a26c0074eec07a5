//! The framing of the durable kill-switch record.
//!
//! A record is fourteen bytes: a four-byte tag, one byte for the mode, one
//! for the state, and the revision as eight little-endian bytes. Reading is
//! strict: anything that is not exactly such a frame is no record. Writing
//! the bytes to disk, atomically and under a lock, is the caller's part.

use vstd::bytes::{
    lemma_auto_spec_u64_to_from_le_bytes, spec_u64_from_le_bytes, spec_u64_to_le_bytes,
    u64_from_le_bytes, u64_to_le_bytes,
};
use vstd::prelude::*;
use vstd::slice::slice_subrange;

use crate::engine::PersistedRecord;
use crate::state::killswitch::{KillSwitchMode, KillSwitchState};

verus! {

/// Length of an encoded record.
pub const RECORD_LEN: usize = 14;

/// The tag every record starts with.
pub open spec fn record_tag() -> Seq<u8> {
    seq![0x56u8, 0x4bu8, 0x53u8, 0x31u8]
}

/// The byte that stands for a mode.
pub open spec fn mode_byte(mode: KillSwitchMode) -> u8 {
    match mode {
        KillSwitchMode::Off => 0,
        KillSwitchMode::Auto => 1,
        KillSwitchMode::AlwaysOn => 2,
    }
}

/// The byte that stands for a state.
pub open spec fn state_byte(state: KillSwitchState) -> u8 {
    match state {
        KillSwitchState::Disabled => 0,
        KillSwitchState::Armed => 1,
        KillSwitchState::Blocking => 2,
    }
}

/// The mode a byte stands for, if it stands for one.
pub open spec fn mode_of_byte(b: u8) -> Option<KillSwitchMode> {
    if b == 0 {
        Some(KillSwitchMode::Off)
    } else if b == 1 {
        Some(KillSwitchMode::Auto)
    } else if b == 2 {
        Some(KillSwitchMode::AlwaysOn)
    } else {
        None
    }
}

/// The state a byte stands for, if it stands for one.
pub open spec fn state_of_byte(b: u8) -> Option<KillSwitchState> {
    if b == 0 {
        Some(KillSwitchState::Disabled)
    } else if b == 1 {
        Some(KillSwitchState::Armed)
    } else if b == 2 {
        Some(KillSwitchState::Blocking)
    } else {
        None
    }
}

/// The bytes of a record.
pub open spec fn encoded(record: PersistedRecord) -> Seq<u8> {
    record_tag() + seq![mode_byte(record.mode), state_byte(record.state)] + spec_u64_to_le_bytes(
        record.revision,
    )
}

/// The record that `bytes` hold, if they hold one.
pub open spec fn decoded(bytes: Seq<u8>) -> Option<PersistedRecord> {
    if bytes.len() == RECORD_LEN && bytes.subrange(0, 4) == record_tag() && mode_of_byte(
        bytes[4],
    ) is Some && state_of_byte(bytes[5]) is Some {
        Some(
            PersistedRecord {
                mode: mode_of_byte(bytes[4])->0,
                state: state_of_byte(bytes[5])->0,
                revision: spec_u64_from_le_bytes(bytes.subrange(6, 14)),
            },
        )
    } else {
        None
    }
}

/// Encode a record for the store.
pub fn encode_record(record: &PersistedRecord) -> (bytes: Vec<u8>)
    ensures
        bytes@ == encoded(*record),
        bytes@.len() == RECORD_LEN,
{
    let mut bytes: Vec<u8> = Vec::new();
    bytes.push(0x56u8);
    bytes.push(0x4bu8);
    bytes.push(0x53u8);
    bytes.push(0x31u8);
    bytes.push(
        match record.mode {
            KillSwitchMode::Off => 0u8,
            KillSwitchMode::Auto => 1u8,
            KillSwitchMode::AlwaysOn => 2u8,
        },
    );
    bytes.push(
        match record.state {
            KillSwitchState::Disabled => 0u8,
            KillSwitchState::Armed => 1u8,
            KillSwitchState::Blocking => 2u8,
        },
    );
    let mut tail = u64_to_le_bytes(record.revision);
    let ghost head = bytes@;
    bytes.append(&mut tail);
    proof {
        assert(head =~= record_tag() + seq![mode_byte(record.mode), state_byte(record.state)]);
        assert(bytes@ =~= encoded(*record));
    }
    bytes
}

/// Decode what the store returned.
///
/// `None` for anything but a well-formed frame. The values are returned as
/// they were written; nothing is checked against the live firewall.
pub fn decode_record(bytes: &[u8]) -> (r: Option<PersistedRecord>)
    ensures
        r == decoded(bytes@),
{
    if bytes.len() != RECORD_LEN {
        return None;
    }
    if bytes[0] != 0x56u8 || bytes[1] != 0x4bu8 || bytes[2] != 0x53u8 || bytes[3] != 0x31u8 {
        assert(bytes@.subrange(0, 4)[0] == bytes@[0]);
        assert(bytes@.subrange(0, 4)[1] == bytes@[1]);
        assert(bytes@.subrange(0, 4)[2] == bytes@[2]);
        assert(bytes@.subrange(0, 4)[3] == bytes@[3]);
        return None;
    }
    assert(bytes@.subrange(0, 4) =~= record_tag());
    let mode = match bytes[4] {
        0u8 => KillSwitchMode::Off,
        1u8 => KillSwitchMode::Auto,
        2u8 => KillSwitchMode::AlwaysOn,
        _ => {
            return None;
        },
    };
    let state = match bytes[5] {
        0u8 => KillSwitchState::Disabled,
        1u8 => KillSwitchState::Armed,
        2u8 => KillSwitchState::Blocking,
        _ => {
            return None;
        },
    };
    let revision = u64_from_le_bytes(slice_subrange(bytes, 6, 14));
    Some(PersistedRecord { mode, state, revision })
}

/// Reading back what was written gives the record that was written.
pub proof fn lemma_decode_encode(record: PersistedRecord)
    ensures
        decoded(encoded(record)) == Some(record),
{
    lemma_auto_spec_u64_to_from_le_bytes();
    let bytes = encoded(record);
    assert(spec_u64_to_le_bytes(record.revision).len() == 8);
    assert(bytes.len() == 14);
    assert(bytes.subrange(0, 4) =~= record_tag());
    assert(bytes[4] == mode_byte(record.mode));
    assert(bytes[5] == state_byte(record.state));
    assert(bytes.subrange(6, 14) =~= spec_u64_to_le_bytes(record.revision));
}

/// Bytes that hold a record are the encoding of that record, so no two
/// frames stand for the same record.
pub proof fn lemma_encode_decode(bytes: Seq<u8>)
    requires
        decoded(bytes) is Some,
    ensures
        encoded(decoded(bytes)->0) == bytes,
{
    lemma_auto_spec_u64_to_from_le_bytes();
    let record = decoded(bytes)->0;
    let tail = bytes.subrange(6, 14);
    assert(tail.len() == 8);
    assert(spec_u64_to_le_bytes(spec_u64_from_le_bytes(tail)) == tail);
    assert(bytes =~= bytes.subrange(0, 4) + seq![bytes[4], bytes[5]] + tail);
}

} // verus!
