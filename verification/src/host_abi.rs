//! The integer packing of an application snapshot for the native host:
//! flag bits, small codes and identities split into 64-bit words. The host
//! layer copies these fields into its C structure beside the output text.

use vstd::prelude::*;

use crate::application::{
    error_number, spec_error_number, AppSnapshot, NativeEffect, PresentationEligibility,
};
use crate::ids::{identity_words, AttachmentId, ExecutionId};

verus! {

/// Flag bit: the composer may be shown.
pub const SNAP_COMPOSER: u16 = 1;

/// Flag bit: this attachment controls the execution.
pub const SNAP_CONTROLLER: u16 = 2;

/// Flag bit: the application is frozen.
pub const SNAP_FROZEN: u16 = 4;

/// Flag bit: the Pane is bound to an execution.
pub const SNAP_HAS_EXECUTION: u16 = 8;

/// Flag bit: the client holds an attachment.
pub const SNAP_HAS_ATTACHMENT: u16 = 16;

/// The integer fields of a snapshot as the host ABI carries them.
#[derive(Clone, Copy, Debug, PartialEq, Eq, Structural)]
pub struct PackedSnapshot {
    pub eligibility: u16,
    pub flags: u16,
    pub generation: u64,
    pub pane_lo: u64,
    pub pane_hi: u64,
    pub execution_lo: u64,
    pub execution_hi: u64,
    pub attachment_lo: u64,
    pub attachment_hi: u64,
    pub epoch: u64,
    pub last_error: u32,
    pub pending_effect: u32,
}

/// The host code of a presentation eligibility.
pub open spec fn spec_eligibility_code(e: PresentationEligibility) -> u16 {
    match e {
        PresentationEligibility::Unbound => 0,
        PresentationEligibility::Flow => 1,
        PresentationEligibility::Raw => 2,
        PresentationEligibility::Tui => 3,
    }
}

/// The bit `bit` when `on` holds.
pub open spec fn flag(on: bool, bit: u16) -> int {
    if on {
        bit as int
    } else {
        0
    }
}

/// The flag word of a snapshot: one bit each for composer eligibility,
/// control, freezing, a bound execution and a held attachment.
pub open spec fn spec_snapshot_flags(s: AppSnapshot) -> int {
    flag(s.composer_eligible, SNAP_COMPOSER) + flag(s.controller, SNAP_CONTROLLER) + flag(
        s.frozen,
        SNAP_FROZEN,
    ) + flag(s.execution is Some, SNAP_HAS_EXECUTION) + flag(
        s.attachment is Some,
        SNAP_HAS_ATTACHMENT,
    )
}

/// The identity value carried for an optional execution (zero when none).
pub open spec fn execution_value(e: Option<ExecutionId>) -> u128 {
    match e {
        Some(id) => id.value(),
        None => 0,
    }
}

/// The identity value carried for an optional attachment (zero when none).
pub open spec fn attachment_value(a: Option<AttachmentId>) -> u128 {
    match a {
        Some(id) => id.value(),
        None => 0,
    }
}

/// Pack the integer fields of `s`: identities as low and high words, the
/// eligibility and pending effect as codes, the last error as its number
/// (zero when none) and the flag word.
pub fn pack_snapshot(s: &AppSnapshot) -> (r: PackedSnapshot)
    ensures
        r.eligibility == spec_eligibility_code(s.eligibility),
        r.flags == spec_snapshot_flags(*s),
        r.generation == s.generation,
        r.pane_lo == s.pane.value() as u64,
        r.pane_hi == (s.pane.value() >> 64u128) as u64,
        r.execution_lo == execution_value(s.execution) as u64,
        r.execution_hi == (execution_value(s.execution) >> 64u128) as u64,
        r.attachment_lo == attachment_value(s.attachment) as u64,
        r.attachment_hi == (attachment_value(s.attachment) >> 64u128) as u64,
        r.epoch == s.presentation_epoch,
        r.last_error == match s.last_error {
            Some(e) => spec_error_number(e),
            None => 0,
        },
        r.pending_effect == match s.pending_effect {
            NativeEffect::NoEffect => 0u32,
            NativeEffect::BoundedDetachThenTerminate => 1u32,
        },
{
    let mut flags: u16 = 0;
    if s.composer_eligible {
        flags = flags + SNAP_COMPOSER;
    }
    if s.controller {
        flags = flags + SNAP_CONTROLLER;
    }
    if s.frozen {
        flags = flags + SNAP_FROZEN;
    }
    if s.execution.is_some() {
        flags = flags + SNAP_HAS_EXECUTION;
    }
    if s.attachment.is_some() {
        flags = flags + SNAP_HAS_ATTACHMENT;
    }
    let pane = identity_words(s.pane.raw());
    let execution = identity_words(
        match s.execution {
            Some(id) => id.raw(),
            None => 0,
        },
    );
    let attachment = identity_words(
        match s.attachment {
            Some(id) => id.raw(),
            None => 0,
        },
    );
    let last_error: u32 = match s.last_error {
        Some(e) => error_number(e) as u32,
        None => 0,
    };
    PackedSnapshot {
        eligibility: match s.eligibility {
            PresentationEligibility::Unbound => 0,
            PresentationEligibility::Flow => 1,
            PresentationEligibility::Raw => 2,
            PresentationEligibility::Tui => 3,
        },
        flags,
        generation: s.generation,
        pane_lo: pane.0,
        pane_hi: pane.1,
        execution_lo: execution.0,
        execution_hi: execution.1,
        attachment_lo: attachment.0,
        attachment_hi: attachment.1,
        epoch: s.presentation_epoch,
        last_error,
        pending_effect: match s.pending_effect {
            NativeEffect::NoEffect => 0,
            NativeEffect::BoundedDetachThenTerminate => 1,
        },
    }
}

/// Each flag bit of a packed snapshot reads back the fact it carries.
pub proof fn snapshot_flag_bits(s: AppSnapshot)
    ensures
        ((spec_snapshot_flags(s) as u16) & SNAP_COMPOSER != 0) == s.composer_eligible,
        ((spec_snapshot_flags(s) as u16) & SNAP_CONTROLLER != 0) == s.controller,
        ((spec_snapshot_flags(s) as u16) & SNAP_FROZEN != 0) == s.frozen,
        ((spec_snapshot_flags(s) as u16) & SNAP_HAS_EXECUTION != 0) == (s.execution is Some),
        ((spec_snapshot_flags(s) as u16) & SNAP_HAS_ATTACHMENT != 0) == (s.attachment is Some),
{
    let c: u16 = if s.composer_eligible { 1 } else { 0 };
    let k: u16 = if s.controller { 1 } else { 0 };
    let f: u16 = if s.frozen { 1 } else { 0 };
    let e: u16 = if s.execution is Some { 1 } else { 0 };
    let a: u16 = if s.attachment is Some { 1 } else { 0 };
    let w: u16 = (c + 2 * k + 4 * f + 8 * e + 16 * a) as u16;
    assert(spec_snapshot_flags(s) == c + 2 * k + 4 * f + 8 * e + 16 * a);
    assert((w & 1 != 0) == (c == 1) && (w & 2 != 0) == (k == 1) && (w & 4 != 0) == (f == 1) && (w
        & 8 != 0) == (e == 1) && (w & 16 != 0) == (a == 1)) by (bit_vector)
        requires
            c <= 1 && k <= 1 && f <= 1 && e <= 1 && a <= 1,
            w == c + 2 * k + 4 * f + 8 * e + 16 * a,
    ;
}

} // verus!
