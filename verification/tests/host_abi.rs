use seyal_client::application::{AppAction, ApplicationRoot, BindingEvidence};
use seyal_client::host_abi::{
    pack_snapshot, SNAP_COMPOSER, SNAP_CONTROLLER, SNAP_FROZEN, SNAP_HAS_ATTACHMENT,
    SNAP_HAS_EXECUTION,
};
use seyal_client::ids::{AttachmentId, ExecutionId};

#[test]
fn unbound_snapshot_packs_zero_identities_and_no_flags() {
    let root = ApplicationRoot::new();
    let snap = root.snapshot();
    let packed = pack_snapshot(&snap);
    assert_eq!(packed.eligibility, 0);
    assert_eq!(packed.flags & (SNAP_HAS_EXECUTION | SNAP_HAS_ATTACHMENT | SNAP_CONTROLLER), 0);
    assert_eq!((packed.execution_lo, packed.execution_hi), (0, 0));
    assert_eq!((packed.attachment_lo, packed.attachment_hi), (0, 0));
    assert_eq!(packed.generation, snap.generation);
    assert_eq!(packed.last_error, 0);
    assert_eq!(packed.pending_effect, 0);
    let pane = snap.pane.to_bytes();
    assert_eq!(packed.pane_lo, u64::from_le_bytes(pane[..8].try_into().unwrap()));
    assert_eq!(packed.pane_hi, u64::from_le_bytes(pane[8..].try_into().unwrap()));
}

#[test]
fn bound_controller_snapshot_packs_words_and_flags() {
    let mut root = ApplicationRoot::new();
    let fence = root.fence();
    let mut exec = [0u8; 16];
    exec[0] = 0x11;
    exec[8] = 0x22;
    let evidence = BindingEvidence {
        execution: ExecutionId::from_bytes(exec),
        attachment: AttachmentId::from_bytes([3; 16]),
        controller: true,
        pty_generation: 1,
        alternate_screen: false,
    };
    root.apply(AppAction::Bind { fence, evidence }).unwrap();
    let snap = root.snapshot();
    let packed = pack_snapshot(&snap);
    assert_eq!(packed.eligibility, 1);
    assert_eq!(packed.execution_lo, 0x11);
    assert_eq!(packed.execution_hi, 0x22);
    assert_eq!(packed.attachment_lo, 0x0303_0303_0303_0303);
    assert_ne!(packed.flags & SNAP_HAS_EXECUTION, 0);
    assert_ne!(packed.flags & SNAP_HAS_ATTACHMENT, 0);
    assert_ne!(packed.flags & SNAP_CONTROLLER, 0);
    assert_eq!(packed.flags & SNAP_FROZEN, 0);
    assert_eq!(packed.flags & SNAP_COMPOSER != 0, snap.composer_eligible);
    assert_eq!(packed.epoch, snap.presentation_epoch);
}
