//! One-Pane application vocabulary: errors, presentation eligibility, the
//! identity fence hosts echo back, and the accessibility tree of the Pane.

use vstd::prelude::*;

use crate::chrome::{find_pane_row, pane_row_from};
use crate::ids::{AttachmentId, ExecutionId, PaneId};
use crate::presentation::{
    spec_route, PresentationAction, PresentationIdentity, PresentationMode, PresentationModel,
    PresentationSession, PresentationSnapshot,
};
use crate::shell::{ShellAction, ShellSnapshot, ShellState};
use crate::text::{copy_string, owned};

verus! {

/// Published host-contract version for versioned, size-tagged records.
pub const APP_ABI_VERSION: u16 = 1;

#[derive(Clone, Copy, Debug, PartialEq, Eq, Structural)]
pub enum AppError {
    UnknownPane,
    StalePane,
    StaleExecution,
    StaleAttachment,
    StaleController,
    StalePresentationEpoch,
    UnboundUnauthorized,
    AlreadyBound,
    NotController,
    DirectInputUnauthorized,
    ZeroPtyGeneration,
    Frozen,
    NoLiveClient,
    InvalidPayload,
    StaleRecoveryGeneration,
}

#[derive(Clone, Copy, Debug, PartialEq, Eq, Structural)]
pub enum PresentationEligibility {
    Unbound,
    Flow,
    Raw,
    Tui,
}

#[derive(Clone, Copy, Debug, PartialEq, Eq, Structural)]
pub enum NativeEffect {
    /// No native effect is pending.
    NoEffect,
    BoundedDetachThenTerminate,
}

/// The identities a host action was issued against.
#[derive(Clone, Copy, Debug, PartialEq, Eq, Structural)]
pub struct AppFence {
    pub pane: PaneId,
    pub execution: Option<ExecutionId>,
    pub attachment: Option<AttachmentId>,
    pub controller: bool,
    pub presentation_epoch: u64,
}

/// What a Runtime attachment proves about the Pane it binds.
#[derive(Clone, Copy, Debug, PartialEq, Eq, Structural)]
pub struct BindingEvidence {
    pub execution: ExecutionId,
    pub attachment: AttachmentId,
    pub controller: bool,
    pub pty_generation: u64,
    pub alternate_screen: bool,
}

/// The eligibility of a Pane: unbound until an execution is bound, then the
/// presentation mode.
pub open spec fn spec_eligibility(bound: bool, mode: PresentationMode) -> PresentationEligibility {
    if !bound {
        PresentationEligibility::Unbound
    } else {
        match mode {
            PresentationMode::Flow => PresentationEligibility::Flow,
            PresentationMode::Raw => PresentationEligibility::Raw,
            PresentationMode::Tui => PresentationEligibility::Tui,
        }
    }
}

/// Eligibility of a Pane that is `bound` (or not) in presentation `mode`.
pub fn presentation_eligibility(bound: bool, mode: PresentationMode) -> (r: PresentationEligibility)
    ensures
        r == spec_eligibility(bound, mode),
{
    if !bound {
        return PresentationEligibility::Unbound;
    }
    match mode {
        PresentationMode::Flow => PresentationEligibility::Flow,
        PresentationMode::Raw => PresentationEligibility::Raw,
        PresentationMode::Tui => PresentationEligibility::Tui,
    }
}

/// The first fence mismatch, in the order unknown Pane, Pane, execution,
/// attachment, controller, presentation epoch.
pub open spec fn spec_check_fence(fence: AppFence, current: AppFence, pane_known: bool) -> Result<
    (),
    AppError,
> {
    if !pane_known {
        Err(AppError::UnknownPane)
    } else if fence.pane != current.pane {
        Err(AppError::StalePane)
    } else if fence.execution != current.execution {
        Err(AppError::StaleExecution)
    } else if fence.attachment != current.attachment {
        Err(AppError::StaleAttachment)
    } else if fence.controller != current.controller {
        Err(AppError::StaleController)
    } else if fence.presentation_epoch != current.presentation_epoch {
        Err(AppError::StalePresentationEpoch)
    } else {
        Ok(())
    }
}

/// Check a host fence against the current identities. Only an exact match
/// passes; any stale identity fails closed.
pub fn check_fence(fence: AppFence, current: AppFence, pane_known: bool) -> (r: Result<(), AppError>)
    ensures
        r == spec_check_fence(fence, current, pane_known),
        r is Ok <==> (pane_known && fence == current),
{
    if !pane_known {
        return Err(AppError::UnknownPane);
    }
    if fence.pane != current.pane {
        return Err(AppError::StalePane);
    }
    if fence.execution != current.execution {
        return Err(AppError::StaleExecution);
    }
    if fence.attachment != current.attachment {
        return Err(AppError::StaleAttachment);
    }
    if fence.controller != current.controller {
        return Err(AppError::StaleController);
    }
    if fence.presentation_epoch != current.presentation_epoch {
        return Err(AppError::StalePresentationEpoch);
    }
    Ok(())
}

#[derive(Clone, Copy, Debug, PartialEq, Eq, Structural)]
pub enum AccessibilityRole {
    Application,
    Pane,
    Composer,
    Terminal,
}

#[derive(Clone, Debug, PartialEq, Eq)]
pub struct AccessibilityNode {
    pub id: u64,
    pub parent: Option<u64>,
    pub role: AccessibilityRole,
    pub label: String,
    pub value: String,
    pub help: String,
    pub enabled: bool,
    pub selected: bool,
    pub focused: bool,
    pub actions: u32,
}

/// Abstract accessibility node.
pub struct NodeModel {
    pub id: u64,
    pub parent: Option<u64>,
    pub role: AccessibilityRole,
    pub label: Seq<char>,
    pub value: Seq<char>,
    pub help: Seq<char>,
    pub enabled: bool,
    pub selected: bool,
    pub focused: bool,
    pub actions: u32,
}

impl View for AccessibilityNode {
    type V = NodeModel;

    open spec fn view(&self) -> NodeModel {
        NodeModel {
            id: self.id,
            parent: self.parent,
            role: self.role,
            label: self.label@,
            value: self.value@,
            help: self.help@,
            enabled: self.enabled,
            selected: self.selected,
            focused: self.focused,
            actions: self.actions,
        }
    }
}

/// The accessibility tree of the Pane: the application root, the focused
/// Pane under it, and under the Pane the composer (Flow, when eligible) or
/// the direct terminal with its text (Raw/TUI).
pub open spec fn spec_accessibility_nodes(
    shell: ShellSnapshot,
    eligibility: PresentationEligibility,
    composer_eligible: bool,
    output: Seq<char>,
) -> Seq<NodeModel> {
    let pane_title = match pane_row_from(shell.panes@, shell.focused_pane, 0) {
        Some(p) => p.title@,
        None => "Pane"@,
    };
    let base = seq![
        NodeModel {
            id: 1,
            parent: None,
            role: AccessibilityRole::Application,
            label: "Seyal"@,
            value: Seq::empty(),
            help: "Seyal application root"@,
            enabled: true,
            selected: false,
            focused: false,
            actions: 0,
        },
        NodeModel {
            id: 2,
            parent: Some(1),
            role: AccessibilityRole::Pane,
            label: pane_title,
            value: Seq::empty(),
            help: "Terminal pane"@,
            enabled: true,
            selected: true,
            focused: true,
            actions: 1,
        },
    ];
    match eligibility {
        PresentationEligibility::Unbound => base,
        PresentationEligibility::Flow => if composer_eligible {
            base.push(
                NodeModel {
                    id: 3,
                    parent: Some(2),
                    role: AccessibilityRole::Composer,
                    label: "Composer"@,
                    value: Seq::empty(),
                    help: "Flow composer is eligible; draft lifecycle is #881"@,
                    enabled: true,
                    selected: false,
                    focused: false,
                    actions: 0,
                },
            )
        } else {
            base
        },
        _ => base.push(
            NodeModel {
                id: 3,
                parent: Some(2),
                role: AccessibilityRole::Terminal,
                label: "Terminal"@,
                value: output,
                help: "Direct terminal presentation"@,
                enabled: true,
                selected: false,
                focused: true,
                actions: 0,
            },
        ),
    }
}

/// Build the accessibility tree of the focused Pane.
pub fn accessibility_nodes(
    shell: &ShellSnapshot,
    eligibility: PresentationEligibility,
    composer_eligible: bool,
    output: &str,
) -> (r: Vec<AccessibilityNode>)
    ensures
        r@.map_values(|n: AccessibilityNode| n@) == spec_accessibility_nodes(
            *shell,
            eligibility,
            composer_eligible,
            output@,
        ),
{
    let pane_title = match find_pane_row(&shell.panes, shell.focused_pane) {
        Some(k) => copy_string(&shell.panes[k].title),
        None => owned("Pane"),
    };
    let mut nodes: Vec<AccessibilityNode> = Vec::new();
    nodes.push(
        AccessibilityNode {
            id: 1,
            parent: None,
            role: AccessibilityRole::Application,
            label: owned("Seyal"),
            value: String::new(),
            help: owned("Seyal application root"),
            enabled: true,
            selected: false,
            focused: false,
            actions: 0,
        },
    );
    nodes.push(
        AccessibilityNode {
            id: 2,
            parent: Some(1),
            role: AccessibilityRole::Pane,
            label: pane_title,
            value: String::new(),
            help: owned("Terminal pane"),
            enabled: true,
            selected: true,
            focused: true,
            actions: 1,
        },
    );
    match eligibility {
        PresentationEligibility::Unbound => {},
        PresentationEligibility::Flow => {
            if composer_eligible {
                nodes.push(
                    AccessibilityNode {
                        id: 3,
                        parent: Some(2),
                        role: AccessibilityRole::Composer,
                        label: owned("Composer"),
                        value: String::new(),
                        help: owned("Flow composer is eligible; draft lifecycle is #881"),
                        enabled: true,
                        selected: false,
                        focused: false,
                        actions: 0,
                    },
                );
            }
        },
        _ => {
            nodes.push(
                AccessibilityNode {
                    id: 3,
                    parent: Some(2),
                    role: AccessibilityRole::Terminal,
                    label: owned("Terminal"),
                    value: owned(output),
                    help: owned("Direct terminal presentation"),
                    enabled: true,
                    selected: false,
                    focused: true,
                    actions: 0,
                },
            );
        },
    }
    assert(nodes@.map_values(|n: AccessibilityNode| n@) =~= spec_accessibility_nodes(
        *shell,
        eligibility,
        composer_eligible,
        output@,
    ));
    nodes
}

/// A Pane never offers the composer and the direct terminal at once, and an
/// unbound Pane offers neither.
pub proof fn composer_and_terminal_are_exclusive(
    shell: ShellSnapshot,
    eligibility: PresentationEligibility,
    composer_eligible: bool,
    output: Seq<char>,
)
    ensures
        ({
            let nodes = spec_accessibility_nodes(shell, eligibility, composer_eligible, output);
            &&& !(exists|i: int, j: int|
                0 <= i < nodes.len() && 0 <= j < nodes.len() && nodes[i].role
                    == AccessibilityRole::Composer && nodes[j].role == AccessibilityRole::Terminal)
            &&& eligibility == PresentationEligibility::Unbound ==> nodes.len() == 2
        }),
{
}

/// The host-facing number of an application error (1 through 15, in
/// declaration order).
pub open spec fn spec_error_number(error: AppError) -> int {
    match error {
        AppError::UnknownPane => 1,
        AppError::StalePane => 2,
        AppError::StaleExecution => 3,
        AppError::StaleAttachment => 4,
        AppError::StaleController => 5,
        AppError::StalePresentationEpoch => 6,
        AppError::UnboundUnauthorized => 7,
        AppError::AlreadyBound => 8,
        AppError::NotController => 9,
        AppError::DirectInputUnauthorized => 10,
        AppError::ZeroPtyGeneration => 11,
        AppError::Frozen => 12,
        AppError::NoLiveClient => 13,
        AppError::InvalidPayload => 14,
        AppError::StaleRecoveryGeneration => 15,
    }
}

/// Number an application error for the host ABI.
pub fn error_number(error: AppError) -> (r: i32)
    ensures
        r == spec_error_number(error),
        1 <= r <= 15,
{
    match error {
        AppError::UnknownPane => 1,
        AppError::StalePane => 2,
        AppError::StaleExecution => 3,
        AppError::StaleAttachment => 4,
        AppError::StaleController => 5,
        AppError::StalePresentationEpoch => 6,
        AppError::UnboundUnauthorized => 7,
        AppError::AlreadyBound => 8,
        AppError::NotController => 9,
        AppError::DirectInputUnauthorized => 10,
        AppError::ZeroPtyGeneration => 11,
        AppError::Frozen => 12,
        AppError::NoLiveClient => 13,
        AppError::InvalidPayload => 14,
        AppError::StaleRecoveryGeneration => 15,
    }
}

/// Distinct application errors have distinct numbers, so a host can always
/// tell them apart.
pub proof fn error_numbers_are_distinct(a: AppError, b: AppError)
    ensures
        spec_error_number(a) == spec_error_number(b) ==> a == b,
{
}

/// Whether direct terminal input may be sent: the Pane must be bound, this
/// attachment must be its controller, and the presentation must be Raw or
/// TUI (Flow input goes through the composer). `Ok(false)` when the text is
/// empty and nothing is to be sent.
pub open spec fn spec_authorize_direct_input(
    bound: bool,
    controller: bool,
    eligibility: PresentationEligibility,
    text_empty: bool,
) -> Result<bool, AppError> {
    if !bound {
        Err(AppError::UnboundUnauthorized)
    } else if !controller {
        Err(AppError::NotController)
    } else {
        match eligibility {
            PresentationEligibility::Unbound => Err(AppError::UnboundUnauthorized),
            PresentationEligibility::Flow => Err(AppError::DirectInputUnauthorized),
            _ => Ok(!text_empty),
        }
    }
}

/// Decide whether direct input may be sent (see
/// [`spec_authorize_direct_input`]).
pub fn authorize_direct_input(
    bound: bool,
    controller: bool,
    eligibility: PresentationEligibility,
    text_empty: bool,
) -> (r: Result<bool, AppError>)
    ensures
        r == spec_authorize_direct_input(bound, controller, eligibility, text_empty),
{
    if !bound {
        return Err(AppError::UnboundUnauthorized);
    }
    if !controller {
        return Err(AppError::NotController);
    }
    match eligibility {
        PresentationEligibility::Raw | PresentationEligibility::Tui => {},
        PresentationEligibility::Unbound => {
            return Err(AppError::UnboundUnauthorized);
        },
        PresentationEligibility::Flow => {
            return Err(AppError::DirectInputUnauthorized);
        },
    }
    Ok(!text_empty)
}

/// The presentation a bound Pane derives from the terminal: TUI while the
/// alternate screen is active, Flow otherwise.
pub fn derived_presentation_mode(alternate_screen: bool) -> (r: PresentationMode)
    ensures
        r == (if alternate_screen {
            PresentationMode::Tui
        } else {
            PresentationMode::Flow
        }),
{
    if alternate_screen {
        PresentationMode::Tui
    } else {
        PresentationMode::Flow
    }
}

/// Direct input is never authorised for an observer or in Flow, whatever
/// else holds.
pub proof fn observers_and_flow_never_send_direct_input(
    bound: bool,
    controller: bool,
    eligibility: PresentationEligibility,
    text_empty: bool,
)
    requires
        !controller || eligibility == PresentationEligibility::Flow || !bound,
    ensures
        spec_authorize_direct_input(bound, controller, eligibility, text_empty) is Err,
{
}

// ---------------------------------------------------------------------------
// The application root.
// ---------------------------------------------------------------------------

/// A host action on the application root.
#[derive(Clone, Debug, PartialEq, Eq)]
pub enum AppAction {
    Focus { fence: AppFence },
    Bind { fence: AppFence, evidence: BindingEvidence },
    Refresh { fence: AppFence },
    SubmitInput { fence: AppFence, text: String },
    Quit,
    AckEffect,
}

/// Everything a host renders of the root.
#[derive(Clone, Debug, PartialEq, Eq)]
pub struct AppSnapshot {
    pub generation: u64,
    pub pane: PaneId,
    pub execution: Option<ExecutionId>,
    pub attachment: Option<AttachmentId>,
    pub controller: bool,
    pub presentation_epoch: u64,
    pub eligibility: PresentationEligibility,
    pub composer_eligible: bool,
    pub frozen: bool,
    pub last_error: Option<AppError>,
    pub pending_effect: NativeEffect,
    pub output_utf8: String,
    pub shell: ShellSnapshot,
    pub accessibility: Vec<AccessibilityNode>,
}

/// The execution a Pane is bound to and this attachment's authority on it.
#[derive(Clone, Copy, Debug, PartialEq, Eq, Structural)]
pub struct PaneAuthority {
    pub pane: PaneId,
    pub execution: ExecutionId,
    pub attachment: AttachmentId,
    pub controller: bool,
    pub pty_generation: u64,
}

/// The root's state as data (the composition it owns never changes).
pub struct RootModel {
    pub presentation: PresentationModel,
    pub authority: Option<PaneAuthority>,
    pub generation: u64,
    pub last_error: Option<AppError>,
    pub effect: NativeEffect,
    pub frozen: bool,
    pub output: Seq<char>,
}

/// The presentation identity of a bound Pane.
pub open spec fn bound_identity(a: PaneAuthority) -> PresentationIdentity {
    PresentationIdentity { execution_id: a.execution, pty_generation: a.pty_generation }
}

/// The fence a host must echo: the focused Pane while unbound, else the
/// bound identities, with the presentation epoch.
pub open spec fn root_fence(m: RootModel, focused: PaneId) -> AppFence {
    match m.authority {
        None => AppFence {
            pane: focused,
            execution: None,
            attachment: None,
            controller: false,
            presentation_epoch: m.presentation.epoch,
        },
        Some(b) => AppFence {
            pane: b.pane,
            execution: Some(b.execution),
            attachment: Some(b.attachment),
            controller: b.controller,
            presentation_epoch: m.presentation.epoch,
        },
    }
}

pub open spec fn root_eligibility(m: RootModel) -> PresentationEligibility {
    spec_eligibility(m.authority is Some, m.presentation.mode)
}

/// The root's invariant: a bound Pane is the focused one, its PTY
/// generation is positive and the presentation is fenced to it; an unbound
/// root has no presentation identity.
pub open spec fn root_wf(m: RootModel, focused: PaneId) -> bool {
    match m.authority {
        None => m.presentation.identity is None,
        Some(a) => a.pane == focused && a.pty_generation != 0 && m.presentation.identity == Some(
            bound_identity(a),
        ),
    }
}

/// The presentation a bound Pane derives from the terminal: TUI on the
/// alternate screen, else Flow; a change is an implicit transition that
/// advances the epoch.
pub open spec fn spec_derive(m: RootModel, alternate_screen: bool) -> RootModel {
    match m.authority {
        None => m,
        Some(a) => {
            let desired = if alternate_screen {
                PresentationMode::Tui
            } else {
                PresentationMode::Flow
            };
            if m.presentation.mode == desired {
                m
            } else {
                RootModel {
                    presentation: PresentationModel {
                        mode: desired,
                        identity: Some(bound_identity(a)),
                        epoch: m.presentation.epoch.wrapping_add(1),
                        input_route: spec_route(desired),
                        last_transition_was_explicit: false,
                    },
                    ..m
                }
            }
        },
    }
}

/// The Pane an action is fenced to (the focused one for unfenced actions).
pub open spec fn action_pane(action: AppAction, focused: PaneId) -> PaneId {
    match action {
        AppAction::Focus { fence } => fence.pane,
        AppAction::Bind { fence, .. } => fence.pane,
        AppAction::Refresh { fence } => fence.pane,
        AppAction::SubmitInput { fence, .. } => fence.pane,
        _ => focused,
    }
}

/// What one action does, before the root's bookkeeping; `known` says
/// whether the fenced Pane exists. Every fenced action first checks its
/// fence. Focus changes nothing; Bind binds an unbound Pane to an execution
/// with a positive PTY generation and derives its presentation; Refresh
/// re-derives it; direct input needs a bound controller outside Flow and a
/// live client, which this root does not hold; Quit freezes and asks the
/// host to detach and terminate; AckEffect clears that request.
pub open spec fn spec_act(m: RootModel, focused: PaneId, known: bool, action: AppAction) -> Result<
    RootModel,
    AppError,
> {
    match action {
        AppAction::Focus { fence } => match spec_check_fence(fence, root_fence(m, focused), known) {
            Err(e) => Err(e),
            Ok(()) => Ok(m),
        },
        AppAction::Bind { fence, evidence } => match spec_check_fence(
            fence,
            root_fence(m, focused),
            known,
        ) {
            Err(e) => Err(e),
            Ok(()) => if m.authority is Some {
                Err(AppError::AlreadyBound)
            } else if evidence.pty_generation == 0 {
                Err(AppError::ZeroPtyGeneration)
            } else {
                let a = PaneAuthority {
                    pane: fence.pane,
                    execution: evidence.execution,
                    attachment: evidence.attachment,
                    controller: evidence.controller,
                    pty_generation: evidence.pty_generation,
                };
                Ok(
                    spec_derive(
                        RootModel {
                            authority: Some(a),
                            presentation: PresentationModel {
                                identity: Some(bound_identity(a)),
                                ..m.presentation
                            },
                            ..m
                        },
                        evidence.alternate_screen,
                    ),
                )
            },
        },
        AppAction::Refresh { fence } => match spec_check_fence(fence, root_fence(m, focused), known) {
            Err(e) => Err(e),
            Ok(()) => Ok(spec_derive(m, root_eligibility(m) == PresentationEligibility::Tui)),
        },
        AppAction::SubmitInput { fence, text } => match spec_check_fence(
            fence,
            root_fence(m, focused),
            known,
        ) {
            Err(e) => Err(e),
            Ok(()) => match spec_authorize_direct_input(
                m.authority is Some,
                m.authority matches Some(a) && a.controller,
                root_eligibility(m),
                text@.len() == 0,
            ) {
                Err(e) => Err(e),
                Ok(send) => if send {
                    Err(AppError::NoLiveClient)
                } else {
                    Ok(m)
                },
            },
        },
        AppAction::Quit => Ok(
            RootModel { frozen: true, effect: NativeEffect::BoundedDetachThenTerminate, ..m },
        ),
        AppAction::AckEffect => Ok(RootModel { effect: NativeEffect::NoEffect, ..m }),
    }
}

/// One action with the root's bookkeeping: a frozen root refuses all but
/// Quit and AckEffect; a success clears the last error and advances the
/// snapshot generation by one (saturating); a failure records the error and
/// changes nothing else.
pub open spec fn spec_root_apply(m: RootModel, focused: PaneId, known: bool, action: AppAction) -> (
    RootModel,
    Result<(), AppError>,
) {
    if m.frozen && !(action is AckEffect || action is Quit) {
        (RootModel { last_error: Some(AppError::Frozen), ..m }, Err(AppError::Frozen))
    } else {
        match spec_act(m, focused, known, action) {
            Ok(n) => (
                RootModel {
                    last_error: None,
                    generation: if n.generation == u64::MAX {
                        u64::MAX
                    } else {
                        (n.generation + 1) as u64
                    },
                    ..n
                },
                Ok(()),
            ),
            Err(e) => (RootModel { last_error: Some(e), ..m }, Err(e)),
        }
    }
}

/// Sole writable portable product state for one Pane.
pub struct ApplicationRoot {
    shell: ShellState,
    presentation: PresentationSession,
    authority: Option<PaneAuthority>,
    output_utf8: String,
    snapshot_generation: u64,
    last_error: Option<AppError>,
    pending_effect: NativeEffect,
    frozen: bool,
}

impl View for ApplicationRoot {
    type V = RootModel;

    closed spec fn view(&self) -> RootModel {
        RootModel {
            presentation: self.presentation@,
            authority: self.authority,
            generation: self.snapshot_generation,
            last_error: self.last_error,
            effect: self.pending_effect,
            frozen: self.frozen,
            output: self.output_utf8@,
        }
    }
}

impl ApplicationRoot {
    /// The focused Pane of the root's composition.
    pub closed spec fn focused(&self) -> PaneId {
        self.shell.focused_pane()
    }

    /// The composition the root owns: one Workspace, Tab and Pane.
    pub closed spec fn composition(&self) -> ShellState {
        self.shell
    }

    /// Whether the root's composition holds `pane`.
    pub closed spec fn knows_pane(&self, pane: PaneId) -> bool {
        self.shell.spec_has_pane(pane)
    }

    /// The root's invariant.
    pub closed spec fn wf(&self) -> bool {
        &&& self.shell.wf()
        &&& self.shell.spec_has_pane(self.shell.focused_pane())
        &&& root_wf(self@, self.focused())
    }

    /// One unbound Pane in the local composition, in Flow, at generation 1.
    pub fn new() -> (r: Self)
        ensures
            r.wf(),
            r@ == (RootModel {
                presentation: PresentationModel {
                    mode: PresentationMode::Flow,
                    identity: None,
                    epoch: 1,
                    input_route: spec_route(PresentationMode::Flow),
                    last_transition_was_explicit: false,
                },
                authority: None,
                generation: 1,
                last_error: None,
                effect: NativeEffect::NoEffect,
                frozen: false,
                output: Seq::empty(),
            }),
            r.composition().spec_workspaces().len() == 1,
            r.composition().active_workspace().tabs@.len() == 1,
            r.focused() == r.composition().active_workspace().tabs@[0].pane.id,
    {
        let shell = ShellState::m001_local("local");
        proof {
            assert(shell.spec_workspaces()[0].tabs@[0].id == shell.active_workspace().active_tab);
            assert(shell.spec_has_pane(shell.focused_pane())) by {
                let k = crate::shell::tab_index_from(
                    shell.active_workspace().tabs@,
                    shell.active_workspace().active_tab,
                    0,
                );
                assert(k == 0);
                assert(shell.spec_workspaces()[0].tabs@[0].pane.id == shell.focused_pane());
            }
        }
        let r = ApplicationRoot {
            presentation: PresentationSession::new(None, PresentationMode::Flow),
            shell,
            authority: None,
            output_utf8: String::new(),
            snapshot_generation: 1,
            last_error: None,
            pending_effect: NativeEffect::NoEffect,
            frozen: false,
        };
        r
    }

    fn focused_pane(&self) -> (r: PaneId)
        requires
            self.wf(),
        ensures
            r == self.focused(),
    {
        let snap = self.shell.snapshot();
        snap.focused_pane
    }

    /// The fence a host must echo with its next action.
    pub fn fence(&self) -> (r: AppFence)
        requires
            self.wf(),
        ensures
            r == root_fence(self@, self.focused()),
    {
        let epoch = self.presentation.snapshot().epoch;
        match self.authority {
            None => AppFence {
                pane: self.focused_pane(),
                execution: None,
                attachment: None,
                controller: false,
                presentation_epoch: epoch,
            },
            Some(bound) => AppFence {
                pane: bound.pane,
                execution: Some(bound.execution),
                attachment: Some(bound.attachment),
                controller: bound.controller,
                presentation_epoch: epoch,
            },
        }
    }

    /// The presentation state of the Pane.
    pub fn presentation(&self) -> (r: PresentationSnapshot)
        ensures
            r.mode == self@.presentation.mode,
            r.identity == self@.presentation.identity,
            r.epoch == self@.presentation.epoch,
            r.input_route == self@.presentation.input_route,
            r.last_transition_was_explicit == self@.presentation.last_transition_was_explicit,
    {
        self.presentation.snapshot()
    }

    fn eligibility(&self) -> (r: PresentationEligibility)
        ensures
            r == root_eligibility(self@),
    {
        presentation_eligibility(self.authority.is_some(), self.presentation.snapshot().mode)
    }

    /// Everything a host renders.
    pub fn snapshot(&self) -> (r: AppSnapshot)
        requires
            self.wf(),
        ensures
            r.generation == self@.generation,
            r.pane == self.focused(),
            r.execution == (match self@.authority {
                Some(a) => Some(a.execution),
                None => None,
            }),
            r.attachment == (match self@.authority {
                Some(a) => Some(a.attachment),
                None => None,
            }),
            r.controller == (self@.authority matches Some(a) && a.controller),
            r.presentation_epoch == self@.presentation.epoch,
            r.eligibility == root_eligibility(self@),
            r.composer_eligible == (root_eligibility(self@) == PresentationEligibility::Flow
                && !self@.frozen),
            r.frozen == self@.frozen,
            r.last_error == self@.last_error,
            r.pending_effect == self@.effect,
            r.output_utf8@ == self@.output,
            r.shell.focused_pane == self.focused(),
            r.shell.panes@.len() == 1,
            r.shell.panes@[0].id == self.focused(),
            r.shell.panes@[0].execution == r.execution,
            r.accessibility@.map_values(|n: AccessibilityNode| n@) == spec_accessibility_nodes(
                r.shell,
                r.eligibility,
                r.composer_eligible,
                self@.output,
            ),
    {
        let mut shell = self.shell.snapshot();
        let execution = match self.authority {
            Some(bound) => Some(bound.execution),
            None => None,
        };
        let pane_row = shell.panes.remove(0);
        shell.panes.insert(
            0,
            crate::shell::ShellPaneRow { id: pane_row.id, title: pane_row.title, execution },
        );
        let eligibility = self.eligibility();
        let composer_eligible = eligibility == PresentationEligibility::Flow && !self.frozen;
        let accessibility = accessibility_nodes(
            &shell,
            eligibility,
            composer_eligible,
            self.output_utf8.as_str(),
        );
        AppSnapshot {
            generation: self.snapshot_generation,
            pane: shell.focused_pane,
            execution,
            attachment: match self.authority {
                Some(bound) => Some(bound.attachment),
                None => None,
            },
            controller: match self.authority {
                Some(bound) => bound.controller,
                None => false,
            },
            presentation_epoch: self.presentation.snapshot().epoch,
            eligibility,
            composer_eligible,
            frozen: self.frozen,
            last_error: self.last_error,
            pending_effect: self.pending_effect,
            output_utf8: copy_string(&self.output_utf8),
            shell,
            accessibility,
        }
    }

    fn require_fence(&self, fence: AppFence) -> (r: Result<(), AppError>)
        requires
            self.wf(),
        ensures
            r == spec_check_fence(fence, root_fence(self@, self.focused()), self.knows_pane(fence.pane)),
    {
        let current = self.fence();
        let known = self.shell.has_pane(fence.pane);
        check_fence(fence, current, known)
    }

    fn derive_presentation(&mut self, alternate_screen: bool) -> (r: Result<(), AppError>)
        requires
            old(self).wf(),
        ensures
            r is Ok,
            final(self).wf(),
            final(self)@ == spec_derive(old(self)@, alternate_screen),
            final(self).focused() == old(self).focused(),
            final(self).composition() == old(self).composition(),
            forall|p: PaneId| final(self).knows_pane(p) == old(self).knows_pane(p),
    {
        let bound = match self.authority {
            None => {
                return Ok(());
            },
            Some(b) => b,
        };
        let desired = derived_presentation_mode(alternate_screen);
        let current = self.presentation.snapshot();
        if current.mode == desired {
            return Ok(());
        }
        let identity = PresentationIdentity { execution_id: bound.execution, pty_generation: bound.pty_generation };
        match self.presentation.apply(
            PresentationAction::Transition {
                mode: desired,
                identity,
                explicit: false,
                epoch: current.epoch,
            },
        ) {
            Ok(()) => Ok(()),
            Err(_) => Err(AppError::StalePresentationEpoch),
        }
    }

    fn act(&mut self, action: AppAction) -> (r: Result<(), AppError>)
        requires
            old(self).wf(),
        ensures
            final(self).wf(),
            final(self).focused() == old(self).focused(),
            final(self).composition() == old(self).composition(),
            forall|p: PaneId| final(self).knows_pane(p) == old(self).knows_pane(p),
            match spec_act(
                old(self)@,
                old(self).focused(),
                old(self).knows_pane(action_pane(action, old(self).focused())),
                action,
            ) {
                Ok(n) => r is Ok && final(self)@ == n,
                Err(e) => r == Err::<(), AppError>(e) && final(self)@ == old(self)@,
            },
    {
        match action {
            AppAction::Focus { fence } => {
                self.require_fence(fence)?;
                match self.shell.apply(ShellAction::FocusPane { id: fence.pane }) {
                    Ok(()) => Ok(()),
                    Err(_) => Err(AppError::UnknownPane),
                }
            },
            AppAction::Bind { fence, evidence } => {
                self.require_fence(fence)?;
                if self.authority.is_some() {
                    return Err(AppError::AlreadyBound);
                }
                if evidence.pty_generation == 0 {
                    return Err(AppError::ZeroPtyGeneration);
                }
                let identity = match PresentationIdentity::new(
                    evidence.execution,
                    evidence.pty_generation,
                ) {
                    Some(id) => id,
                    None => {
                        return Err(AppError::ZeroPtyGeneration);
                    },
                };
                match self.presentation.apply(PresentationAction::BindIdentity(identity)) {
                    Ok(()) => {},
                    Err(_) => {
                        return Err(AppError::AlreadyBound);
                    },
                }
                self.authority = Some(
                    PaneAuthority {
                        pane: fence.pane,
                        execution: evidence.execution,
                        attachment: evidence.attachment,
                        controller: evidence.controller,
                        pty_generation: evidence.pty_generation,
                    },
                );
                self.derive_presentation(evidence.alternate_screen)
            },
            AppAction::Refresh { fence } => {
                self.require_fence(fence)?;
                let tui = self.eligibility() == PresentationEligibility::Tui;
                self.derive_presentation(tui)
            },
            AppAction::SubmitInput { fence, text } => {
                self.require_fence(fence)?;
                let controller = match self.authority {
                    Some(bound) => bound.controller,
                    None => false,
                };
                let send = authorize_direct_input(
                    self.authority.is_some(),
                    controller,
                    self.eligibility(),
                    text.as_str().is_empty(),
                )?;
                if send {
                    return Err(AppError::NoLiveClient);
                }
                Ok(())
            },
            AppAction::Quit => {
                self.frozen = true;
                self.pending_effect = NativeEffect::BoundedDetachThenTerminate;
                Ok(())
            },
            AppAction::AckEffect => {
                self.pending_effect = NativeEffect::NoEffect;
                Ok(())
            },
        }
    }

    /// Apply one host action (see [`spec_root_apply`]).
    pub fn apply(&mut self, action: AppAction) -> (r: Result<(), AppError>)
        requires
            old(self).wf(),
        ensures
            final(self).wf(),
            final(self).focused() == old(self).focused(),
            final(self).composition() == old(self).composition(),
            (final(self)@, r) == spec_root_apply(
                old(self)@,
                old(self).focused(),
                old(self).knows_pane(action_pane(action, old(self).focused())),
                action,
            ),
    {
        let frozen_gate = match action {
            AppAction::AckEffect | AppAction::Quit => false,
            _ => true,
        };
        if self.frozen && frozen_gate {
            self.last_error = Some(AppError::Frozen);
            return Err(AppError::Frozen);
        }
        match self.act(action) {
            Ok(()) => {
                self.last_error = None;
                self.snapshot_generation = self.snapshot_generation.saturating_add(1);
                Ok(())
            },
            Err(error) => {
                self.last_error = Some(error);
                Err(error)
            },
        }
    }
}

impl Default for ApplicationRoot {
    fn default() -> (r: Self)
        ensures
            r.wf(),
            r@.authority is None,
            r@.generation == 1,
    {
        ApplicationRoot::new()
    }
}

/// A bound Pane keeps its execution: no action, successful or not, binds
/// another one or unbinds it.
pub proof fn bound_execution_is_never_replaced(
    m: RootModel,
    focused: PaneId,
    known: bool,
    action: AppAction,
)
    requires
        m.authority is Some,
    ensures
        spec_root_apply(m, focused, known, action).0.authority == m.authority,
{
}

/// A failed action records its error and changes nothing else; in
/// particular the snapshot generation does not advance.
pub proof fn failed_actions_change_nothing_but_the_error(
    m: RootModel,
    focused: PaneId,
    known: bool,
    action: AppAction,
)
    ensures
        spec_root_apply(m, focused, known, action).1 matches Err(e) ==> spec_root_apply(
            m,
            focused,
            known,
            action,
        ).0 == (RootModel { last_error: Some(e), ..m }),
{
}

/// A stale fence never passes: any action fenced with identities other than
/// the current ones fails.
pub proof fn stale_fences_fail_closed(m: RootModel, focused: PaneId, known: bool, action: AppAction)
    requires
        match action {
            AppAction::Focus { fence } => fence != root_fence(m, focused),
            AppAction::Bind { fence, .. } => fence != root_fence(m, focused),
            AppAction::Refresh { fence } => fence != root_fence(m, focused),
            AppAction::SubmitInput { fence, .. } => fence != root_fence(m, focused),
            _ => false,
        },
    ensures
        spec_root_apply(m, focused, known, action).1 is Err,
{
}

} // verus!
