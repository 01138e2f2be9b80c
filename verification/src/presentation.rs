//! Flow/Raw/TUI presentation for one terminal execution: mode, identity and
//! epoch fencing, input-route policy, and renderer presentation intent.

use vstd::prelude::*;

use crate::ids::ExecutionId;

verus! {

#[derive(Clone, Copy, Debug, PartialEq, Eq, Structural)]
pub enum PresentationMode {
    Flow,
    Raw,
    Tui,
}

#[derive(Clone, Copy, Debug, PartialEq, Eq, Structural)]
pub struct PresentationIdentity {
    pub execution_id: ExecutionId,
    pub pty_generation: u64,
}

impl PresentationIdentity {
    /// An identity; `None` for the invalid zero PTY generation.
    pub fn new(execution_id: ExecutionId, pty_generation: u64) -> (r: Option<Self>)
        ensures
            pty_generation == 0 ==> r.is_none(),
            pty_generation != 0 ==> r == Some(
                PresentationIdentity { execution_id, pty_generation },
            ),
    {
        if pty_generation == 0 {
            None
        } else {
            Some(PresentationIdentity { execution_id, pty_generation })
        }
    }
}

#[derive(Clone, Copy, Debug, PartialEq, Eq, Structural)]
pub enum InputRoute {
    Composer,
    DirectTerminal,
    Frozen,
}

#[derive(Clone, Copy, Debug, PartialEq, Eq, Structural)]
pub struct RendererPlan {
    pub mode: PresentationMode,
    pub draws_full_grid_background: bool,
    pub draws_live_grid: bool,
    pub draws_cursor_outside_block_regions: bool,
}

impl RendererPlan {
    /// The Flow plan: nothing of the live grid is drawn outside Block regions.
    pub fn flow() -> (r: Self)
        ensures
            r == (RendererPlan {
                mode: PresentationMode::Flow,
                draws_full_grid_background: false,
                draws_live_grid: false,
                draws_cursor_outside_block_regions: false,
            }),
    {
        RendererPlan {
            mode: PresentationMode::Flow,
            draws_full_grid_background: false,
            draws_live_grid: false,
            draws_cursor_outside_block_regions: false,
        }
    }

    /// The full-pane plan for Raw or TUI presentation.
    pub fn full_pane(mode: PresentationMode) -> (r: Self)
        requires
            mode != PresentationMode::Flow,
        ensures
            r == (RendererPlan {
                mode,
                draws_full_grid_background: true,
                draws_live_grid: true,
                draws_cursor_outside_block_regions: true,
            }),
    {
        RendererPlan {
            mode,
            draws_full_grid_background: true,
            draws_live_grid: true,
            draws_cursor_outside_block_regions: true,
        }
    }

    /// The plan for `mode`.
    pub fn for_mode(mode: PresentationMode) -> (r: Self)
        ensures
            r == spec_plan(mode),
    {
        match mode {
            PresentationMode::Flow => Self::flow(),
            PresentationMode::Raw => Self::full_pane(mode),
            PresentationMode::Tui => Self::full_pane(mode),
        }
    }
}

/// The renderer plan of a presentation mode.
pub open spec fn spec_plan(mode: PresentationMode) -> RendererPlan {
    let full = mode != PresentationMode::Flow;
    RendererPlan {
        mode,
        draws_full_grid_background: full,
        draws_live_grid: full,
        draws_cursor_outside_block_regions: full,
    }
}

#[derive(Clone, Copy, Debug, PartialEq, Eq, Structural)]
pub struct FlowPaintInspection {
    pub mode: PresentationMode,
    pub live_grid_submitted: bool,
    pub full_grid_background_submitted: bool,
    pub history_instance_count: u32,
    pub instances_outside_clips: u32,
    pub opaque_pixels_outside_clips: u32,
    pub opaque_pixels_inside_clips: u32,
}

/// A Flow paint is clean when no live grid, full-grid background, or
/// out-of-clip instance or pixel was submitted; other modes are always clean.
pub open spec fn spec_is_clean(i: FlowPaintInspection) -> bool {
    i.mode != PresentationMode::Flow || (!i.live_grid_submitted
        && !i.full_grid_background_submitted && i.instances_outside_clips == 0
        && i.opaque_pixels_outside_clips == 0)
}

impl FlowPaintInspection {
    pub fn is_clean(self) -> (r: bool)
        ensures
            r == spec_is_clean(self),
    {
        if self.mode != PresentationMode::Flow {
            return true;
        }
        !self.live_grid_submitted && !self.full_grid_background_submitted
            && self.instances_outside_clips == 0 && self.opaque_pixels_outside_clips == 0
    }

    /// `"n/a"` outside Flow, otherwise `"ok"` when clean and `"leak"` when not.
    pub fn accessibility_token(self) -> (r: &'static str)
        ensures
            self.mode != PresentationMode::Flow ==> r@ == "n/a"@,
            self.mode == PresentationMode::Flow && spec_is_clean(self) ==> r@ == "ok"@,
            self.mode == PresentationMode::Flow && !spec_is_clean(self) ==> r@ == "leak"@,
    {
        if self.mode != PresentationMode::Flow {
            "n/a"
        } else if self.is_clean() {
            "ok"
        } else {
            "leak"
        }
    }
}

#[derive(Clone, Copy, Debug, PartialEq, Eq, Structural)]
pub enum PresentationError {
    ZeroPtyGeneration,
    IdentityMismatch,
    StaleEpoch,
}

#[derive(Clone, Copy, Debug, PartialEq, Eq, Structural)]
pub enum PresentationAction {
    BindIdentity(PresentationIdentity),
    Transition {
        mode: PresentationMode,
        identity: PresentationIdentity,
        explicit: bool,
        /// Must match the session epoch. Stale native callbacks fail closed.
        epoch: u64,
    },
}

#[derive(Clone, Copy, Debug, PartialEq, Eq, Structural)]
pub struct PresentationSnapshot {
    pub mode: PresentationMode,
    pub identity: Option<PresentationIdentity>,
    pub epoch: u64,
    pub input_route: InputRoute,
    pub last_transition_was_explicit: bool,
    pub allows_direct_terminal_first_responder: bool,
    pub allows_empty_canvas_terminal_hit_test: bool,
    pub renderer_plan: RendererPlan,
}

/// The input route a settled presentation mode installs.
pub open spec fn spec_route(mode: PresentationMode) -> InputRoute {
    match mode {
        PresentationMode::Flow => InputRoute::Composer,
        _ => InputRoute::DirectTerminal,
    }
}

/// Abstract presentation state.
pub struct PresentationModel {
    pub mode: PresentationMode,
    pub identity: Option<PresentationIdentity>,
    pub epoch: u64,
    pub input_route: InputRoute,
    pub last_transition_was_explicit: bool,
}

/// The state after `action`, or the error it fails with (state unchanged).
pub open spec fn spec_next(
    m: PresentationModel,
    action: PresentationAction,
) -> Result<PresentationModel, PresentationError> {
    match action {
        PresentationAction::BindIdentity(identity) => {
            if identity.pty_generation == 0 {
                Err(PresentationError::ZeroPtyGeneration)
            } else {
                match m.identity {
                    None => Ok(PresentationModel { identity: Some(identity), ..m }),
                    Some(current) => if current == identity {
                        Ok(m)
                    } else {
                        Err(PresentationError::IdentityMismatch)
                    },
                }
            }
        },
        PresentationAction::Transition { mode, identity, explicit, epoch } => {
            if identity.pty_generation == 0 {
                Err(PresentationError::ZeroPtyGeneration)
            } else if epoch != m.epoch {
                Err(PresentationError::StaleEpoch)
            } else if m.identity.is_some() && m.identity.unwrap() != identity {
                Err(PresentationError::IdentityMismatch)
            } else if mode == m.mode {
                Ok(
                    PresentationModel {
                        identity: Some(identity),
                        last_transition_was_explicit: explicit,
                        ..m
                    },
                )
            } else {
                Ok(
                    PresentationModel {
                        mode,
                        identity: Some(identity),
                        epoch: m.epoch.wrapping_add(1),
                        input_route: spec_route(mode),
                        last_transition_was_explicit: explicit,
                    },
                )
            }
        },
    }
}

#[derive(Clone, Debug, PartialEq, Eq, Structural)]
pub struct PresentationSession {
    mode: PresentationMode,
    identity: Option<PresentationIdentity>,
    epoch: u64,
    last_transition_was_explicit: bool,
}

impl View for PresentationSession {
    type V = PresentationModel;

    closed spec fn view(&self) -> PresentationModel {
        PresentationModel {
            mode: self.mode,
            identity: self.identity,
            epoch: self.epoch,
            input_route: spec_route(self.mode),
            last_transition_was_explicit: self.last_transition_was_explicit,
        }
    }
}

impl PresentationSession {
    pub fn new(identity: Option<PresentationIdentity>, mode: PresentationMode) -> (r: Self)
        ensures
            r@ == (PresentationModel {
                mode,
                identity,
                epoch: 1,
                input_route: spec_route(mode),
                last_transition_was_explicit: false,
            }),
    {
        PresentationSession {
            identity,
            mode,
            epoch: 1,
            last_transition_was_explicit: false,
        }
    }

    /// Apply one action. On error the session is unchanged.
    pub fn apply(&mut self, action: PresentationAction) -> (r: Result<(), PresentationError>)
        ensures
            match spec_next(old(self)@, action) {
                Ok(m) => r is Ok && final(self)@ == m,
                Err(e) => r == Err::<(), PresentationError>(e) && final(self)@ == old(self)@,
            },
    {
        match action {
            PresentationAction::BindIdentity(identity) => self.bind_identity(identity),
            PresentationAction::Transition { mode, identity, explicit, epoch } => self.transition(
                mode,
                identity,
                explicit,
                epoch,
            ),
        }
    }

    pub fn snapshot(&self) -> (r: PresentationSnapshot)
        ensures
            r.mode == self@.mode,
            r.identity == self@.identity,
            r.epoch == self@.epoch,
            r.input_route == self@.input_route,
            r.input_route == spec_route(self@.mode),
            r.last_transition_was_explicit == self@.last_transition_was_explicit,
            r.allows_direct_terminal_first_responder == (self@.mode != PresentationMode::Flow),
            r.allows_empty_canvas_terminal_hit_test == (self@.mode != PresentationMode::Flow),
            r.renderer_plan == spec_plan(self@.mode),
    {
        let input_route = Self::route(self.mode);
        let allows_direct = self.mode != PresentationMode::Flow && input_route
            == InputRoute::DirectTerminal;
        PresentationSnapshot {
            mode: self.mode,
            identity: self.identity,
            epoch: self.epoch,
            input_route,
            last_transition_was_explicit: self.last_transition_was_explicit,
            allows_direct_terminal_first_responder: allows_direct,
            allows_empty_canvas_terminal_hit_test: allows_direct,
            renderer_plan: RendererPlan::for_mode(self.mode),
        }
    }

    fn bind_identity(&mut self, identity: PresentationIdentity) -> (r: Result<
        (),
        PresentationError,
    >)
        ensures
            match spec_next(old(self)@, PresentationAction::BindIdentity(identity)) {
                Ok(m) => r is Ok && final(self)@ == m,
                Err(e) => r == Err::<(), PresentationError>(e) && final(self)@ == old(self)@,
            },
    {
        if identity.pty_generation == 0 {
            return Err(PresentationError::ZeroPtyGeneration);
        }
        match self.identity {
            None => {
                self.identity = Some(identity);
                Ok(())
            },
            Some(current) => {
                if current == identity {
                    Ok(())
                } else {
                    Err(PresentationError::IdentityMismatch)
                }
            },
        }
    }

    fn transition(
        &mut self,
        next: PresentationMode,
        identity: PresentationIdentity,
        explicit: bool,
        epoch: u64,
    ) -> (r: Result<(), PresentationError>)
        ensures
            match spec_next(
                old(self)@,
                PresentationAction::Transition { mode: next, identity, explicit, epoch },
            ) {
                Ok(m) => r is Ok && final(self)@ == m,
                Err(e) => r == Err::<(), PresentationError>(e) && final(self)@ == old(self)@,
            },
    {
        if identity.pty_generation == 0 {
            return Err(PresentationError::ZeroPtyGeneration);
        }
        if epoch != self.epoch {
            return Err(PresentationError::StaleEpoch);
        }
        match self.identity {
            None => {
                self.identity = Some(identity);
            },
            Some(current) => {
                if current.execution_id != identity.execution_id || current.pty_generation
                    != identity.pty_generation {
                    return Err(PresentationError::IdentityMismatch);
                }
            },
        }
        if next == self.mode {
            self.last_transition_was_explicit = explicit;
            return Ok(());
        }
        // The input route is derived from the settled mode, so the old route is
        // fenced in the same step that installs the new mode.
        self.epoch = self.epoch.wrapping_add(1);
        self.mode = next;
        self.last_transition_was_explicit = explicit;
        Ok(())
    }

    fn route(mode: PresentationMode) -> (r: InputRoute)
        ensures
            r == spec_route(mode),
    {
        match mode {
            PresentationMode::Flow => InputRoute::Composer,
            PresentationMode::Raw => InputRoute::DirectTerminal,
            PresentationMode::Tui => InputRoute::DirectTerminal,
        }
    }
}

/// A bound identity is never replaced: after any action, a session that had
/// an identity still has the same one.
pub proof fn bound_identity_is_never_replaced(m: PresentationModel, action: PresentationAction)
    requires
        m.identity.is_some(),
    ensures
        spec_next(m, action) matches Ok(n) ==> n.identity == m.identity,
{
}

/// The epoch advances exactly when a transition changes the mode; every other
/// accepted action keeps it.
pub proof fn epoch_advances_only_on_mode_change(m: PresentationModel, action: PresentationAction)
    ensures
        spec_next(m, action) matches Ok(n) ==> (n.mode != m.mode <==> n.epoch == m.epoch.wrapping_add(1)),
        spec_next(m, action) matches Ok(n) ==> (n.mode == m.mode ==> n.epoch == m.epoch),
{
}

/// After any accepted action the input route is the route of the settled
/// mode, provided it was before: the transient Frozen route is never observable.
pub proof fn route_follows_mode(m: PresentationModel, action: PresentationAction)
    requires
        m.input_route == spec_route(m.mode),
    ensures
        spec_next(m, action) matches Ok(n) ==> n.input_route == spec_route(n.mode),
{
}

} // verus!
