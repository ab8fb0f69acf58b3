use vstd::prelude::*;
use crate::constants::ALLEGRO_MEMORY_BITMAP;
use crate::version::{
    binding_version_int, mismatch_message, spec_binding_version, unpacked,
    version_mismatch_message,
};

verus! {

/// Where the start-up sequence stands.
#[derive(Clone, Copy, Debug, PartialEq, Eq, Structural)]
pub enum InitPhase {
    /// Nothing has happened yet.
    Ready,
    /// Waiting for `al_install_system` to answer.
    Installing,
    /// Waiting for the memory bitmap that serves as the dummy target.
    CreatingTarget,
    /// Waiting for the version that the system library reports.
    ReadingVersion,
    /// Waiting for the dummy target to be made the current target.
    SettingTarget,
    /// The sequence has ended.
    Finished,
}

/// What the outside world reports back to the start-up sequence.
#[derive(Clone, Copy, Debug, PartialEq, Eq, Structural)]
pub enum InitEvent {
    /// Start-up was asked for; `first_call` tells whether the run-once guard
    /// let this call through.
    Begin { first_call: bool },
    /// `al_install_system` returned `status`.
    SystemInstalled { status: i32 },
    /// `al_create_bitmap` returned a null pointer or a real bitmap.
    TargetCreated { is_null: bool },
    /// `al_get_allegro_version` returned `version`.
    VersionRead { version: u32 },
    /// `al_set_target_bitmap` was done.
    TargetSet,
}

/// What the start-up sequence asks the outside world to do next.
#[derive(Debug)]
pub enum InitAction {
    /// Call `al_install_system` with this packed version.
    InstallSystem { version: i32 },
    /// Set the new-bitmap flags to `new_bitmap_flags`, create a bitmap of
    /// `width` by `height`, then set the new-bitmap flags to `restored_flags`.
    CreateDummyTarget { new_bitmap_flags: i32, width: i32, height: i32, restored_flags: i32 },
    /// Call `al_get_allegro_version`.
    ReadSystemVersion,
    /// Make the dummy bitmap the current target.
    SetTarget,
    /// Start-up is over: `Ok` means a `Core` is to be handed out.
    Finish(Result<(), String>),
}

/// The mathematical form of an [`InitAction`], with messages as character
/// sequences.
pub enum InitActionView {
    InstallSystem { version: i32 },
    CreateDummyTarget { new_bitmap_flags: i32, width: i32, height: i32, restored_flags: i32 },
    ReadSystemVersion,
    SetTarget,
    Finish(Result<(), Seq<char>>),
}

impl View for InitAction {
    type V = InitActionView;

    open spec fn view(&self) -> InitActionView {
        match self {
            InitAction::InstallSystem { version } => InitActionView::InstallSystem {
                version: *version,
            },
            InitAction::CreateDummyTarget { new_bitmap_flags, width, height, restored_flags } =>
                InitActionView::CreateDummyTarget {
                new_bitmap_flags: *new_bitmap_flags,
                width: *width,
                height: *height,
                restored_flags: *restored_flags,
            },
            InitAction::ReadSystemVersion => InitActionView::ReadSystemVersion,
            InitAction::SetTarget => InitActionView::SetTarget,
            InitAction::Finish(Ok(())) => InitActionView::Finish(Ok(())),
            InitAction::Finish(Err(msg)) => InitActionView::Finish(Err(msg@)),
        }
    }
}

/// The message of a second start-up.
pub open spec fn already_initialized_message() -> Seq<char> {
    "Already initialized."@
}

/// The message when the dummy target cannot be created.
pub open spec fn dummy_target_message() -> Seq<char> {
    "Failed to create the dummy target... something is very wrong!"@
}

/// The event that the sequence waits for in each phase.
pub open spec fn event_fits(phase: InitPhase, event: InitEvent) -> bool {
    match (phase, event) {
        (InitPhase::Ready, InitEvent::Begin { .. }) => true,
        (InitPhase::Installing, InitEvent::SystemInstalled { .. }) => true,
        (InitPhase::CreatingTarget, InitEvent::TargetCreated { .. }) => true,
        (InitPhase::ReadingVersion, InitEvent::VersionRead { .. }) => true,
        (InitPhase::SettingTarget, InitEvent::TargetSet) => true,
        _ => false,
    }
}

/// One step of the start-up sequence: the next phase and the next action.
pub open spec fn spec_init_step(phase: InitPhase, event: InitEvent) -> (InitPhase, InitActionView) {
    match (phase, event) {
        (InitPhase::Ready, InitEvent::Begin { first_call }) => if first_call {
            (
                InitPhase::Installing,
                InitActionView::InstallSystem { version: spec_binding_version().packed() as i32 },
            )
        } else {
            (InitPhase::Finished, InitActionView::Finish(Err(already_initialized_message())))
        },
        (InitPhase::Installing, InitEvent::SystemInstalled { status }) => if status != 0 {
            (
                InitPhase::CreatingTarget,
                InitActionView::CreateDummyTarget {
                    new_bitmap_flags: ALLEGRO_MEMORY_BITMAP,
                    width: 1,
                    height: 1,
                    restored_flags: 0,
                },
            )
        } else {
            (InitPhase::ReadingVersion, InitActionView::ReadSystemVersion)
        },
        (InitPhase::CreatingTarget, InitEvent::TargetCreated { is_null }) => if is_null {
            (InitPhase::Finished, InitActionView::Finish(Err(dummy_target_message())))
        } else {
            (InitPhase::SettingTarget, InitActionView::SetTarget)
        },
        (InitPhase::ReadingVersion, InitEvent::VersionRead { version }) => (
            InitPhase::Finished,
            InitActionView::Finish(Err(mismatch_message(unpacked(version)))),
        ),
        (InitPhase::SettingTarget, InitEvent::TargetSet) => (
            InitPhase::Finished,
            InitActionView::Finish(Ok(())),
        ),
        _ => (phase, InitActionView::ReadSystemVersion),
    }
}

/// Decides the next step of `Core::init` from the current phase and what
/// the outside world last reported.
pub fn init_step(phase: InitPhase, event: InitEvent) -> (r: (InitPhase, InitAction))
    requires
        event_fits(phase, event),
    ensures
        r.0 == spec_init_step(phase, event).0,
        r.1@ == spec_init_step(phase, event).1,
{
    match event {
        InitEvent::Begin { first_call } => {
            if first_call {
                (InitPhase::Installing, InitAction::InstallSystem { version: binding_version_int() })
            } else {
                let msg = String::from_str("Already initialized.");
                (InitPhase::Finished, InitAction::Finish(Err(msg)))
            }
        },
        InitEvent::SystemInstalled { status } => {
            if status != 0 {
                (
                    InitPhase::CreatingTarget,
                    InitAction::CreateDummyTarget {
                        new_bitmap_flags: ALLEGRO_MEMORY_BITMAP,
                        width: 1,
                        height: 1,
                        restored_flags: 0,
                    },
                )
            } else {
                (InitPhase::ReadingVersion, InitAction::ReadSystemVersion)
            }
        },
        InitEvent::TargetCreated { is_null } => {
            if is_null {
                let msg = String::from_str(
                    "Failed to create the dummy target... something is very wrong!",
                );
                (InitPhase::Finished, InitAction::Finish(Err(msg)))
            } else {
                (InitPhase::SettingTarget, InitAction::SetTarget)
            }
        },
        InitEvent::VersionRead { version } => {
            let msg = version_mismatch_message(version);
            (InitPhase::Finished, InitAction::Finish(Err(msg)))
        },
        InitEvent::TargetSet => (InitPhase::Finished, InitAction::Finish(Ok(()))),
    }
}

/// What the outside world will report during one start-up.
pub struct InitWorld {
    pub first_call: bool,
    pub install_status: i32,
    pub target_is_null: bool,
    pub system_version: u32,
}

/// The report that the outside world gives to an action.
pub open spec fn world_response(action: InitActionView, w: InitWorld) -> InitEvent {
    match action {
        InitActionView::InstallSystem { .. } => InitEvent::SystemInstalled {
            status: w.install_status,
        },
        InitActionView::CreateDummyTarget { .. } => InitEvent::TargetCreated {
            is_null: w.target_is_null,
        },
        InitActionView::ReadSystemVersion => InitEvent::VersionRead {
            version: w.system_version,
        },
        _ => InitEvent::TargetSet,
    }
}

/// Drives the sequence from `phase` and `event` for at most `fuel` steps and
/// gives the last action.
pub open spec fn run_init(phase: InitPhase, event: InitEvent, w: InitWorld, fuel: nat) -> InitActionView
    decreases fuel,
{
    let (next, action) = spec_init_step(phase, event);
    if fuel <= 1 || action is Finish {
        action
    } else {
        run_init(next, world_response(action, w), w, (fuel - 1) as nat)
    }
}

/// The outcome of `Core::init`, as its code and doc comment describe it.
pub open spec fn init_outcome(w: InitWorld) -> Result<(), Seq<char>> {
    if !w.first_call {
        Err(already_initialized_message())
    } else if w.install_status == 0 {
        Err(mismatch_message(unpacked(w.system_version)))
    } else if w.target_is_null {
        Err(dummy_target_message())
    } else {
        Ok(())
    }
}

/// Each action but the last is answered by the event that the next phase
/// waits for, so driving the sequence never breaks its protocol.
pub proof fn lemma_init_protocol(phase: InitPhase, event: InitEvent, w: InitWorld)
    requires
        event_fits(phase, event),
    ensures
        !(spec_init_step(phase, event).1 is Finish) ==> event_fits(
            spec_init_step(phase, event).0,
            world_response(spec_init_step(phase, event).1, w),
        ),
        spec_init_step(phase, event).1 is Finish <==> spec_init_step(phase, event).0
            == InitPhase::Finished,
{
}

/// Start-up ends within four steps, with the outcome that `init_outcome`
/// gives; in particular it succeeds exactly when it is the first call, the
/// system accepts the binding's version and the dummy target exists.
pub proof fn lemma_init_outcome(w: InitWorld)
    ensures
        run_init(InitPhase::Ready, InitEvent::Begin { first_call: w.first_call }, w, 4)
            == InitActionView::Finish(init_outcome(w)),
        init_outcome(w) is Ok <==> (w.first_call && w.install_status != 0 && !w.target_is_null),
{
    reveal_with_fuel(run_init, 4);
}

} // verus!
