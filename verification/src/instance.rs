//! Instance Manager: builds the instance-creation descriptors, decides
//! whether a validation messenger is chained into them, assembles the
//! owned `Instance` value from the handles the native calls return, and
//! computes the strict reverse-order teardown sequence.
//!
//! Bringing the instance up takes up to two native calls (create the
//! instance; if validation was requested, register the messenger). Each
//! decision between those calls is a function here, taking the previous
//! call's outcome as a plain value, so the whole sequence — including the
//! no-leak path when messenger registration fails after the instance
//! already exists — is verified for every outcome.

use vstd::prelude::*;

use crate::diagnostics::SEVERITY_ERROR;
use crate::diagnostics::SEVERITY_WARNING;
use crate::diagnostics::TYPE_DEVICE_ADDRESS_BINDING;
use crate::diagnostics::TYPE_GENERAL;
use crate::diagnostics::TYPE_PERFORMANCE;
use crate::diagnostics::TYPE_VALIDATION;

verus! {

/// Messenger severity mask requested by default: errors and warnings
/// (informational and verbose classes are selectable but off by default).
pub const DEFAULT_SEVERITY_MASK: u32 = SEVERITY_ERROR | SEVERITY_WARNING;

/// Messenger category mask requested by default: all four categories.
pub const DEFAULT_TYPE_MASK: u32 = TYPE_GENERAL | TYPE_VALIDATION | TYPE_PERFORMANCE
    | TYPE_DEVICE_ADDRESS_BINDING;

/// Configuration for instance creation, immutable once built.
#[derive(Debug, PartialEq, Eq)]
pub struct InstanceSpec {
    /// Application display name.
    pub app_name: String,
    /// Extension name tokens to enable.
    pub extensions: Vec<String>,
    /// Layer name tokens to enable.
    pub layers: Vec<String>,
    /// Whether the diagnostic/validation subsystem is attached.
    pub validation: bool,
}

/// An opaque status code returned by a failed native creation call,
/// passed through unchanged.
#[derive(Clone, Copy, Debug, PartialEq, Eq)]
pub struct ApiError {
    pub code: i32,
}

/// The diagnostic subsystem of an instance: either absent, or the loader
/// is present together with the registered messenger's handle. Modelling
/// it as one tagged variant makes "messenger present iff validation
/// enabled" structural rather than a runtime assumption.
#[derive(Clone, Copy, Debug, PartialEq, Eq)]
pub enum Diagnostics {
    Disabled,
    Enabled { messenger: u64 },
}

/// The owned top-level API connection: the instance handle, and the
/// optional diagnostic subsystem tied to it.
#[derive(Clone, Copy, Debug, PartialEq, Eq)]
pub struct Instance {
    /// Native instance handle.
    pub instance: u64,
    /// The optional validation messenger registered on this instance.
    pub diagnostics: Diagnostics,
}

/// The descriptor for registering the diagnostic messenger: which
/// severities and which message categories it subscribes to.
#[derive(Clone, Copy, Debug, PartialEq, Eq)]
pub struct MessengerPlan {
    pub severity_mask: u32,
    pub type_mask: u32,
}

/// Everything the native instance-creation call is given: the API version
/// floor, the application name, the layer and extension tokens, and — iff
/// validation was requested — the messenger descriptor chained into the
/// creation descriptor so creation-time diagnostics are observable.
#[derive(Debug, PartialEq, Eq)]
pub struct CreationPlan {
    /// Packed API version floor requested for the instance.
    pub api_version: u32,
    pub app_name: String,
    pub layers: Vec<String>,
    pub extensions: Vec<String>,
    /// The messenger descriptor to chain in, present iff validation.
    pub messenger: Option<MessengerPlan>,
}

/// Where the bootstrap stands after the native instance-creation call.
#[derive(Clone, Copy, Debug, PartialEq, Eq)]
pub enum Created {
    /// Validation was off: the instance is complete.
    Ready(Instance),
    /// Validation was on: the messenger must now be registered on the
    /// freshly created instance, with the planned descriptor.
    AwaitMessenger { instance: u64, plan: MessengerPlan },
    /// Creation failed; nothing was allocated, nothing to clean up.
    Failed(ApiError),
}

/// Where the bootstrap stands after the messenger-registration call.
#[derive(Clone, Copy, Debug, PartialEq, Eq)]
pub enum MessengerOutcome {
    /// The messenger is registered: the instance is complete.
    Ready(Instance),
    /// Registration failed. The instance was already created and must not
    /// leak: `cleanup` is that instance (with no diagnostics attached),
    /// whose teardown must still run before the error is reported.
    Abandoned { error: ApiError, cleanup: Instance },
}

/// One native destruction call owed during teardown.
#[derive(Clone, Copy, Debug, PartialEq, Eq)]
pub enum TeardownAction {
    DestroyMessenger(u64),
    DestroyInstance(u64),
}

/// The packed API version word: variant, major, minor and patch laid out
/// in bit fields of width 3, 7, 10 and 12 (shown here arithmetically).
pub open spec fn packed_version(variant: u32, major: u32, minor: u32, patch: u32) -> int {
    variant * 0x2000_0000 + major * 0x40_0000 + minor * 0x1000 + patch
}

/// Pack an API version word from its four components.
pub fn make_api_version(variant: u32, major: u32, minor: u32, patch: u32) -> (v: u32)
    requires
        variant < 0x8,
        major < 0x80,
        minor < 0x400,
        patch < 0x1000,
    ensures
        v == packed_version(variant, major, minor, patch),
{
    variant * 0x2000_0000 + major * 0x40_0000 + minor * 0x1000 + patch
}

/// The messenger descriptor requested by default: errors and warnings,
/// all four message categories.
pub open spec fn default_messenger_plan() -> MessengerPlan {
    MessengerPlan { severity_mask: DEFAULT_SEVERITY_MASK, type_mask: DEFAULT_TYPE_MASK }
}

/// The creation plan a configuration gives rise to: API version floor
/// 1.3.0, the configuration's tokens carried over unchanged, and the
/// default messenger descriptor chained in exactly when validation is
/// requested.
pub open spec fn creation_plan(config: InstanceSpec) -> CreationPlan {
    CreationPlan {
        api_version: 0x403000u32,
        app_name: config.app_name,
        layers: config.layers,
        extensions: config.extensions,
        messenger: if config.validation {
            Some(default_messenger_plan())
        } else {
            None
        },
    }
}

/// What the instance-creation outcome means for the bootstrap: a failure
/// aborts the whole operation with the native error unchanged; a success
/// either completes the instance (validation off) or moves on to
/// messenger registration (validation on).
pub open spec fn created_of(plan: CreationPlan, result: Result<u64, i32>) -> Created {
    match result {
        Err(e) => Created::Failed(ApiError { code: e }),
        Ok(h) => match plan.messenger {
            Some(mp) => Created::AwaitMessenger { instance: h, plan: mp },
            None => Created::Ready(
                Instance { instance: h, diagnostics: Diagnostics::Disabled },
            ),
        },
    }
}

/// What the messenger-registration outcome means: success completes the
/// instance with the messenger attached; failure abandons construction,
/// handing back the already created instance so its teardown still runs.
pub open spec fn messenger_outcome_of(instance: u64, result: Result<u64, i32>) -> MessengerOutcome {
    match result {
        Ok(m) => MessengerOutcome::Ready(
            Instance { instance, diagnostics: Diagnostics::Enabled { messenger: m } },
        ),
        Err(e) => MessengerOutcome::Abandoned {
            error: ApiError { code: e },
            cleanup: Instance { instance, diagnostics: Diagnostics::Disabled },
        },
    }
}

/// The destruction calls an instance owes, in order: the messenger (if
/// one is attached) strictly before the instance handle, because the
/// messenger is a child resource of the instance.
pub open spec fn teardown_seq(inst: Instance) -> Seq<TeardownAction> {
    match inst.diagnostics {
        Diagnostics::Enabled { messenger } => seq![
            TeardownAction::DestroyMessenger(messenger),
            TeardownAction::DestroyInstance(inst.instance),
        ],
        Diagnostics::Disabled => seq![TeardownAction::DestroyInstance(inst.instance)],
    }
}

impl Instance {
    /// Well-formed: the instance handle is non-null, and an attached
    /// messenger's handle is non-null.
    pub open spec fn wf(self) -> bool {
        &&& self.instance != 0
        &&& (self.diagnostics matches Diagnostics::Enabled { messenger } ==> messenger != 0)
    }

    /// The messenger handle as a plain word: the registered handle when
    /// diagnostics are attached, the null sentinel otherwise.
    pub open spec fn spec_messenger_handle(self) -> u64 {
        match self.diagnostics {
            Diagnostics::Disabled => 0,
            Diagnostics::Enabled { messenger } => messenger,
        }
    }

    /// Begin construction: build the full creation plan for this
    /// configuration. The caller performs the native creation call with
    /// it and continues with [`Instance::after_creation`].
    pub fn new(config: InstanceSpec) -> (p: CreationPlan)
        ensures
            p == creation_plan(config),
    {
        let InstanceSpec { app_name, extensions, layers, validation } = config;
        let api_version = make_api_version(0, 1, 3, 0);
        let messenger = if validation {
            Some(MessengerPlan { severity_mask: DEFAULT_SEVERITY_MASK, type_mask: DEFAULT_TYPE_MASK })
        } else {
            None
        };
        CreationPlan { api_version, app_name, layers, extensions, messenger }
    }

    /// Continue construction with the native instance-creation outcome:
    /// `result` is the created handle, or the native status code on
    /// failure (reported unchanged). A creation failure leaves nothing
    /// allocated. The native API returns a non-null handle on success,
    /// which the caller attests.
    pub fn after_creation(plan: &CreationPlan, result: Result<u64, i32>) -> (c: Created)
        requires
            result matches Ok(h) ==> h != 0,
        ensures
            c == created_of(*plan, result),
            c matches Created::Ready(inst) ==> inst.wf(),
    {
        match result {
            Err(e) => Created::Failed(ApiError { code: e }),
            Ok(h) => match &plan.messenger {
                Some(mp) => Created::AwaitMessenger { instance: h, plan: *mp },
                None => Created::Ready(
                    Instance { instance: h, diagnostics: Diagnostics::Disabled },
                ),
            },
        }
    }

    /// Finish construction with the messenger-registration outcome, for a
    /// bootstrap that reached [`Created::AwaitMessenger`]. On failure the
    /// previously created instance must not leak: the outcome hands it
    /// back so its teardown still runs on this exit path.
    pub fn after_messenger(instance: u64, result: Result<u64, i32>) -> (o: MessengerOutcome)
        requires
            instance != 0,
            result matches Ok(m) ==> m != 0,
        ensures
            o == messenger_outcome_of(instance, result),
            o matches MessengerOutcome::Ready(inst) ==> inst.wf(),
            o matches MessengerOutcome::Abandoned { error, cleanup } ==> cleanup.wf(),
    {
        match result {
            Ok(m) => MessengerOutcome::Ready(
                Instance { instance, diagnostics: Diagnostics::Enabled { messenger: m } },
            ),
            Err(e) => MessengerOutcome::Abandoned {
                error: ApiError { code: e },
                cleanup: Instance { instance, diagnostics: Diagnostics::Disabled },
            },
        }
    }

    /// Borrowed view of the instance handle, for dependent factories.
    pub fn handle(&self) -> (h: u64)
        ensures
            h == self.instance,
    {
        self.instance
    }

    /// The messenger handle: null sentinel when diagnostics are disabled.
    pub fn messenger_handle(&self) -> (h: u64)
        ensures
            h == self.spec_messenger_handle(),
    {
        match self.diagnostics {
            Diagnostics::Disabled => 0,
            Diagnostics::Enabled { messenger } => messenger,
        }
    }

    /// The destruction calls this instance owes, in the order they must
    /// be performed: messenger (if attached) first, instance last. Each
    /// is owed exactly once; the order is never reversed.
    pub fn teardown_plan(&self) -> (acts: Vec<TeardownAction>)
        ensures
            acts@ == teardown_seq(*self),
    {
        let mut acts: Vec<TeardownAction> = Vec::new();
        match self.diagnostics {
            Diagnostics::Enabled { messenger } => {
                acts.push(TeardownAction::DestroyMessenger(messenger));
                acts.push(TeardownAction::DestroyInstance(self.instance));
            },
            Diagnostics::Disabled => {
                acts.push(TeardownAction::DestroyInstance(self.instance));
            },
        }
        proof {
            assert(acts@ =~= teardown_seq(*self));
        }
        acts
    }
}

/// With validation disabled, bootstrap never asks for a messenger, and a
/// successful creation yields an instance whose diagnostic subsystem is
/// absent and whose messenger handle is the null sentinel.
pub proof fn lemma_validation_off_no_diagnostics(config: InstanceSpec, result: Result<u64, i32>)
    requires
        !config.validation,
    ensures
        !(created_of(creation_plan(config), result) is AwaitMessenger),
        created_of(creation_plan(config), result) matches Created::Ready(inst) ==> (
            inst.diagnostics is Disabled && inst.spec_messenger_handle() == 0),
{
}

/// With validation enabled and both native calls succeeding, the finished
/// instance carries the diagnostic subsystem: the loader side is present
/// and the messenger handle is the non-null handle the driver returned.
pub proof fn lemma_validation_on_attaches_messenger(config: InstanceSpec, h: u64, m: u64)
    requires
        config.validation,
        m != 0,
    ensures
        created_of(creation_plan(config), Result::<u64, i32>::Ok(h))
            matches Created::AwaitMessenger { instance, plan }
            && instance == h && plan == default_messenger_plan(),
        messenger_outcome_of(h, Result::<u64, i32>::Ok(m)) matches MessengerOutcome::Ready(inst)
            && inst.diagnostics == (Diagnostics::Enabled { messenger: m })
            && inst.spec_messenger_handle() == m && inst.spec_messenger_handle() != 0,
{
}

/// Teardown order: in every instance's teardown sequence, a messenger
/// destruction stands strictly before an instance destruction — the
/// messenger is destroyed before the instance that owns it, never after.
pub proof fn lemma_teardown_messenger_before_instance(inst: Instance)
    ensures
        forall|i: int, j: int|
            0 <= i < teardown_seq(inst).len() && 0 <= j < teardown_seq(inst).len()
                && #[trigger] teardown_seq(inst)[i] is DestroyMessenger
                && #[trigger] teardown_seq(inst)[j] is DestroyInstance ==> i < j,
{
}

/// A messenger-registration failure abandons construction without a
/// leak: the outcome reports the native error unchanged and carries the
/// already created instance, whose teardown destroys exactly that
/// instance handle.
pub proof fn lemma_abandoned_instance_is_reclaimed(instance: u64, e: i32)
    ensures
        messenger_outcome_of(instance, Result::<u64, i32>::Err(e))
            matches MessengerOutcome::Abandoned { error, cleanup }
            && error.code == e
            && teardown_seq(cleanup) =~= seq![TeardownAction::DestroyInstance(instance)],
{
}

} // verus!
