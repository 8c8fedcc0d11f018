//! End-to-end bootstrap against a native layer double that always
//! succeeds and records every call made to it.

use renderer::device::Device;
use renderer::device::DeviceStep;
use renderer::instance::Created;
use renderer::instance::Diagnostics;
use renderer::instance::Instance;
use renderer::instance::InstanceSpec;
use renderer::instance::MessengerOutcome;
use renderer::instance::TeardownAction;

/// A stand-in for the native API: every creation call succeeds with a
/// fresh non-null handle, and every call is recorded in order.
struct NativeDouble {
    next_handle: u64,
    calls: Vec<String>,
}

impl NativeDouble {
    fn new() -> Self {
        NativeDouble { next_handle: 100, calls: Vec::new() }
    }

    fn create(&mut self, what: &str) -> Result<u64, i32> {
        self.next_handle += 1;
        self.calls.push(format!("create_{}", what));
        Ok(self.next_handle)
    }

    fn destroy(&mut self, action: &TeardownAction) {
        match action {
            TeardownAction::DestroyMessenger(_) => self.calls.push(String::from("destroy_messenger")),
            TeardownAction::DestroyInstance(_) => self.calls.push(String::from("destroy_instance")),
        }
    }
}

#[test]
fn full_bootstrap_with_validation_then_teardown() {
    let mut native = NativeDouble::new();

    // Construct the instance with validation on.
    let config = InstanceSpec {
        app_name: String::from("test"),
        extensions: Vec::new(),
        layers: Vec::new(),
        validation: true,
    };
    let plan = Instance::new(config);
    assert!(plan.messenger.is_some());

    let created = Instance::after_creation(&plan, native.create("instance"));
    let (instance_handle, _messenger_plan) = match created {
        Created::AwaitMessenger { instance, plan } => (instance, plan),
        other => panic!("expected a messenger request, got {:?}", other),
    };
    let inst = match Instance::after_messenger(instance_handle, native.create("messenger")) {
        MessengerOutcome::Ready(inst) => inst,
        other => panic!("expected a finished instance, got {:?}", other),
    };

    // Loader present, messenger non-null.
    assert!(matches!(inst.diagnostics, Diagnostics::Enabled { .. }));
    assert_ne!(inst.messenger_handle(), 0);

    // Create a device against a fabricated physical device, family 0.
    let device_plan = inst.create_device(77, 0, Vec::new());
    let step = Device::after_creation(native.create("device"), device_plan.family_index);
    let device = match step {
        DeviceStep::QueryQueue { device, family_index, queue_index } => {
            assert_eq!(queue_index, 0);
            let queue: u64 = 500; // the double's queue handle
            Device::new(77, device, queue, family_index)
        }
        other => panic!("expected a queue query, got {:?}", other),
    };
    assert_eq!(device.family_index, 0);
    assert_ne!(device.queue, 0);

    // Tear the instance down: the double must see the messenger destroyed
    // strictly before the instance.
    for action in inst.teardown_plan() {
        native.destroy(&action);
    }

    let destroy_messenger = native.calls.iter().position(|c| c == "destroy_messenger");
    let destroy_instance = native.calls.iter().position(|c| c == "destroy_instance");
    assert!(destroy_messenger.is_some());
    assert!(destroy_instance.is_some());
    assert!(destroy_messenger.unwrap() < destroy_instance.unwrap());

    assert_eq!(
        native.calls,
        vec![
            String::from("create_instance"),
            String::from("create_messenger"),
            String::from("create_device"),
            String::from("destroy_messenger"),
            String::from("destroy_instance"),
        ]
    );
}
