use renderer::device::Device;
use renderer::device::DeviceStep;
use renderer::instance::ApiError;
use renderer::instance::Diagnostics;
use renderer::instance::Instance;
use renderer::surface::Surface;
use renderer::surface::SurfaceError;
use renderer::surface::SurfaceRequest;

fn bare_instance() -> Instance {
    Instance { instance: 3, diagnostics: Diagnostics::Disabled }
}

#[test]
fn surface_staged_when_both_handles_available() {
    let r = bare_instance().create_surface(Some(21), Some(22));
    assert_eq!(r, Ok(SurfaceRequest { instance: 3, display: 21, window: 22 }));
}

#[test]
fn display_failure_is_reported_as_the_display_stage() {
    // The display-handle accessor failed: no request is staged, so no
    // native surface can be created.
    let r = bare_instance().create_surface(None, Some(22));
    assert_eq!(r, Err(SurfaceError::DisplayHandle));
}

#[test]
fn window_failure_is_reported_as_the_window_stage() {
    let r = bare_instance().create_surface(Some(21), None);
    assert_eq!(r, Err(SurfaceError::WindowHandle));
}

#[test]
fn native_surface_failure_is_reported_as_the_creation_stage() {
    let r = Surface::from_native(Err(-4));
    assert_eq!(r, Err(SurfaceError::Native(ApiError { code: -4 })));
}

#[test]
fn surface_owns_the_native_handle() {
    let s = Surface::from_native(Ok(33)).unwrap();
    assert_eq!(s.handle(), 33);
}

#[test]
fn device_plan_requests_one_queue_for_the_given_family() {
    let p = bare_instance().create_device(41, 2, vec![String::from("VK_KHR_swapchain")]);
    assert_eq!(p.physical_device, 41);
    assert_eq!(p.family_index, 2);
    assert_eq!(p.queue_count, 1);
    assert_eq!(p.extensions, vec![String::from("VK_KHR_swapchain")]);
}

#[test]
fn device_creation_success_queries_queue_zero() {
    let s = Device::after_creation(Ok(51), 2);
    assert_eq!(
        s,
        DeviceStep::QueryQueue { device: 51, family_index: 2, queue_index: 0 }
    );
}

#[test]
fn device_creation_failure_reports_the_native_error_unchanged() {
    let s = Device::after_creation(Err(-7), 2);
    assert_eq!(s, DeviceStep::Failed(ApiError { code: -7 }));
}

#[test]
fn device_keeps_queue_and_family_index() {
    let d = Device::new(41, 51, 61, 2);
    assert_ne!(d.queue, 0);
    assert_eq!(d.queue, 61);
    assert_eq!(d.family_index, 2);
    assert_eq!(d.physical_device, 41);
    assert_eq!(d.device, 51);
}
