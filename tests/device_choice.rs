use quad_renderer::device::{
    check_physical_device, check_physical_device_extensions, pick_physical_device,
    DeviceCandidate, DeviceSelectionError,
};
use quad_renderer::queue::{QueueFamilyIndices, SuitabilityError, QUEUE_GRAPHICS_BIT};

const COMPUTE: u32 = 2;
const TRANSFER: u32 = 4;

fn swapchain_ext() -> Vec<u8> {
    b"VK_KHR_swapchain".to_vec()
}

fn candidate(flags: Vec<u32>, present: Vec<bool>, exts: Vec<&str>) -> DeviceCandidate {
    DeviceCandidate {
        queue_flags: flags,
        present_support: present,
        extensions: exts.iter().map(|e| e.as_bytes().to_vec()).collect(),
    }
}

#[test]
fn queue_families_first_graphics_and_first_present() {
    let flags = vec![TRANSFER, COMPUTE | QUEUE_GRAPHICS_BIT, QUEUE_GRAPHICS_BIT];
    let present = vec![false, false, true, true];
    assert_eq!(
        QueueFamilyIndices::get(&flags, &present),
        Ok(QueueFamilyIndices { graphics: 1, presentation: 2 })
    );
}

#[test]
fn queue_families_missing_graphics_or_present() {
    assert_eq!(
        QueueFamilyIndices::get(&vec![COMPUTE, TRANSFER], &vec![true, true]),
        Err(SuitabilityError::MissingQueueFamilies)
    );
    assert_eq!(
        QueueFamilyIndices::get(&vec![QUEUE_GRAPHICS_BIT], &vec![false]),
        Err(SuitabilityError::MissingQueueFamilies)
    );
    assert_eq!(QueueFamilyIndices::get(&vec![], &vec![]), Err(SuitabilityError::MissingQueueFamilies));
}

#[test]
fn unique_indices_one_per_family() {
    assert_eq!(QueueFamilyIndices { graphics: 0, presentation: 0 }.unique_indices(), vec![0]);
    assert_eq!(QueueFamilyIndices { graphics: 0, presentation: 3 }.unique_indices(), vec![0, 3]);
}

#[test]
fn extension_check_needs_every_required_name() {
    let required = vec![swapchain_ext()];
    let available = vec![b"VK_KHR_maintenance1".to_vec(), swapchain_ext()];
    assert_eq!(check_physical_device_extensions(&available, &required), Ok(()));
    let missing = vec![b"VK_KHR_swapchain_x".to_vec(), b"VK_KHR_swapchai".to_vec()];
    assert_eq!(
        check_physical_device_extensions(&missing, &required),
        Err(SuitabilityError::MissingExtensions)
    );
    assert_eq!(check_physical_device_extensions(&vec![], &vec![]), Ok(()));
}

#[test]
fn device_check_reports_queue_problem_before_extensions() {
    let required = vec![swapchain_ext()];
    let c = candidate(vec![COMPUTE], vec![true], vec![]);
    assert_eq!(check_physical_device(&c, &required), Err(SuitabilityError::MissingQueueFamilies));
    let c = candidate(vec![QUEUE_GRAPHICS_BIT], vec![true], vec![]);
    assert_eq!(check_physical_device(&c, &required), Err(SuitabilityError::MissingExtensions));
    let c = candidate(vec![QUEUE_GRAPHICS_BIT], vec![true], vec!["VK_KHR_swapchain"]);
    assert_eq!(
        check_physical_device(&c, &required),
        Ok(QueueFamilyIndices { graphics: 0, presentation: 0 })
    );
}

#[test]
fn pick_takes_first_suitable_device() {
    let required = vec![swapchain_ext()];
    let devices = vec![
        candidate(vec![QUEUE_GRAPHICS_BIT], vec![true], vec![]),
        candidate(vec![COMPUTE, QUEUE_GRAPHICS_BIT], vec![true, false], vec!["VK_KHR_swapchain"]),
        candidate(vec![QUEUE_GRAPHICS_BIT], vec![true], vec!["VK_KHR_swapchain"]),
    ];
    assert_eq!(
        pick_physical_device(&devices, &required),
        Ok((1, QueueFamilyIndices { graphics: 1, presentation: 0 }))
    );
}

#[test]
fn pick_fails_without_suitable_device() {
    let required = vec![swapchain_ext()];
    let devices = vec![
        candidate(vec![QUEUE_GRAPHICS_BIT], vec![false], vec!["VK_KHR_swapchain"]),
        candidate(vec![TRANSFER], vec![true], vec!["VK_KHR_swapchain"]),
    ];
    assert_eq!(pick_physical_device(&devices, &required), Err(DeviceSelectionError));
    assert_eq!(pick_physical_device(&vec![], &required), Err(DeviceSelectionError));
}
