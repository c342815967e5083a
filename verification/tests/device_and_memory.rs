use raytracer::device::{
    select_device, device_score, find_queue_family, DeviceClass, DeviceProfile, MemoryHeap,
    QueueFamilyCaps,
};
use raytracer::error::RenderError;
use raytracer::memory::find_memory_type;

fn full_caps_family() -> QueueFamilyCaps {
    QueueFamilyCaps { graphics_and_compute: true, present: true }
}

fn profile(class: DeviceClass, local_gib: u64, all_extensions: bool) -> DeviceProfile {
    DeviceProfile {
        class,
        queue_families: vec![full_caps_family()],
        heaps: vec![MemoryHeap { size: local_gib * 0x4000_0000, device_local: true }],
        has_swapchain: all_extensions,
        has_acceleration_structure: all_extensions,
        has_ray_tracing_pipeline: all_extensions,
        has_deferred_host_operations: all_extensions,
        has_buffer_device_address: all_extensions,
    }
}

#[test]
fn discrete_beats_integrated() {
    let devices = vec![
        profile(DeviceClass::IntegratedGpu, 8, true),
        profile(DeviceClass::DiscreteGpu, 4, true),
    ];
    let s = select_device(&devices).unwrap();
    assert_eq!(s.index, 1);
    assert_eq!(s.queue_family, 0);
    assert_eq!(s.score, 1004);
}

#[test]
fn discrete_tie_broken_by_memory() {
    let devices = vec![
        profile(DeviceClass::DiscreteGpu, 2, true),
        profile(DeviceClass::DiscreteGpu, 6, true),
        profile(DeviceClass::DiscreteGpu, 6, true),
    ];
    let s = select_device(&devices).unwrap();
    // The larger memory wins; an exact tie keeps enumeration order.
    assert_eq!(s.index, 1);
    assert_eq!(s.score, 1006);
}

#[test]
fn device_without_extensions_is_skipped() {
    let devices = vec![
        profile(DeviceClass::DiscreteGpu, 8, false),
        profile(DeviceClass::IntegratedGpu, 1, true),
    ];
    let s = select_device(&devices).unwrap();
    assert_eq!(s.index, 1);
    assert_eq!(s.score, 501);
}

#[test]
fn device_without_queue_family_is_skipped() {
    let mut d = profile(DeviceClass::DiscreteGpu, 8, true);
    d.queue_families = vec![
        QueueFamilyCaps { graphics_and_compute: true, present: false },
        QueueFamilyCaps { graphics_and_compute: false, present: true },
    ];
    let devices = vec![d, profile(DeviceClass::Cpu, 0, true)];
    let s = select_device(&devices).unwrap();
    assert_eq!(s.index, 1);
    assert_eq!(s.score, 100);
}

#[test]
fn no_device_at_all_fails() {
    let devices: Vec<DeviceProfile> = Vec::new();
    assert_eq!(select_device(&devices), Err(RenderError::NoSuitableDevice));
}

#[test]
fn no_suitable_device_fails() {
    let devices = vec![profile(DeviceClass::DiscreteGpu, 8, false)];
    assert_eq!(select_device(&devices), Err(RenderError::NoSuitableDevice));
}

#[test]
fn score_counts_only_device_local_heaps() {
    let d = DeviceProfile {
        class: DeviceClass::DiscreteGpu,
        queue_families: vec![full_caps_family()],
        heaps: vec![
            MemoryHeap { size: 2 * 0x4000_0000, device_local: true },
            MemoryHeap { size: 16 * 0x4000_0000, device_local: false },
            MemoryHeap { size: 0x4000_0000 + 0x3FFF_FFFF, device_local: true },
        ],
        has_swapchain: true,
        has_acceleration_structure: true,
        has_ray_tracing_pipeline: true,
        has_deferred_host_operations: true,
        has_buffer_device_address: true,
    };
    // 1000 + 2 + 1 (partial GiB rounds down); the host heap does not count.
    assert_eq!(device_score(&d), 1003);
}

#[test]
fn first_suitable_queue_family_wins() {
    let families = vec![
        QueueFamilyCaps { graphics_and_compute: true, present: false },
        QueueFamilyCaps { graphics_and_compute: true, present: true },
        QueueFamilyCaps { graphics_and_compute: true, present: true },
    ];
    assert_eq!(find_queue_family(&families), Some(1));
}

#[test]
fn memory_type_lowest_match_wins() {
    // Types 1 and 2 are admitted by the bitmask; type 1 lacks a bit.
    let props = vec![0b011u32, 0b001, 0b011];
    let r = find_memory_type(0b110, &props, 0b010);
    assert_eq!(r, Ok(2));
    let mask = 1u32 << 2;
    assert!(0b110 & mask != 0);
    assert_eq!(props[2] & 0b010, 0b010);
}

#[test]
fn memory_type_respects_bitmask() {
    // Type 0 has the properties but the bitmask excludes it.
    let props = vec![0b111u32, 0b001];
    assert_eq!(find_memory_type(0b10, &props, 0b010), Err(RenderError::NoCompatibleMemoryType));
}

#[test]
fn unsatisfiable_property_class_fails() {
    let props = vec![0b001u32, 0b101];
    assert_eq!(find_memory_type(0b11, &props, 0b010), Err(RenderError::NoCompatibleMemoryType));
}

#[test]
fn recoverable_errors() {
    assert!(RenderError::SurfaceOutOfDate.is_recoverable());
    assert!(!RenderError::NoSuitableDevice.is_recoverable());
    assert!(!RenderError::PresentFailed.is_recoverable());
    assert!(!RenderError::AllocationFailed { requested_bytes: 1024, usage: 7 }.is_recoverable());
}
