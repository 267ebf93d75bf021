use bort_vk::descriptor::DESCRIPTOR_POOL_CREATE_FREE_DESCRIPTOR_SET;
use bort_vk::{
    descriptor_pool_properties_for_bindings, descriptor_pool_properties_for_layout,
    descriptor_pool_properties_for_layouts, DescriptorPoolProperties, DescriptorPoolSize,
    DescriptorSetLayoutBinding, DescriptorSetLayoutProperties,
};

const UNIFORM_BUFFER: i32 = 6;
const COMBINED_IMAGE_SAMPLER: i32 = 1;
const STORAGE_BUFFER: i32 = 7;

fn binding(binding: u32, descriptor_type: i32, descriptor_count: u32) -> DescriptorSetLayoutBinding {
    DescriptorSetLayoutBinding { binding, descriptor_type, descriptor_count, stage_flags: 0x11 }
}

fn count_for(p: &DescriptorPoolProperties, ty: i32) -> Option<u32> {
    p.pool_sizes.iter().find(|s| s.ty == ty).map(|s| s.descriptor_count)
}

#[test]
fn pool_for_one_layout() {
    let layout = DescriptorSetLayoutProperties::new_default(vec![
        binding(0, UNIFORM_BUFFER, 1),
        binding(1, COMBINED_IMAGE_SAMPLER, 4),
        binding(2, UNIFORM_BUFFER, 2),
    ]);
    let p = descriptor_pool_properties_for_layout(&layout);
    // sets from these pools are freed one by one when dropped
    assert_eq!(p.flags, DESCRIPTOR_POOL_CREATE_FREE_DESCRIPTOR_SET);
    assert!(p.frees_individual_sets());
    assert_eq!(p.max_sets, 1);
    assert_eq!(p.pool_sizes.len(), 2);
    // the descriptor counts of the bindings of each type add up
    assert_eq!(count_for(&p, UNIFORM_BUFFER), Some(3));
    assert_eq!(count_for(&p, COMBINED_IMAGE_SAMPLER), Some(4));
    let total: u32 = p.pool_sizes.iter().map(|s| s.descriptor_count).sum();
    assert_eq!(total, 7);
}

#[test]
fn pool_for_several_layouts() {
    let layouts = vec![
        DescriptorSetLayoutProperties::new_default(vec![binding(0, UNIFORM_BUFFER, 1)]),
        DescriptorSetLayoutProperties::new_default(vec![]),
        DescriptorSetLayoutProperties::new_default(vec![
            binding(0, STORAGE_BUFFER, 3),
            binding(1, UNIFORM_BUFFER, 1),
        ]),
    ];
    let p = descriptor_pool_properties_for_layouts(&layouts);
    assert_eq!(p.max_sets, 3);
    assert_eq!(count_for(&p, UNIFORM_BUFFER), Some(2));
    assert_eq!(count_for(&p, STORAGE_BUFFER), Some(3));
    assert_eq!(count_for(&p, COMBINED_IMAGE_SAMPLER), None);
}

#[test]
fn pool_for_no_bindings() {
    let p = descriptor_pool_properties_for_bindings(&vec![], 0);
    assert_eq!(p.max_sets, 0);
    assert!(p.pool_sizes.is_empty());
    let p = descriptor_pool_properties_for_bindings(&vec![binding(0, UNIFORM_BUFFER, 2)], 4);
    assert_eq!(p.max_sets, 4);
    assert_eq!(p.pool_sizes, vec![DescriptorPoolSize { ty: UNIFORM_BUFFER, descriptor_count: 2 }]);
}

#[test]
fn pool_skips_types_without_descriptors() {
    let bindings = vec![
        binding(0, STORAGE_BUFFER, 0),
        binding(1, UNIFORM_BUFFER, 2),
        binding(2, COMBINED_IMAGE_SAMPLER, 0),
        binding(3, COMBINED_IMAGE_SAMPLER, 1),
    ];
    let p = descriptor_pool_properties_for_bindings(&bindings, 1);
    assert_eq!(
        p.pool_sizes,
        vec![
            DescriptorPoolSize { ty: UNIFORM_BUFFER, descriptor_count: 2 },
            DescriptorPoolSize { ty: COMBINED_IMAGE_SAMPLER, descriptor_count: 1 },
        ]
    );
    assert!(p.pool_sizes.iter().all(|s| s.descriptor_count > 0));
}

#[test]
fn pool_properties_defaults_and_flags() {
    let d = DescriptorPoolProperties::default();
    assert_eq!((d.flags, d.max_sets, d.pool_sizes.len()), (0, 0, 0));
    let mut p = DescriptorPoolProperties::new_default(
        4,
        vec![DescriptorPoolSize { ty: UNIFORM_BUFFER, descriptor_count: 4 }],
    );
    assert_eq!(p.max_sets, 4);
    assert!(!p.frees_individual_sets());
    p.flags = DESCRIPTOR_POOL_CREATE_FREE_DESCRIPTOR_SET;
    assert!(p.frees_individual_sets());
    assert_eq!(
        DESCRIPTOR_POOL_CREATE_FREE_DESCRIPTOR_SET,
        ash::vk::DescriptorPoolCreateFlags::FREE_DESCRIPTOR_SET.as_raw()
    );
    let l = DescriptorSetLayoutProperties::default();
    assert_eq!((l.flags, l.bindings.len()), (0, 0));
}
