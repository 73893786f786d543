use hsakmt_rs::topology_types::node_props_t;
use hsakmt_rs::topology_utils::{
    node_entry_is_valid, node_properties_are_valid, num_subdirs, system_properties_are_valid, KfdNodeEntry,
    KfdTopologyNodeProperties, SysDevicesVirtualKfd,
};

const SYSTEM_PROPERTIES: &str = "platform_oem 35498446626881\nplatform_id 71964214861\nplatform_rev 1\n";

const GPU_PROPERTIES: &str = "cpu_cores_count 0\nsimd_count 64\nmem_banks_count 1\ncaches_count 109\n\
io_links_count 1\np2p_links_count 0\ncpu_core_id_base 0\nsimd_id_base 2147487744\ncapability 671588992\n\
debug_prop 1495\nmax_waves_per_simd 16\nlds_size_in_kb 64\ngds_size_in_kb 0\nnum_gws 64\n\
wave_front_size 32\narray_count 4\nsimd_arrays_per_engine 2\ncu_per_simd_array 8\nsimd_per_cu 2\n\
max_slots_scratch_cu 32\ngfx_target_version 100302\nvendor_id 4098\ndevice_id 29679\nlocation_id 768\n\
domain 0\ndrm_render_minor 128\nhive_id 0\nnum_sdma_engines 2\nnum_sdma_xgmi_engines 0\n\
num_sdma_queues_per_engine 8\nnum_cp_queues 8\nmax_engine_clk_fcompute 2900\nlocal_mem_size 0\n\
fw_version 118\nunique_id 0\nsdma_fw_version 76\nnum_xcc 1\nmax_engine_clk_ccompute 3800\n";

fn sample_nodes() -> Vec<KfdNodeEntry> {
    vec![
        KfdNodeEntry {
            name: "0".to_string(),
            gpu_id: Some("0\n".to_string()),
            properties: Some("cpu_cores_count 16\nsimd_count 0\n".to_string()),
        },
        KfdNodeEntry {
            name: "1".to_string(),
            gpu_id: Some("44231\n".to_string()),
            properties: Some(GPU_PROPERTIES.to_string()),
        },
    ]
}

#[test]
fn test_sysfs_nodes() {
    assert!(system_properties_are_valid(SYSTEM_PROPERTIES));
    let mut sys_devices_virtual_kfd = SysDevicesVirtualKfd::new(SYSTEM_PROPERTIES);
    let entries = sample_nodes();
    assert!(entries.iter().all(node_entry_is_valid));
    sys_devices_virtual_kfd.load_nodes(&entries);

    println!("{:#?}", sys_devices_virtual_kfd);
    assert_eq!(sys_devices_virtual_kfd.platform_oem, 35498446626881);
    assert_eq!(sys_devices_virtual_kfd.platform_id, 71964214861);
    assert_eq!(sys_devices_virtual_kfd.platform_rev, 1);
    let nodes = sys_devices_virtual_kfd.get_nodes();
    assert_eq!(nodes.len(), 2);
    assert_eq!(nodes[0].node_id, 0);
    assert_eq!(nodes[0].gpu_id, 0);
    assert_eq!(nodes[0].properties.cpu_cores_count, Some(16));
    assert_eq!(nodes[0].properties.simd_count, Some(0));
    assert_eq!(nodes[0].properties.device_id, None);
    assert_eq!(nodes[1].node_id, 1);
    assert_eq!(nodes[1].gpu_id, 44231);
    assert_eq!(nodes[1].properties.device_id, Some(29679));
    assert_eq!(nodes[1].properties.drm_render_minor, Some(128));
    assert_eq!(nodes[1].properties.gfx_target_version, Some(100302));
    assert_eq!(nodes[1].properties.capability, Some(671588992));
    assert_eq!(nodes[1].properties.max_engine_clk_ccompute, Some(3800));
}

#[test]
fn test_num_subdirs() {
    let names: Vec<String> =
        ["cpu0", "cpu1", "cpulist", "meminfo", "access0", "compact"].iter().map(|s| s.to_string()).collect();
    let count = num_subdirs(&names, "cpu");

    println!("{:#?}", count);
    assert_eq!(count, 3);
    assert_eq!(num_subdirs(&names, ""), 6);
    assert_eq!(num_subdirs(&names, "cpu0x"), 0);
    assert_eq!(num_subdirs(&Vec::new(), "cpu"), 0);
}

#[test]
fn system_properties_last_line_wins_and_unknown_ignored() {
    let text = "platform_oem 1\nfoo bar\nplatform_oem  2 \nplatform_id +7\nplatform_rev 3 extra\n";
    assert!(system_properties_are_valid(text));
    let s = SysDevicesVirtualKfd::new(text);
    // "platform_oem  2 " splits into three words, so it is not a property line.
    assert_eq!(s.platform_oem, 1);
    assert_eq!(s.platform_id, 7);
    assert_eq!(s.platform_rev, 0);
    assert!(s.get_nodes().is_empty());
}

#[test]
fn system_properties_trim_value() {
    let s = SysDevicesVirtualKfd::new("platform_rev \t42\r\n");
    assert_eq!(s.platform_rev, 42);
}

#[test]
fn system_properties_bad_values_are_rejected() {
    assert!(!system_properties_are_valid("platform_oem x1\n"));
    assert!(!system_properties_are_valid("platform_id \n"));
    assert!(!system_properties_are_valid("platform_rev 18446744073709551616\n"));
    assert!(!system_properties_are_valid("platform_rev -1\n"));
    assert!(!system_properties_are_valid("platform_rev +\n"));
    assert!(system_properties_are_valid("platform_rev 18446744073709551615\n"));
    assert!(system_properties_are_valid("something_else x\n"));
    assert!(system_properties_are_valid(""));
}

#[test]
fn node_properties_parse_and_validity() {
    assert!(node_properties_are_valid(GPU_PROPERTIES));
    let p = KfdTopologyNodeProperties::parse("simd_count 4\nlocal_mem_size 17163091968\nsimd_count 8");
    assert_eq!(p.simd_count, Some(8));
    assert_eq!(p.local_mem_size, Some(17163091968));
    assert_eq!(p.cpu_cores_count, None);
    assert!(!node_properties_are_valid("num_xcc many\n"));
    assert_eq!(KfdTopologyNodeProperties::empty(), KfdTopologyNodeProperties::parse(""));
}

#[test]
fn node_entry_validity() {
    let bad_name = KfdNodeEntry { name: "node1".to_string(), gpu_id: None, properties: None };
    assert!(!node_entry_is_valid(&bad_name));
    let bad_gpu = KfdNodeEntry { name: "2".to_string(), gpu_id: Some("abc".to_string()), properties: None };
    assert!(!node_entry_is_valid(&bad_gpu));
    let plain = KfdNodeEntry { name: "2".to_string(), gpu_id: None, properties: None };
    assert!(node_entry_is_valid(&plain));
    let mut s = SysDevicesVirtualKfd::new("");
    s.load_nodes(&vec![plain]);
    assert_eq!(s.nodes[0].node_id, 2);
    assert_eq!(s.nodes[0].gpu_id, 0);
    assert_eq!(s.nodes[0].properties, KfdTopologyNodeProperties::empty());
}

#[test]
fn node_props_new_is_zero() {
    let p = node_props_t::new();
    assert_eq!(p.node.NumCPUCores, 0);
    assert_eq!(p.node.KFDGpuID, 0);
    assert_eq!(p.node.MarketingName, [0u16; 64]);
    assert!(p.mem.is_empty() && p.cache.is_empty() && p.link.is_empty());
    let d = node_props_t::default();
    assert_eq!(d.node.LocalMemSize, 0);
}
