use hsakmt_rs::bitfield::{get_field, set_field};
use hsakmt_rs::hsakmttypes::{
    HsaMemFlags, HsaSystemProperties, HSA_CACHING_TYPE, HSA_CAPABILITY, HSA_ENGINE_ID, HSA_PAGE_SIZE,
};

#[test]
fn field_write_then_read() {
    let v = set_field(0xffff_ffff, 4, 3, 0b010);
    assert_eq!(v, 0xffff_ffaf);
    assert_eq!(get_field(v, 4, 3), 0b010);
    // Only the low bits of the value are written.
    assert_eq!(set_field(0, 0, 2, 0b111), 0b11);
    assert_eq!(get_field(0x8000_0000, 31, 1), 1);
}

#[test]
fn engine_id_fields() {
    let mut e = HSA_ENGINE_ID { Value: 0 };
    e.set_Major(9);
    e.set_Minor(4);
    e.set_Stepping(2);
    assert_eq!(e.Value, (9 << 10) | (4 << 16) | (2 << 24));
    assert_eq!(e.Major(), 9);
    assert_eq!(e.Minor(), 4);
    assert_eq!(e.Stepping(), 2);
}

#[test]
fn capability_svm_bit() {
    assert_eq!(HSA_CAPABILITY { Value: 1 << 27 }.SVMAPISupported(), 1);
    assert_eq!(HSA_CAPABILITY { Value: !(1 << 27) }.SVMAPISupported(), 0);
}

#[test]
fn mem_flags_fields() {
    let mut f = HsaMemFlags::default();
    f.set_CachePolicy(HSA_CACHING_TYPE::HSA_CACHING_NONCACHED.value());
    f.set_HostAccess(1);
    f.set_PageSize(HSA_PAGE_SIZE::HSA_PAGE_SIZE_2MB.value());
    assert_eq!(f.Value, 0x62);
    assert_eq!(f.CachePolicy(), 1);
    assert_eq!(f.HostAccess(), 1);
    assert_eq!(f.PageSize(), 2);
    assert_eq!(f.NonPaged(), 0);
    assert_eq!(f.ReadOnly(), 0);
    assert_eq!(f.NoSubstitute(), 0);
    assert_eq!(f.GDSMemory(), 0);
    assert_eq!(f.Scratch(), 0);
}

#[test]
fn enum_codes() {
    assert_eq!(HSA_CACHING_TYPE::HSA_CACHING_CACHED.value(), 0);
    assert_eq!(HSA_CACHING_TYPE::HSA_CACHING_RESERVED.value(), 3);
    assert_eq!(HSA_PAGE_SIZE::HSA_PAGE_SIZE_4KB.value(), 0);
    assert_eq!(HSA_PAGE_SIZE::HSA_PAGE_SIZE_1GB.value(), 3);
}

#[test]
fn system_properties_default() {
    assert_eq!(
        HsaSystemProperties::default(),
        HsaSystemProperties { NumNodes: 0, PlatformOem: 0, PlatformId: 0, PlatformRev: 0 }
    );
}
