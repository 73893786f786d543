use vstd::prelude::*;
use crate::text::{
    split_on, trim, parse_unsigned, contains_seq, chars_of, chars_eq, split_chars, trim_chars,
    parse_unsigned_chars, chars_contain,
};

verus! {

// ---------------------------------------------------------------------------
// "key value" property files
// ---------------------------------------------------------------------------

/// The lines of a property file.
pub open spec fn kv_lines(content: Seq<char>) -> Seq<Seq<char>> {
    split_on(content, '\n')
}

/// The space-separated words of a line.
pub open spec fn line_words(line: Seq<char>) -> Seq<Seq<char>> {
    split_on(line, ' ')
}

/// Whether `line` is a property line for `key`: exactly two words, the first `key`.
pub open spec fn line_has_key(line: Seq<char>, key: Seq<char>) -> bool {
    line_words(line).len() == 2 && line_words(line)[0] == key
}

/// The value text of a property line: its second word, trimmed.
pub open spec fn line_value(line: Seq<char>) -> Seq<char> {
    trim(line_words(line)[1])
}

/// The value text of the last property line for `key`, if any.
pub open spec fn last_value_for(lines: Seq<Seq<char>>, key: Seq<char>) -> Option<Seq<char>>
    decreases lines.len(),
{
    if lines.len() == 0 {
        None
    } else if line_has_key(lines.last(), key) {
        Some(line_value(lines.last()))
    } else {
        last_value_for(lines.drop_last(), key)
    }
}

/// Whether every property line for one of `keys` holds a number no larger than `max`.
pub open spec fn lines_parse(lines: Seq<Seq<char>>, keys: Seq<Seq<char>>, max: int) -> bool {
    forall|i: int, j: int|
        0 <= i < lines.len() && 0 <= j < keys.len() && #[trigger] line_has_key(lines[i], keys[j])
            ==> parse_unsigned(line_value(lines[i]), max) is Some
}

/// The number held by the last property line for `key`, if any.
pub open spec fn key_value(lines: Seq<Seq<char>>, key: Seq<char>, max: int) -> Option<int> {
    match last_value_for(lines, key) {
        None => None,
        Some(v) => parse_unsigned(v, max),
    }
}

pub open spec fn as_int_option(o: Option<u64>) -> Option<int> {
    match o {
        Some(v) => Some(v as int),
        None => None,
    }
}

pub open spec fn as_usize_option(o: Option<int>) -> Option<usize> {
    match o {
        Some(v) => Some(v as usize),
        None => None,
    }
}

proof fn lemma_last_value_step(lines: Seq<Seq<char>>, i: int, key: Seq<char>)
    requires
        0 <= i < lines.len(),
    ensures
        last_value_for(lines.take(i + 1), key) == if line_has_key(lines[i], key) {
            Some(line_value(lines[i]))
        } else {
            last_value_for(lines.take(i), key)
        },
{
    assert(lines.take(i + 1).drop_last() =~= lines.take(i));
    assert(lines.take(i + 1).last() == lines[i]);
}

/// Reads the values of `keys` from a property file; `None` when a property line
/// for one of them does not hold a number no larger than `max`.
fn parse_key_values(content: &str, keys: &Vec<Vec<char>>, max: u64) -> (r: Option<Vec<Option<u64>>>)
    ensures
        r is Some <==> lines_parse(kv_lines(content@), keys@.map_values(|k: Vec<char>| k@), max as int),
        r matches Some(vals) ==> vals@.len() == keys@.len() && forall|j: int| 0 <= j < keys@.len()
            ==> #[trigger] as_int_option(vals@[j]) == key_value(kv_lines(content@), keys@[j]@, max as int),
{
    let ghost kv = keys@.map_values(|k: Vec<char>| k@);
    let chars = chars_of(content);
    let lines = split_chars(&chars, '\n');
    let ghost ls = kv_lines(content@);
    proof {
        assert(lines@.len() == ls.len());
    }
    let mut vals: Vec<Option<u64>> = Vec::new();
    let mut j: usize = 0;
    while j < keys.len()
        invariant
            0 <= j <= keys@.len(),
            vals@.len() == j,
            forall|q: int| 0 <= q < j ==> vals@[q] is None,
        decreases keys@.len() - j,
    {
        vals.push(None);
        j = j + 1;
    }
    proof {
        assert forall|q: int| 0 <= q < keys@.len()
            implies #[trigger] as_int_option(vals@[q]) == key_value(ls.take(0), keys@[q]@, max as int) by {
            assert(ls.take(0).len() == 0);
        }
    }
    let mut i: usize = 0;
    while i < lines.len()
        invariant
            ls == kv_lines(content@),
            kv == keys@.map_values(|k: Vec<char>| k@),
            lines@.len() == ls.len(),
            forall|p: int| 0 <= p < lines@.len() ==> #[trigger] lines@[p]@ == ls[p],
            0 <= i <= lines@.len(),
            vals@.len() == keys@.len(),
            forall|q: int| 0 <= q < keys@.len()
                ==> #[trigger] as_int_option(vals@[q]) == key_value(ls.take(i as int), keys@[q]@, max as int),
            lines_parse(ls.take(i as int), kv, max as int),
        decreases lines@.len() - i,
    {
        let line = &lines[i];
        let words = split_chars(line, ' ');
        proof {
            assert(lines@[i as int]@ == ls[i as int]);
        }
        let ghost vals0 = vals@;
        if words.len() == 2 {
            let mut q: usize = 0;
            while q < keys.len()
                invariant
                    ls == kv_lines(content@),
                    kv == keys@.map_values(|k: Vec<char>| k@),
                    0 <= i < lines@.len(),
                    lines@.len() == ls.len(),
                    ls[i as int] == lines@[i as int]@,
                    words@.len() == 2,
                    words@.len() == line_words(ls[i as int]).len(),
                    forall|w: int| 0 <= w < words@.len() ==> #[trigger] words@[w]@ == line_words(ls[i as int])[w],
                    0 <= q <= keys@.len(),
                    vals@.len() == keys@.len(),
                    vals0.len() == keys@.len(),
                    forall|p: int| 0 <= p < q ==> #[trigger] as_int_option(vals@[p]) == (if line_has_key(ls[i as int], keys@[p]@) {
                        parse_unsigned(line_value(ls[i as int]), max as int)
                    } else {
                        as_int_option(vals0[p])
                    }),
                    forall|p: int| q <= p < keys@.len() ==> #[trigger] vals@[p] == vals0[p],
                    forall|p: int| 0 <= p < q && #[trigger] line_has_key(ls[i as int], keys@[p]@)
                        ==> parse_unsigned(line_value(ls[i as int]), max as int) is Some,
                decreases keys@.len() - q,
            {
                if chars_eq(&words[0], &keys[q]) {
                    let value = trim_chars(&words[1]);
                    let parsed = parse_unsigned_chars(&value, max);
                    match parsed {
                        None => {
                            proof {
                                assert(line_has_key(ls[i as int], kv[q as int]));
                                assert(!lines_parse(ls, kv, max as int));
                            }
                            return None;
                        },
                        Some(v) => {
                            vals.set(q, Some(v));
                        },
                    }
                }
                q = q + 1;
            }
        }
        proof {
            assert forall|p: int| 0 <= p < keys@.len()
                implies #[trigger] as_int_option(vals@[p]) == key_value(ls.take(i + 1), keys@[p]@, max as int) by {
                lemma_last_value_step(ls, i as int, keys@[p]@);
                assert(ls.take(i + 1)[i as int] == ls[i as int]);
            }
            assert forall|a: int, b: int|
                0 <= a < ls.take(i + 1).len() && 0 <= b < kv.len() && #[trigger] line_has_key(ls.take(i + 1)[a], kv[b])
                implies parse_unsigned(line_value(ls.take(i + 1)[a]), max as int) is Some by {
                if a < i {
                    assert(ls.take(i + 1)[a] == ls.take(i as int)[a]);
                    assert(line_has_key(ls.take(i as int)[a], kv[b]));
                } else {
                    assert(kv[b] == keys@[b]@);
                }
            }
        }
        i = i + 1;
    }
    proof {
        assert(ls.take(i as int) =~= ls);
    }
    Some(vals)
}

// ---------------------------------------------------------------------------
// System properties
// ---------------------------------------------------------------------------

/// The keys read from the system properties file.
pub open spec fn system_property_keys() -> Seq<Seq<char>> {
    seq!["platform_oem"@, "platform_id"@, "platform_rev"@]
}

/// Whether every system property line holds a number that fits in a `u64`.
pub open spec fn system_properties_valid(content: Seq<char>) -> bool {
    lines_parse(kv_lines(content), system_property_keys(), u64::MAX as int)
}

/// The value of a system property: that of its last line, or 0 when it has none.
pub open spec fn system_property(content: Seq<char>, key: Seq<char>) -> u64 {
    match key_value(kv_lines(content), key, u64::MAX as int) {
        Some(v) => v as u64,
        None => 0,
    }
}

fn system_property_key_list() -> (r: Vec<Vec<char>>)
    ensures
        r@.map_values(|k: Vec<char>| k@) == system_property_keys(),
{
    let r: Vec<Vec<char>> = vec![chars_of("platform_oem"), chars_of("platform_id"), chars_of("platform_rev")];
    assert(r@.map_values(|k: Vec<char>| k@) =~= system_property_keys());
    r
}

/// Whether `SysDevicesVirtualKfd::new` accepts `content`.
pub fn system_properties_are_valid(content: &str) -> (r: bool)
    ensures
        r == system_properties_valid(content@),
{
    let keys = system_property_key_list();
    parse_key_values(content, &keys, u64::MAX).is_some()
}

// ---------------------------------------------------------------------------
// Node properties
// ---------------------------------------------------------------------------

/// The keys read from a node's properties file, in the order of the fields of
/// `KfdTopologyNodeProperties`.
pub open spec fn node_property_keys() -> Seq<Seq<char>> {
    seq![
        "cpu_cores_count"@,
        "simd_count"@,
        "mem_banks_count"@,
        "caches_count"@,
        "io_links_count"@,
        "p2p_links_count"@,
        "cpu_core_id_base"@,
        "simd_id_base"@,
        "capability"@,
        "debug_prop"@,
        "max_waves_per_simd"@,
        "lds_size_in_kb"@,
        "gds_size_in_kb"@,
        "wave_front_size"@,
        "array_count"@,
        "simd_arrays_per_engine"@,
        "cu_per_simd_array"@,
        "simd_per_cu"@,
        "max_slots_scratch_cu"@,
        "fw_version"@,
        "vendor_id"@,
        "device_id"@,
        "location_id"@,
        "domain"@,
        "max_engine_clk_fcompute"@,
        "max_engine_clk_ccompute"@,
        "local_mem_size"@,
        "drm_render_minor"@,
        "sdma_fw_version"@,
        "hive_id"@,
        "unique_id"@,
        "num_sdma_engines"@,
        "num_sdma_xgmi_engines"@,
        "num_gws"@,
        "num_sdma_queues_per_engine"@,
        "num_cp_queues"@,
        "num_xcc"@,
        "gfx_target_version"@,
    ]
}

/// Properties of a topology node, as read from its properties file.
#[derive(Debug, PartialEq, Eq, Structural, Clone, Copy)]
pub struct KfdTopologyNodeProperties {
    pub cpu_cores_count: Option<usize>,
    pub simd_count: Option<usize>,
    pub mem_banks_count: Option<usize>,
    pub caches_count: Option<usize>,
    pub io_links_count: Option<usize>,
    pub p2p_links_count: Option<usize>,
    pub cpu_core_id_base: Option<usize>,
    pub simd_id_base: Option<usize>,
    pub capability: Option<usize>,
    pub debug_prop: Option<usize>,
    pub max_waves_per_simd: Option<usize>,
    pub lds_size_in_kb: Option<usize>,
    pub gds_size_in_kb: Option<usize>,
    pub wave_front_size: Option<usize>,
    pub array_count: Option<usize>,
    pub simd_arrays_per_engine: Option<usize>,
    pub cu_per_simd_array: Option<usize>,
    pub simd_per_cu: Option<usize>,
    pub max_slots_scratch_cu: Option<usize>,
    pub fw_version: Option<usize>,
    pub vendor_id: Option<usize>,
    pub device_id: Option<usize>,
    pub location_id: Option<usize>,
    pub domain: Option<usize>,
    pub max_engine_clk_fcompute: Option<usize>,
    pub max_engine_clk_ccompute: Option<usize>,
    pub local_mem_size: Option<usize>,
    pub drm_render_minor: Option<usize>,
    pub sdma_fw_version: Option<usize>,
    pub hive_id: Option<usize>,
    pub unique_id: Option<usize>,
    pub num_sdma_engines: Option<usize>,
    pub num_sdma_xgmi_engines: Option<usize>,
    pub num_gws: Option<usize>,
    pub num_sdma_queues_per_engine: Option<usize>,
    pub num_cp_queues: Option<usize>,
    pub num_xcc: Option<usize>,
    pub gfx_target_version: Option<usize>,
}

/// The properties that the values `v` (in key order) give.
pub open spec fn props_from_values(v: Seq<Option<usize>>) -> KfdTopologyNodeProperties {
    KfdTopologyNodeProperties {
        cpu_cores_count: v[0],
        simd_count: v[1],
        mem_banks_count: v[2],
        caches_count: v[3],
        io_links_count: v[4],
        p2p_links_count: v[5],
        cpu_core_id_base: v[6],
        simd_id_base: v[7],
        capability: v[8],
        debug_prop: v[9],
        max_waves_per_simd: v[10],
        lds_size_in_kb: v[11],
        gds_size_in_kb: v[12],
        wave_front_size: v[13],
        array_count: v[14],
        simd_arrays_per_engine: v[15],
        cu_per_simd_array: v[16],
        simd_per_cu: v[17],
        max_slots_scratch_cu: v[18],
        fw_version: v[19],
        vendor_id: v[20],
        device_id: v[21],
        location_id: v[22],
        domain: v[23],
        max_engine_clk_fcompute: v[24],
        max_engine_clk_ccompute: v[25],
        local_mem_size: v[26],
        drm_render_minor: v[27],
        sdma_fw_version: v[28],
        hive_id: v[29],
        unique_id: v[30],
        num_sdma_engines: v[31],
        num_sdma_xgmi_engines: v[32],
        num_gws: v[33],
        num_sdma_queues_per_engine: v[34],
        num_cp_queues: v[35],
        num_xcc: v[36],
        gfx_target_version: v[37],
    }
}

/// The properties that a node's properties file gives: each is the number of its
/// last line, `None` when it has no line.
pub open spec fn props_from_text(content: Seq<char>) -> KfdTopologyNodeProperties {
    props_from_values(Seq::new(38, |j: int| as_usize_option(
        key_value(kv_lines(content), node_property_keys()[j], usize::MAX as int))))
}

/// The number that a node's properties file gives for `key`: that of its last line
/// for `key`, `None` when it has none.
pub open spec fn node_property(content: Seq<char>, key: Seq<char>) -> Option<usize> {
    as_usize_option(key_value(kv_lines(content), key, usize::MAX as int))
}

/// Whether each field of `p` holds what `content` gives for the key of the same
/// name.
pub open spec fn props_match_keys(p: KfdTopologyNodeProperties, content: Seq<char>) -> bool {
    &&& p.cpu_cores_count == node_property(content, "cpu_cores_count"@)
    &&& p.simd_count == node_property(content, "simd_count"@)
    &&& p.mem_banks_count == node_property(content, "mem_banks_count"@)
    &&& p.caches_count == node_property(content, "caches_count"@)
    &&& p.io_links_count == node_property(content, "io_links_count"@)
    &&& p.p2p_links_count == node_property(content, "p2p_links_count"@)
    &&& p.cpu_core_id_base == node_property(content, "cpu_core_id_base"@)
    &&& p.simd_id_base == node_property(content, "simd_id_base"@)
    &&& p.capability == node_property(content, "capability"@)
    &&& p.debug_prop == node_property(content, "debug_prop"@)
    &&& p.max_waves_per_simd == node_property(content, "max_waves_per_simd"@)
    &&& p.lds_size_in_kb == node_property(content, "lds_size_in_kb"@)
    &&& p.gds_size_in_kb == node_property(content, "gds_size_in_kb"@)
    &&& p.wave_front_size == node_property(content, "wave_front_size"@)
    &&& p.array_count == node_property(content, "array_count"@)
    &&& p.simd_arrays_per_engine == node_property(content, "simd_arrays_per_engine"@)
    &&& p.cu_per_simd_array == node_property(content, "cu_per_simd_array"@)
    &&& p.simd_per_cu == node_property(content, "simd_per_cu"@)
    &&& p.max_slots_scratch_cu == node_property(content, "max_slots_scratch_cu"@)
    &&& p.fw_version == node_property(content, "fw_version"@)
    &&& p.vendor_id == node_property(content, "vendor_id"@)
    &&& p.device_id == node_property(content, "device_id"@)
    &&& p.location_id == node_property(content, "location_id"@)
    &&& p.domain == node_property(content, "domain"@)
    &&& p.max_engine_clk_fcompute == node_property(content, "max_engine_clk_fcompute"@)
    &&& p.max_engine_clk_ccompute == node_property(content, "max_engine_clk_ccompute"@)
    &&& p.local_mem_size == node_property(content, "local_mem_size"@)
    &&& p.drm_render_minor == node_property(content, "drm_render_minor"@)
    &&& p.sdma_fw_version == node_property(content, "sdma_fw_version"@)
    &&& p.hive_id == node_property(content, "hive_id"@)
    &&& p.unique_id == node_property(content, "unique_id"@)
    &&& p.num_sdma_engines == node_property(content, "num_sdma_engines"@)
    &&& p.num_sdma_xgmi_engines == node_property(content, "num_sdma_xgmi_engines"@)
    &&& p.num_gws == node_property(content, "num_gws"@)
    &&& p.num_sdma_queues_per_engine == node_property(content, "num_sdma_queues_per_engine"@)
    &&& p.num_cp_queues == node_property(content, "num_cp_queues"@)
    &&& p.num_xcc == node_property(content, "num_xcc"@)
    &&& p.gfx_target_version == node_property(content, "gfx_target_version"@)
}

/// Each node property is read from the line of its own key: for every properties
/// text, the field `wave_front_size` holds the number of the `wave_front_size` line,
/// `array_count` that of the `array_count` line, and so on for all of them.
pub proof fn lemma_props_from_text_by_key(content: Seq<char>)
    ensures
        props_match_keys(props_from_text(content), content),
{
    let keys = node_property_keys();
    assert(keys[0] == "cpu_cores_count"@);
    assert(keys[1] == "simd_count"@);
    assert(keys[2] == "mem_banks_count"@);
    assert(keys[3] == "caches_count"@);
    assert(keys[4] == "io_links_count"@);
    assert(keys[5] == "p2p_links_count"@);
    assert(keys[6] == "cpu_core_id_base"@);
    assert(keys[7] == "simd_id_base"@);
    assert(keys[8] == "capability"@);
    assert(keys[9] == "debug_prop"@);
    assert(keys[10] == "max_waves_per_simd"@);
    assert(keys[11] == "lds_size_in_kb"@);
    assert(keys[12] == "gds_size_in_kb"@);
    assert(keys[13] == "wave_front_size"@);
    assert(keys[14] == "array_count"@);
    assert(keys[15] == "simd_arrays_per_engine"@);
    assert(keys[16] == "cu_per_simd_array"@);
    assert(keys[17] == "simd_per_cu"@);
    assert(keys[18] == "max_slots_scratch_cu"@);
    assert(keys[19] == "fw_version"@);
    assert(keys[20] == "vendor_id"@);
    assert(keys[21] == "device_id"@);
    assert(keys[22] == "location_id"@);
    assert(keys[23] == "domain"@);
    assert(keys[24] == "max_engine_clk_fcompute"@);
    assert(keys[25] == "max_engine_clk_ccompute"@);
    assert(keys[26] == "local_mem_size"@);
    assert(keys[27] == "drm_render_minor"@);
    assert(keys[28] == "sdma_fw_version"@);
    assert(keys[29] == "hive_id"@);
    assert(keys[30] == "unique_id"@);
    assert(keys[31] == "num_sdma_engines"@);
    assert(keys[32] == "num_sdma_xgmi_engines"@);
    assert(keys[33] == "num_gws"@);
    assert(keys[34] == "num_sdma_queues_per_engine"@);
    assert(keys[35] == "num_cp_queues"@);
    assert(keys[36] == "num_xcc"@);
    assert(keys[37] == "gfx_target_version"@);
}

/// Whether every node property line holds a number that fits in a `usize`.
pub open spec fn node_properties_valid(content: Seq<char>) -> bool {
    lines_parse(kv_lines(content), node_property_keys(), usize::MAX as int)
}

fn node_property_key_list() -> (r: Vec<Vec<char>>)
    ensures
        r@.map_values(|k: Vec<char>| k@) == node_property_keys(),
{
    let r: Vec<Vec<char>> = vec![
        chars_of("cpu_cores_count"),
        chars_of("simd_count"),
        chars_of("mem_banks_count"),
        chars_of("caches_count"),
        chars_of("io_links_count"),
        chars_of("p2p_links_count"),
        chars_of("cpu_core_id_base"),
        chars_of("simd_id_base"),
        chars_of("capability"),
        chars_of("debug_prop"),
        chars_of("max_waves_per_simd"),
        chars_of("lds_size_in_kb"),
        chars_of("gds_size_in_kb"),
        chars_of("wave_front_size"),
        chars_of("array_count"),
        chars_of("simd_arrays_per_engine"),
        chars_of("cu_per_simd_array"),
        chars_of("simd_per_cu"),
        chars_of("max_slots_scratch_cu"),
        chars_of("fw_version"),
        chars_of("vendor_id"),
        chars_of("device_id"),
        chars_of("location_id"),
        chars_of("domain"),
        chars_of("max_engine_clk_fcompute"),
        chars_of("max_engine_clk_ccompute"),
        chars_of("local_mem_size"),
        chars_of("drm_render_minor"),
        chars_of("sdma_fw_version"),
        chars_of("hive_id"),
        chars_of("unique_id"),
        chars_of("num_sdma_engines"),
        chars_of("num_sdma_xgmi_engines"),
        chars_of("num_gws"),
        chars_of("num_sdma_queues_per_engine"),
        chars_of("num_cp_queues"),
        chars_of("num_xcc"),
        chars_of("gfx_target_version"),
    ];
    assert(r@.map_values(|k: Vec<char>| k@) =~= node_property_keys());
    r
}

impl KfdTopologyNodeProperties {
    /// Properties with no value.
    pub fn empty() -> (r: Self)
        ensures
            r == props_from_values(Seq::new(38, |j: int| None::<usize>)),
    {
        KfdTopologyNodeProperties {
            cpu_cores_count: None,
            simd_count: None,
            mem_banks_count: None,
            caches_count: None,
            io_links_count: None,
            p2p_links_count: None,
            cpu_core_id_base: None,
            simd_id_base: None,
            capability: None,
            debug_prop: None,
            max_waves_per_simd: None,
            lds_size_in_kb: None,
            gds_size_in_kb: None,
            wave_front_size: None,
            array_count: None,
            simd_arrays_per_engine: None,
            cu_per_simd_array: None,
            simd_per_cu: None,
            max_slots_scratch_cu: None,
            fw_version: None,
            vendor_id: None,
            device_id: None,
            location_id: None,
            domain: None,
            max_engine_clk_fcompute: None,
            max_engine_clk_ccompute: None,
            local_mem_size: None,
            drm_render_minor: None,
            sdma_fw_version: None,
            hive_id: None,
            unique_id: None,
            num_sdma_engines: None,
            num_sdma_xgmi_engines: None,
            num_gws: None,
            num_sdma_queues_per_engine: None,
            num_cp_queues: None,
            num_xcc: None,
            gfx_target_version: None,
        }
    }

    /// Reads a node's properties file.
    pub fn parse(content: &str) -> (r: Self)
        requires
            node_properties_valid(content@),
        ensures
            r == props_from_text(content@),
            props_match_keys(r, content@),
    {
        proof {
            lemma_props_from_text_by_key(content@);
        }
        let keys = node_property_key_list();
        let max: u64 = usize::MAX as u64;
        let vals = match parse_key_values(content, &keys, max) {
            Some(v) => v,
            None => {
                return Self::empty();
            },
        };
        let mut out: Vec<Option<usize>> = Vec::new();
        let mut j: usize = 0;
        while j < vals.len()
            invariant
                vals@.len() == 38,
                keys@.len() == 38,
                keys@.map_values(|k: Vec<char>| k@) == node_property_keys(),
                0 <= j <= 38,
                out@.len() == j,
                forall|p: int| 0 <= p < j ==> #[trigger] out@[p] == as_usize_option(
                    key_value(kv_lines(content@), node_property_keys()[p], usize::MAX as int)),
                forall|p: int| 0 <= p < 38 ==> #[trigger] as_int_option(vals@[p]) == key_value(
                    kv_lines(content@), keys@[p]@, usize::MAX as int),
            decreases 38 - j,
        {
            proof {
                assert(keys@.map_values(|k: Vec<char>| k@)[j as int] == keys@[j as int]@);
                assert(keys@[j as int]@ == node_property_keys()[j as int]);
                assert(as_int_option(vals@[j as int]) == key_value(kv_lines(content@), keys@[j as int]@, usize::MAX as int));
            }
            let v: Option<usize> = match vals[j] {
                Some(x) => Some(x as usize),
                None => None,
            };
            out.push(v);
            j = j + 1;
        }
        proof {
            assert(out@ =~= Seq::new(38, |j: int| as_usize_option(
                key_value(kv_lines(content@), node_property_keys()[j], usize::MAX as int))));
        }
        KfdTopologyNodeProperties {
            cpu_cores_count: out[0],
            simd_count: out[1],
            mem_banks_count: out[2],
            caches_count: out[3],
            io_links_count: out[4],
            p2p_links_count: out[5],
            cpu_core_id_base: out[6],
            simd_id_base: out[7],
            capability: out[8],
            debug_prop: out[9],
            max_waves_per_simd: out[10],
            lds_size_in_kb: out[11],
            gds_size_in_kb: out[12],
            wave_front_size: out[13],
            array_count: out[14],
            simd_arrays_per_engine: out[15],
            cu_per_simd_array: out[16],
            simd_per_cu: out[17],
            max_slots_scratch_cu: out[18],
            fw_version: out[19],
            vendor_id: out[20],
            device_id: out[21],
            location_id: out[22],
            domain: out[23],
            max_engine_clk_fcompute: out[24],
            max_engine_clk_ccompute: out[25],
            local_mem_size: out[26],
            drm_render_minor: out[27],
            sdma_fw_version: out[28],
            hive_id: out[29],
            unique_id: out[30],
            num_sdma_engines: out[31],
            num_sdma_xgmi_engines: out[32],
            num_gws: out[33],
            num_sdma_queues_per_engine: out[34],
            num_cp_queues: out[35],
            num_xcc: out[36],
            gfx_target_version: out[37],
        }
    }
}

/// Whether `KfdTopologyNodeProperties::parse` accepts `content`.
pub fn node_properties_are_valid(content: &str) -> (r: bool)
    ensures
        r == node_properties_valid(content@),
{
    let keys = node_property_key_list();
    parse_key_values(content, &keys, usize::MAX as u64).is_some()
}

// ---------------------------------------------------------------------------
// Topology nodes
// ---------------------------------------------------------------------------

/// A topology node: its id, the id of its GPU (0 for none) and its properties.
#[derive(Debug, PartialEq, Eq, Structural, Clone, Copy)]
pub struct KfdTopologyNode {
    pub node_id: usize,
    pub gpu_id: usize,
    pub properties: KfdTopologyNodeProperties,
}

/// What the topology directory holds for one node: the directory name, and the
/// contents of its `gpu_id` and `properties` files where they exist.
pub struct KfdNodeEntry {
    pub name: String,
    pub gpu_id: Option<String>,
    pub properties: Option<String>,
}

/// Whether a node entry can be read: its name is a number, and so are its `gpu_id`
/// file and every property line, where they exist.
pub open spec fn node_entry_valid(e: KfdNodeEntry) -> bool {
    &&& parse_unsigned(e.name@, usize::MAX as int) is Some
    &&& (e.gpu_id matches Some(g) ==> parse_unsigned(trim(g@), usize::MAX as int) is Some)
    &&& (e.properties matches Some(p) ==> node_properties_valid(p@))
}

/// The node that an entry describes.
pub open spec fn node_from_entry(e: KfdNodeEntry) -> KfdTopologyNode {
    KfdTopologyNode {
        node_id: parse_unsigned(e.name@, usize::MAX as int)->0 as usize,
        gpu_id: match e.gpu_id {
            Some(g) => parse_unsigned(trim(g@), usize::MAX as int)->0 as usize,
            None => 0,
        },
        properties: match e.properties {
            Some(p) => props_from_text(p@),
            None => props_from_values(Seq::new(38, |j: int| None::<usize>)),
        },
    }
}

/// Whether `SysDevicesVirtualKfd::load_nodes` accepts `e`.
pub fn node_entry_is_valid(e: &KfdNodeEntry) -> (r: bool)
    ensures
        r == node_entry_valid(*e),
{
    let name = chars_of(e.name.as_str());
    if parse_unsigned_chars(&name, usize::MAX as u64).is_none() {
        return false;
    }
    match &e.gpu_id {
        Some(g) => {
            let text = trim_chars(&chars_of(g.as_str()));
            if parse_unsigned_chars(&text, usize::MAX as u64).is_none() {
                return false;
            }
        },
        None => {},
    }
    match &e.properties {
        Some(p) => node_properties_are_valid(p.as_str()),
        None => true,
    }
}

fn node_from(e: &KfdNodeEntry) -> (r: KfdTopologyNode)
    requires
        node_entry_valid(*e),
    ensures
        r == node_from_entry(*e),
{
    let name = chars_of(e.name.as_str());
    let node_id: usize = match parse_unsigned_chars(&name, usize::MAX as u64) {
        Some(v) => v as usize,
        None => vstd::pervasive::unreached(),
    };
    let gpu_id: usize = match &e.gpu_id {
        Some(g) => {
            let text = trim_chars(&chars_of(g.as_str()));
            match parse_unsigned_chars(&text, usize::MAX as u64) {
                Some(v) => v as usize,
                None => vstd::pervasive::unreached(),
            }
        },
        None => 0,
    };
    let properties = match &e.properties {
        Some(p) => KfdTopologyNodeProperties::parse(p.as_str()),
        None => KfdTopologyNodeProperties::empty(),
    };
    KfdTopologyNode { node_id, gpu_id, properties }
}

/// The KFD topology read from sysfs: platform properties and nodes.
#[derive(Debug, PartialEq)]
pub struct SysDevicesVirtualKfd {
    pub platform_oem: u64,
    pub platform_id: u64,
    pub platform_rev: u64,
    pub nodes: Vec<KfdTopologyNode>,
}

impl SysDevicesVirtualKfd {
    /// Reads the system properties file `content`; no nodes yet.
    pub fn new(content: &str) -> (r: Self)
        requires
            system_properties_valid(content@),
        ensures
            r.platform_oem == system_property(content@, "platform_oem"@),
            r.platform_id == system_property(content@, "platform_id"@),
            r.platform_rev == system_property(content@, "platform_rev"@),
            r.nodes@.len() == 0,
    {
        let keys = system_property_key_list();
        let vals = match parse_key_values(content, &keys, u64::MAX) {
            Some(v) => v,
            None => vstd::pervasive::unreached(),
        };
        proof {
            assert(keys@.map_values(|k: Vec<char>| k@)[0] == keys@[0]@);
            assert(keys@.map_values(|k: Vec<char>| k@)[1] == keys@[1]@);
            assert(keys@.map_values(|k: Vec<char>| k@)[2] == keys@[2]@);
            assert(as_int_option(vals@[0]) == key_value(kv_lines(content@), keys@[0]@, u64::MAX as int));
            assert(as_int_option(vals@[1]) == key_value(kv_lines(content@), keys@[1]@, u64::MAX as int));
            assert(as_int_option(vals@[2]) == key_value(kv_lines(content@), keys@[2]@, u64::MAX as int));
        }
        let platform_oem = match vals[0] { Some(v) => v, None => 0 };
        let platform_id = match vals[1] { Some(v) => v, None => 0 };
        let platform_rev = match vals[2] { Some(v) => v, None => 0 };
        SysDevicesVirtualKfd { platform_oem, platform_id, platform_rev, nodes: Vec::new() }
    }

    /// The nodes read so far.
    pub fn get_nodes(&self) -> (r: &Vec<KfdTopologyNode>)
        ensures
            r@ == self.nodes@,
    {
        &self.nodes
    }

    /// Reads the entries of the topology nodes directory, in the order given, and
    /// appends the nodes they describe.
    pub fn load_nodes(&mut self, entries: &Vec<KfdNodeEntry>)
        requires
            forall|i: int| 0 <= i < entries@.len() ==> #[trigger] node_entry_valid(entries@[i]),
        ensures
            final(self).platform_oem == old(self).platform_oem,
            final(self).platform_id == old(self).platform_id,
            final(self).platform_rev == old(self).platform_rev,
            final(self).nodes@.len() == old(self).nodes@.len() + entries@.len(),
            forall|i: int| 0 <= i < old(self).nodes@.len() ==> #[trigger] final(self).nodes@[i] == old(self).nodes@[i],
            forall|i: int| 0 <= i < entries@.len()
                ==> #[trigger] final(self).nodes@[old(self).nodes@.len() + i] == node_from_entry(entries@[i]),
    {
        let ghost start = self.nodes@;
        let mut i: usize = 0;
        while i < entries.len()
            invariant
                0 <= i <= entries@.len(),
                forall|k: int| 0 <= k < entries@.len() ==> #[trigger] node_entry_valid(entries@[k]),
                self.platform_oem == old(self).platform_oem,
                self.platform_id == old(self).platform_id,
                self.platform_rev == old(self).platform_rev,
                start == old(self).nodes@,
                self.nodes@.len() == start.len() + i,
                forall|k: int| 0 <= k < start.len() ==> #[trigger] self.nodes@[k] == start[k],
                forall|k: int| 0 <= k < i ==> #[trigger] self.nodes@[start.len() + k] == node_from_entry(entries@[k]),
            decreases entries@.len() - i,
        {
            let node = node_from(&entries[i]);
            self.nodes.push(node);
            i = i + 1;
        }
    }
}

/// How many of `names` contain `text`.
pub open spec fn count_containing(names: Seq<Seq<char>>, text: Seq<char>) -> nat
    decreases names.len(),
{
    if names.len() == 0 {
        0
    } else {
        count_containing(names.drop_last(), text) + if contains_seq(names.last(), text) { 1nat } else { 0nat }
    }
}

proof fn lemma_count_bounded(names: Seq<Seq<char>>, text: Seq<char>)
    ensures
        count_containing(names, text) <= names.len(),
    decreases names.len(),
{
    if names.len() > 0 {
        lemma_count_bounded(names.drop_last(), text);
    }
}

/// The count of names that contain `text` is the number of positions `k` whose
/// name holds `text` somewhere in it (at any offset, not only at its start).
pub proof fn lemma_count_containing_positions(names: Seq<Seq<char>>, text: Seq<char>)
    ensures
        Set::new(|k: int| 0 <= k < names.len() && contains_seq(names[k], text)).finite(),
        count_containing(names, text)
            == Set::new(|k: int| 0 <= k < names.len() && contains_seq(names[k], text)).len(),
    decreases names.len(),
{
    let here = Set::new(|k: int| 0 <= k < names.len() && contains_seq(names[k], text));
    if names.len() == 0 {
        assert(here =~= Set::empty());
    } else {
        let init = names.drop_last();
        let last = names.len() - 1;
        lemma_count_containing_positions(init, text);
        let before = Set::new(|k: int| 0 <= k < init.len() && contains_seq(init[k], text));
        if contains_seq(names.last(), text) {
            assert(here =~= before.insert(last));
            assert(!before.contains(last));
        } else {
            assert(here =~= before);
        }
    }
}

/// How many of the directory entry names `names` contain `text`.
pub fn num_subdirs(names: &Vec<String>, text: &str) -> (r: usize)
    ensures
        r == count_containing(names@.map_values(|s: String| s@), text@),
        r == Set::new(|k: int| 0 <= k < names@.len() && contains_seq(names@[k]@, text@)).len(),
{
    let ghost all = names@.map_values(|s: String| s@);
    proof {
        lemma_count_containing_positions(all, text@);
        assert(Set::new(|k: int| 0 <= k < all.len() && contains_seq(all[k], text@))
            =~= Set::new(|k: int| 0 <= k < names@.len() && contains_seq(names@[k]@, text@)));
    }
    let pattern = chars_of(text);
    let mut count: usize = 0;
    let mut i: usize = 0;
    while i < names.len()
        invariant
            all == names@.map_values(|s: String| s@),
            pattern@ == text@,
            0 <= i <= names@.len(),
            count == count_containing(all.take(i as int), text@),
        decreases names@.len() - i,
    {
        let name = chars_of(names[i].as_str());
        proof {
            assert(all.take(i + 1).drop_last() =~= all.take(i as int));
            assert(all.take(i + 1).last() == names@[i as int]@);
            lemma_count_bounded(all.take(i as int), text@);
        }
        if chars_contain(&name, &pattern) {
            count = count + 1;
        }
        i = i + 1;
    }
    proof {
        assert(all.take(i as int) =~= all);
    }
    count
}

} // verus!
