//! One-shot detection of a heterogeneous processor's performance/efficiency
//! core split, through three strategies tried in strict priority order:
//! a dynamic platform query, a lookup of the parsed chip model against a
//! fixed configuration table, and a core-count heuristic that always
//! succeeds.

use vstd::prelude::*;

verus! {

/// Which detection tier produced a topology result.
#[derive(Clone, Copy, Debug, PartialEq, Eq, Structural)]
pub enum DetectionMethod {
    /// The platform's dynamic physical-core-count query.
    SysctlDynamic,
    /// The chip-model/core-count configuration table.
    ChipLookup,
    /// The total-core-count heuristic.
    TotalCountHeuristic,
}

/// The resolved processor topology. Performance plus efficiency cores never
/// exceed the total core count.
#[derive(Clone, Debug)]
pub struct AppleSiliconInfo {
    pub chip_name: String,
    pub total_cores: usize,
    pub p_cores: usize,
    pub e_cores: usize,
    pub detection_method: DetectionMethod,
}

impl AppleSiliconInfo {
    /// The topology invariant: the split never exceeds the total.
    pub open spec fn wf(&self) -> bool {
        self.p_cores + self.e_cores <= self.total_cores
    }
}

/// Whether the dynamic query's two physical-core counts are accepted:
/// both present and positive, within plausible hardware bounds, and
/// consistent with the observed total.
pub open spec fn spec_sysctl_accept(
    p_hint: Option<u32>,
    e_hint: Option<u32>,
    total_cores: int,
) -> bool {
    &&& p_hint is Some
    &&& e_hint is Some
    &&& p_hint->0 > 0
    &&& e_hint->0 > 0
    &&& p_hint->0 <= 24
    &&& e_hint->0 <= 8
    &&& p_hint->0 + e_hint->0 <= 32
    &&& p_hint->0 + e_hint->0 <= total_cores
}

/// The chip model a brand string yields: the text after the `"Apple "`
/// prefix, accepted only when it starts with `'M'` and has at least two
/// characters.
pub open spec fn spec_parse_chip_model(brand: Seq<char>) -> Option<Seq<char>> {
    if brand.len() >= 8 && brand.subrange(0, 6) == "Apple "@ && brand[6] == 'M' {
        Some(brand.subrange(6, brand.len() as int))
    } else {
        None
    }
}

/// The fixed `(chip model, total cores) -> (performance, efficiency)`
/// configuration table; an exact match or nothing.
pub open spec fn spec_chip_table(name: Seq<char>, total_cores: int) -> Option<(usize, usize)> {
    if name == "M1"@ && total_cores == 8 {
        Some((4usize, 4usize))
    } else if name == "M1 Pro"@ && total_cores == 8 {
        Some((6usize, 2usize))
    } else if name == "M1 Pro"@ && total_cores == 10 {
        Some((8usize, 2usize))
    } else if name == "M1 Max"@ && total_cores == 10 {
        Some((8usize, 2usize))
    } else if name == "M1 Ultra"@ && total_cores == 20 {
        Some((16usize, 4usize))
    } else if name == "M2"@ && total_cores == 8 {
        Some((4usize, 4usize))
    } else if name == "M2 Pro"@ && total_cores == 10 {
        Some((6usize, 4usize))
    } else if name == "M2 Pro"@ && total_cores == 12 {
        Some((8usize, 4usize))
    } else if name == "M2 Max"@ && total_cores == 12 {
        Some((8usize, 4usize))
    } else if name == "M2 Ultra"@ && total_cores == 24 {
        Some((16usize, 8usize))
    } else if name == "M3"@ && total_cores == 8 {
        Some((4usize, 4usize))
    } else if name == "M3 Pro"@ && total_cores == 11 {
        Some((5usize, 6usize))
    } else if name == "M3 Pro"@ && total_cores == 12 {
        Some((6usize, 6usize))
    } else if name == "M3 Max"@ && total_cores == 14 {
        Some((10usize, 4usize))
    } else if name == "M3 Max"@ && total_cores == 16 {
        Some((12usize, 4usize))
    } else if name == "M4"@ && total_cores == 9 {
        Some((3usize, 6usize))
    } else if name == "M4"@ && total_cores == 10 {
        Some((4usize, 6usize))
    } else if name == "M4 Pro"@ && total_cores == 12 {
        Some((8usize, 4usize))
    } else if name == "M4 Pro"@ && total_cores == 14 {
        Some((10usize, 4usize))
    } else if name == "M4 Max"@ && total_cores == 14 {
        Some((10usize, 4usize))
    } else if name == "M4 Max"@ && total_cores == 16 {
        Some((12usize, 4usize))
    } else if name == "M4 Ultra"@ && total_cores == 28 {
        Some((20usize, 8usize))
    } else if name == "M4 Ultra"@ && total_cores == 32 {
        Some((24usize, 8usize))
    } else {
        None
    }
}

/// The always-successful heuristic split: known totals map to known splits,
/// any other total is split 60/40 in favor of performance cores, the
/// performance count truncated and the remainder efficiency.
pub open spec fn spec_fallback_split(total_cores: int) -> (int, int) {
    if total_cores == 8 {
        (4int, 4int)
    } else if total_cores == 9 {
        (3int, 6int)
    } else if total_cores == 10 {
        (4int, 6int)
    } else if total_cores == 11 {
        (5int, 6int)
    } else if total_cores == 12 {
        (8int, 4int)
    } else if total_cores == 14 {
        (10int, 4int)
    } else if total_cores == 16 {
        (12int, 4int)
    } else if total_cores == 20 {
        (16int, 4int)
    } else if total_cores == 24 {
        (16int, 8int)
    } else if total_cores == 28 {
        (20int, 8int)
    } else if total_cores == 32 {
        (24int, 8int)
    } else {
        ((total_cores * 3) / 5, total_cores - (total_cores * 3) / 5)
    }
}

/// The chip label shown when a tier does not itself name the chip: the
/// parsed model if the brand string yields one, else the given placeholder.
pub open spec fn spec_chip_display(brand: Option<Seq<char>>, placeholder: Seq<char>) -> Seq<
    char,
> {
    match brand {
        Some(b) => match spec_parse_chip_model(b) {
            Some(name) => name,
            None => placeholder,
        },
        None => placeholder,
    }
}

/// Character-by-character string equality, tied to view equality.
pub fn str_eq_chars(a: &str, b: &str) -> (r: bool)
    ensures
        r == (a@ == b@),
{
    let a_len: usize = a.unicode_len();
    let b_len: usize = b.unicode_len();
    if a_len != b_len {
        return false;
    }
    let mut i: usize = 0;
    while i < a_len
        invariant
            a_len == a@.len(),
            b_len == b@.len(),
            a_len == b_len,
            i <= a_len,
            forall|j: int| 0 <= j < i ==> a@[j] == b@[j],
        decreases a_len - i,
    {
        if a.get_char(i) != b.get_char(i) {
            return false;
        }
        i = i + 1;
    }
    proof {
        assert(a@ =~= b@);
    }
    true
}

/// Parse a vendor-prefixed brand string (`"Apple M3 Max"`) into the chip
/// model (`"M3 Max"`).
pub fn parse_apple_chip_model(brand_string: &str) -> (r: Option<String>)
    ensures
        match r {
            Some(name) => spec_parse_chip_model(brand_string@) == Some(name@),
            None => spec_parse_chip_model(brand_string@) is None,
        },
{
    proof {
        reveal_strlit("Apple ");
    }
    let n: usize = brand_string.unicode_len();
    if n < 8 {
        return None;
    }
    let prefix: &str = "Apple ";
    let mut i: usize = 0;
    while i < 6
        invariant
            n == brand_string@.len(),
            n >= 8,
            i <= 6,
            prefix@ == "Apple "@,
            prefix@.len() == 6,
            forall|j: int| 0 <= j < i ==> brand_string@[j] == prefix@[j],
        decreases 6 - i,
    {
        if brand_string.get_char(i) != prefix.get_char(i) {
            proof {
                assert(brand_string@.subrange(0, 6)[i as int] != "Apple "@[i as int]);
            }
            return None;
        }
        i = i + 1;
    }
    proof {
        assert(brand_string@.subrange(0, 6) =~= "Apple "@);
    }
    if brand_string.get_char(6) != 'M' {
        return None;
    }
    let model: &str = brand_string.substring_char(6, n);
    Some(model.to_owned())
}

/// Validation of the dynamic query's two physical-core counts.
pub fn try_sysctl_detection(p_hint: Option<u32>, e_hint: Option<u32>, total_cores: usize) -> (r:
    Option<(u32, u32)>)
    ensures
        spec_sysctl_accept(p_hint, e_hint, total_cores as int) ==> r == Some(
            (p_hint->0, e_hint->0),
        ),
        !spec_sysctl_accept(p_hint, e_hint, total_cores as int) ==> r is None,
{
    if let (Some(p), Some(e)) = (p_hint, e_hint) {
        if p > 0 && e > 0 && p <= 24 && e <= 8 && p + e <= 32 && (p + e) as usize <= total_cores {
            return Some((p, e));
        }
    }
    None
}

/// Exact lookup in the chip configuration table.
pub fn try_chip_lookup_detection(name: &str, total_cores: usize) -> (r: Option<(usize, usize)>)
    ensures
        r == spec_chip_table(name@, total_cores as int),
{
    if str_eq_chars(name, "M1") && total_cores == 8 {
        Some((4, 4))
    } else if str_eq_chars(name, "M1 Pro") && total_cores == 8 {
        Some((6, 2))
    } else if str_eq_chars(name, "M1 Pro") && total_cores == 10 {
        Some((8, 2))
    } else if str_eq_chars(name, "M1 Max") && total_cores == 10 {
        Some((8, 2))
    } else if str_eq_chars(name, "M1 Ultra") && total_cores == 20 {
        Some((16, 4))
    } else if str_eq_chars(name, "M2") && total_cores == 8 {
        Some((4, 4))
    } else if str_eq_chars(name, "M2 Pro") && total_cores == 10 {
        Some((6, 4))
    } else if str_eq_chars(name, "M2 Pro") && total_cores == 12 {
        Some((8, 4))
    } else if str_eq_chars(name, "M2 Max") && total_cores == 12 {
        Some((8, 4))
    } else if str_eq_chars(name, "M2 Ultra") && total_cores == 24 {
        Some((16, 8))
    } else if str_eq_chars(name, "M3") && total_cores == 8 {
        Some((4, 4))
    } else if str_eq_chars(name, "M3 Pro") && total_cores == 11 {
        Some((5, 6))
    } else if str_eq_chars(name, "M3 Pro") && total_cores == 12 {
        Some((6, 6))
    } else if str_eq_chars(name, "M3 Max") && total_cores == 14 {
        Some((10, 4))
    } else if str_eq_chars(name, "M3 Max") && total_cores == 16 {
        Some((12, 4))
    } else if str_eq_chars(name, "M4") && total_cores == 9 {
        Some((3, 6))
    } else if str_eq_chars(name, "M4") && total_cores == 10 {
        Some((4, 6))
    } else if str_eq_chars(name, "M4 Pro") && total_cores == 12 {
        Some((8, 4))
    } else if str_eq_chars(name, "M4 Pro") && total_cores == 14 {
        Some((10, 4))
    } else if str_eq_chars(name, "M4 Max") && total_cores == 14 {
        Some((10, 4))
    } else if str_eq_chars(name, "M4 Max") && total_cores == 16 {
        Some((12, 4))
    } else if str_eq_chars(name, "M4 Ultra") && total_cores == 28 {
        Some((20, 8))
    } else if str_eq_chars(name, "M4 Ultra") && total_cores == 32 {
        Some((24, 8))
    } else {
        None
    }
}

/// The always-successful core-count heuristic.
pub fn fallback_core_count_detection(total_cores: usize) -> (r: (usize, usize))
    ensures
        r.0 == spec_fallback_split(total_cores as int).0,
        r.1 == spec_fallback_split(total_cores as int).1,
        r.0 + r.1 == total_cores,
{
    match total_cores {
        8 => (4, 4),
        9 => (3, 6),
        10 => (4, 6),
        11 => (5, 6),
        12 => (8, 4),
        14 => (10, 4),
        16 => (12, 4),
        20 => (16, 4),
        24 => (16, 8),
        28 => (20, 8),
        32 => (24, 8),
        _ => {
            let p_wide: u128 = (total_cores as u128) * 3 / 5;
            proof {
                assert(total_cores as u128 * 3 / 5 <= total_cores) by (nonlinear_arith);
            }
            let p: usize = p_wide as usize;
            (p, total_cores - p)
        },
    }
}

/// The resolved split and method for given inputs: the first tier that
/// accepts wins. Being a function of its inputs, detection is deterministic.
pub open spec fn spec_detect(
    total_cores: int,
    p_hint: Option<u32>,
    e_hint: Option<u32>,
    brand: Option<Seq<char>>,
) -> (DetectionMethod, int, int) {
    let heuristic = (
        DetectionMethod::TotalCountHeuristic,
        spec_fallback_split(total_cores).0,
        spec_fallback_split(total_cores).1,
    );
    if spec_sysctl_accept(p_hint, e_hint, total_cores) {
        (DetectionMethod::SysctlDynamic, p_hint->0 as int, e_hint->0 as int)
    } else {
        match brand {
            Some(b) => match spec_parse_chip_model(b) {
                Some(name) => match spec_chip_table(name, total_cores) {
                    Some(split) => (DetectionMethod::ChipLookup, split.0 as int, split.1 as int),
                    None => heuristic,
                },
                None => heuristic,
            },
            None => heuristic,
        }
    }
}

/// Resolve the processor topology. Never fails: each tier's failure falls
/// through to the next, and the final heuristic always yields a split.
pub fn detect_apple_silicon_configuration(
    total_cores: usize,
    p_core_hint: Option<u32>,
    e_core_hint: Option<u32>,
    brand_string: Option<&str>,
) -> (r: AppleSiliconInfo)
    ensures
        r.wf(),
        r.total_cores == total_cores,
        r.detection_method == spec_detect(
            total_cores as int,
            p_core_hint,
            e_core_hint,
            spec_brand_view(brand_string),
        ).0,
        r.p_cores as int == spec_detect(
            total_cores as int,
            p_core_hint,
            e_core_hint,
            spec_brand_view(brand_string),
        ).1,
        r.e_cores as int == spec_detect(
            total_cores as int,
            p_core_hint,
            e_core_hint,
            spec_brand_view(brand_string),
        ).2,
        r.detection_method == DetectionMethod::ChipLookup ==> Some(r.chip_name@)
            == spec_parse_chip_model(spec_brand_view(brand_string)->0),
        r.detection_method == DetectionMethod::SysctlDynamic ==> r.chip_name@
            == spec_chip_display(spec_brand_view(brand_string), "Apple Silicon"@),
        r.detection_method == DetectionMethod::TotalCountHeuristic ==> r.chip_name@
            == spec_chip_display(spec_brand_view(brand_string), "Unknown Apple Silicon"@),
{
    if let Some((p, e)) = try_sysctl_detection(p_core_hint, e_core_hint, total_cores) {
        let chip_name: String = chip_display(brand_string, "Apple Silicon");
        return AppleSiliconInfo {
            chip_name,
            total_cores,
            p_cores: p as usize,
            e_cores: e as usize,
            detection_method: DetectionMethod::SysctlDynamic,
        };
    }
    if let Some(b) = brand_string {
        if let Some(name) = parse_apple_chip_model(b) {
            if let Some((p, e)) = try_chip_lookup_detection(name.as_str(), total_cores) {
                proof {
                    lemma_chip_table_fits(name@, total_cores as int);
                }
                return AppleSiliconInfo {
                    chip_name: name,
                    total_cores,
                    p_cores: p,
                    e_cores: e,
                    detection_method: DetectionMethod::ChipLookup,
                };
            }
        }
    }
    let (p, e) = fallback_core_count_detection(total_cores);
    let chip_name: String = chip_display(brand_string, "Unknown Apple Silicon");
    AppleSiliconInfo {
        chip_name,
        total_cores,
        p_cores: p,
        e_cores: e,
        detection_method: DetectionMethod::TotalCountHeuristic,
    }
}

/// The brand string's view, when one was read.
pub open spec fn spec_brand_view(brand: Option<&str>) -> Option<Seq<char>> {
    match brand {
        Some(b) => Some(b@),
        None => None,
    }
}

/// The chip label for tiers that do not name the chip themselves.
fn chip_display(brand: Option<&str>, placeholder: &str) -> (r: String)
    ensures
        r@ == spec_chip_display(spec_brand_view(brand), placeholder@),
{
    match brand {
        Some(b) => match parse_apple_chip_model(b) {
            Some(name) => name,
            None => placeholder.to_owned(),
        },
        None => placeholder.to_owned(),
    }
}

/// Every split the configuration table yields is consistent with the total
/// core count it is keyed by.
proof fn lemma_chip_table_fits(name: Seq<char>, total_cores: int)
    ensures
        spec_chip_table(name, total_cores) matches Some(split) ==> split.0 + split.1
            <= total_cores,
{
}

/// The tiers apply in strict priority order: the dynamic query's acceptance
/// decides alone, the table lookup is consulted only below it, and the
/// heuristic only below both. Detection is a function of its four inputs,
/// so identical inputs always yield the identical result.
pub proof fn lemma_detection_priority(
    total_cores: int,
    p_hint: Option<u32>,
    e_hint: Option<u32>,
    brand: Option<Seq<char>>,
)
    ensures
        spec_sysctl_accept(p_hint, e_hint, total_cores) ==> spec_detect(
            total_cores,
            p_hint,
            e_hint,
            brand,
        ).0 == DetectionMethod::SysctlDynamic,
        !spec_sysctl_accept(p_hint, e_hint, total_cores) && (brand matches Some(b)
            && spec_parse_chip_model(b) matches Some(name) && spec_chip_table(
            name,
            total_cores,
        ) is Some) ==> spec_detect(total_cores, p_hint, e_hint, brand).0
            == DetectionMethod::ChipLookup,
        !spec_sysctl_accept(p_hint, e_hint, total_cores) && !(brand matches Some(b)
            && spec_parse_chip_model(b) matches Some(name) && spec_chip_table(
            name,
            total_cores,
        ) is Some) ==> spec_detect(total_cores, p_hint, e_hint, brand).0
            == DetectionMethod::TotalCountHeuristic,
{
}

} // verus!
