//! Device discovery logic: skipping legacy alias file names, matching a
//! probed device's reported name and capability set against a classification
//! table, and assembling the catalog of accepted devices. The caller scans
//! the device directory, opens each candidate, and probes its name and
//! capabilities; everything decided about a probe is decided here.

use vstd::prelude::*;
use vstd::slice::slice_to_vec;
use vstd::string::StringSliceAdditionalSpecFns;
use crate::events::DeviceType;
use crate::keycodes::{ABS_MT_POSITION_Y, CODE_LEFTMETA, KIND_ABS, KIND_KEY, KIND_REL, KIND_SW, REL_WHEEL, SW_LID};

verus! {

/// A device-reported marker (an axis, button, key or switch it can produce),
/// as its raw event class and code.
#[derive(Clone, Copy, Debug, PartialEq, Eq, Structural)]
pub struct Capability {
    pub kind: u16,
    pub code: u16,
}

/// The capability that confirms a name-based classification guess for each
/// device class: a keyboard must report the left meta key, a mouse the
/// low-resolution vertical wheel, a touchpad the absolute multi-touch
/// vertical position, and a lid switch the lid switch itself.
pub open spec fn signature_capability(device_type: DeviceType) -> Capability {
    match device_type {
        DeviceType::Keyboard => Capability { kind: KIND_KEY, code: CODE_LEFTMETA },
        DeviceType::Mouse => Capability { kind: KIND_REL, code: REL_WHEEL },
        DeviceType::Touchpad => Capability { kind: KIND_ABS, code: ABS_MT_POSITION_Y },
        DeviceType::LidSwitch => Capability { kind: KIND_SW, code: SW_LID },
    }
}

impl DeviceType {
    /// The signature capability a device must report to be accepted for this
    /// class.
    pub fn event_code(&self) -> (c: Capability)
        ensures
            c == signature_capability(*self),
    {
        match self {
            DeviceType::Keyboard => Capability { kind: KIND_KEY, code: CODE_LEFTMETA },
            DeviceType::Mouse => Capability { kind: KIND_REL, code: REL_WHEEL },
            DeviceType::Touchpad => Capability { kind: KIND_ABS, code: ABS_MT_POSITION_Y },
            DeviceType::LidSwitch => Capability { kind: KIND_SW, code: SW_LID },
        }
    }
}

/// Whether two byte strings hold the same bytes.
pub fn bytes_equal(a: &[u8], b: &[u8]) -> (r: bool)
    ensures
        r == (a@ == b@),
{
    if a.len() != b.len() {
        return false;
    }
    let mut i: usize = 0;
    while i < a.len()
        invariant
            a@.len() == b@.len(),
            i <= a@.len(),
            forall|k: int| 0 <= k < i ==> a@[k] == b@[k],
        decreases a@.len() - i,
    {
        if a[i] != b[i] {
            return false;
        }
        i += 1;
    }
    proof {
        assert(a@ =~= b@);
    }
    true
}

/// Whether `hay` starts with `prefix`.
pub fn starts_with(hay: &[u8], prefix: &[u8]) -> (r: bool)
    ensures
        r == prefix@.is_prefix_of(hay@),
{
    if prefix.len() > hay.len() {
        return false;
    }
    let mut i: usize = 0;
    while i < prefix.len()
        invariant
            prefix@.len() <= hay@.len(),
            i <= prefix@.len(),
            forall|k: int| 0 <= k < i ==> hay@[k] == prefix@[k],
        decreases prefix@.len() - i,
    {
        if hay[i] != prefix[i] {
            proof {
                assert(!(prefix@ =~= hay@.subrange(0, prefix@.len() as int)));
            }
            return false;
        }
        i += 1;
    }
    proof {
        assert(prefix@ =~= hay@.subrange(0, prefix@.len() as int));
    }
    true
}

/// `needle` occurs in `hay` starting at position `i`.
pub open spec fn contains_at(hay: Seq<u8>, needle: Seq<u8>, i: int) -> bool {
    0 <= i && i + needle.len() <= hay.len() && hay.subrange(i, i + needle.len()) == needle
}

/// `needle` occurs somewhere in `hay`.
pub open spec fn contains_bytes(hay: Seq<u8>, needle: Seq<u8>) -> bool {
    exists|i: int| contains_at(hay, needle, i)
}

/// Whether `needle` occurs as a contiguous run of bytes in `hay`.
pub fn contains_subseq(hay: &[u8], needle: &[u8]) -> (r: bool)
    ensures
        r == contains_bytes(hay@, needle@),
{
    let n = needle.len();
    let h = hay.len();
    if n > h {
        return false;
    }
    if n == 0 {
        proof {
            assert(hay@.subrange(0, 0) =~= needle@);
            assert(contains_at(hay@, needle@, 0));
        }
        return true;
    }
    let mut i: usize = 0;
    while i <= h - n
        invariant
            0 < n <= h,
            h == hay@.len(),
            n == needle@.len(),
            i <= h - n + 1,
            forall|k: int| 0 <= k < i ==> !contains_at(hay@, needle@, k),
        decreases h - n - i + 1,
    {
        let mut j: usize = 0;
        let mut matched: bool = true;
        while matched && j < n
            invariant
                n <= h,
                h == hay@.len(),
                n == needle@.len(),
                i + n <= h,
                j <= n,
                matched ==> forall|t: int| 0 <= t < j ==> hay@[i + t] == needle@[t],
                !matched ==> !contains_at(hay@, needle@, i as int),
            decreases n - j + (if matched { 1int } else { 0int }),
        {
            if hay[i + j] != needle[j] {
                proof {
                    if contains_at(hay@, needle@, i as int) {
                        assert(hay@.subrange(i as int, i as int + n as int)[j as int] == hay@[i as int + j as int]);
                    }
                }
                matched = false;
            } else {
                j += 1;
            }
        }
        if matched {
            proof {
                assert(hay@.subrange(i as int, i as int + n as int) =~= needle@);
                assert(contains_at(hay@, needle@, i as int));
            }
            return true;
        }
        i += 1;
    }
    proof {
        assert forall|k: int| !contains_at(hay@, needle@, k) by {
            if k >= i {
                assert(k + needle@.len() > hay@.len());
            }
        }
    }
    false
}

/// The file name is a known-bad legacy alias that does not behave correctly
/// under this protocol: exactly "mice", or one of the "js" / "mouse" prefix
/// families.
pub open spec fn is_legacy_alias(file_name: Seq<u8>) -> bool {
    ||| file_name == "mice".spec_bytes()
    ||| "js".spec_bytes().is_prefix_of(file_name)
    ||| "mouse".spec_bytes().is_prefix_of(file_name)
}

/// Whether a device file name must be skipped at discovery as a legacy
/// alias.
pub fn should_skip_file_name(file_name: &[u8]) -> (r: bool)
    ensures
        r == is_legacy_alias(file_name@),
{
    bytes_equal(file_name, "mice".as_bytes()) || starts_with(file_name, "js".as_bytes())
        || starts_with(file_name, "mouse".as_bytes())
}

/// One classification entry: a device is accepted for `device_type` when its
/// reported name contains `fragment` and it reports the class's signature
/// capability.
#[derive(Clone, Debug)]
pub struct ClassRule {
    pub fragment: Vec<u8>,
    pub device_type: DeviceType,
}

/// Whether a probed name and capability set satisfy one classification rule:
/// the name contains the rule's fragment and the capabilities include the
/// signature capability of the rule's class.
pub open spec fn rule_matches(name: Seq<u8>, caps: Seq<Capability>, rule: ClassRule) -> bool {
    contains_bytes(name, rule.fragment@) && caps.contains(signature_capability(rule.device_type))
}

/// The class the first matching rule assigns, or none when no rule matches.
pub open spec fn classify_of(name: Seq<u8>, caps: Seq<Capability>, rules: Seq<ClassRule>) -> Option<DeviceType>
    decreases rules.len(),
{
    if rules.len() == 0 {
        None
    } else if rule_matches(name, caps, rules[0]) {
        Some(rules[0].device_type)
    } else {
        classify_of(name, caps, rules.skip(1))
    }
}

/// Whether the capability set includes the given capability.
pub fn has_capability(caps: &Vec<Capability>, cap: Capability) -> (r: bool)
    ensures
        r == caps@.contains(cap),
{
    let mut i: usize = 0;
    while i < caps.len()
        invariant
            i <= caps@.len(),
            forall|k: int| 0 <= k < i ==> caps@[k] != cap,
        decreases caps@.len() - i,
    {
        if caps[i] == cap {
            return true;
        }
        i += 1;
    }
    false
}

/// Classifies a probed device by its reported name and capability set: the
/// first rule whose fragment the name contains and whose signature
/// capability the device reports decides the class; a device matching no
/// rule is not an error, it is simply not accepted.
pub fn classify(name: &Vec<u8>, caps: &Vec<Capability>, rules: &Vec<ClassRule>) -> (r: Option<DeviceType>)
    ensures
        r == classify_of(name@, caps@, rules@),
{
    let mut i: usize = 0;
    proof {
        assert(rules@.skip(0) =~= rules@);
    }
    while i < rules.len()
        invariant
            i <= rules@.len(),
            classify_of(name@, caps@, rules@) == classify_of(name@, caps@, rules@.skip(i as int)),
        decreases rules@.len() - i,
    {
        proof {
            assert(rules@.skip(i as int)[0] == rules@[i as int]);
            assert(rules@.skip(i as int).skip(1) =~= rules@.skip(i as int + 1));
        }
        let sig = rules[i].device_type.event_code();
        if contains_subseq(name.as_slice(), rules[i].fragment.as_slice()) && has_capability(caps, sig) {
            return Some(rules[i].device_type);
        }
        i += 1;
    }
    None
}

/// Law: a device whose name and capability set match no rule of the table is
/// never classified.
pub proof fn lemma_unmatched_never_classified(name: Seq<u8>, caps: Seq<Capability>, rules: Seq<ClassRule>)
    requires
        forall|i: int| 0 <= i < rules.len() ==> !rule_matches(name, caps, #[trigger] rules[i]),
    ensures
        classify_of(name, caps, rules) is None,
    decreases rules.len(),
{
    if rules.len() > 0 {
        lemma_unmatched_never_classified(name, caps, rules.skip(1));
    }
}

/// The classification table of the devices this engine takes over by
/// default. Callers may inject their own table instead; this one is the
/// single source of truth for what gets grabbed by default.
pub fn default_rules() -> (rules: Vec<ClassRule>)
    ensures
        rules@.len() == 5,
        rules@[0].device_type == DeviceType::Keyboard,
        rules@[0].fragment@ == "Framework Laptop 16 Keyboard Module - ANSI Keyboard".spec_bytes(),
        rules@[1].device_type == DeviceType::Keyboard,
        rules@[1].fragment@ == "Apple Inc. Magic Keyboard with Numeric Keypad".spec_bytes(),
        rules@[2].device_type == DeviceType::Mouse,
        rules@[2].fragment@ == "Logitech MX Master 3S".spec_bytes(),
        rules@[3].device_type == DeviceType::LidSwitch,
        rules@[3].fragment@ == "Lid Switch".spec_bytes(),
        rules@[4].device_type == DeviceType::Touchpad,
        rules@[4].fragment@ == "Touchpad".spec_bytes(),
{
    let mut rules: Vec<ClassRule> = Vec::new();
    rules.push(ClassRule {
        fragment: slice_to_vec("Framework Laptop 16 Keyboard Module - ANSI Keyboard".as_bytes()),
        device_type: DeviceType::Keyboard,
    });
    rules.push(ClassRule {
        fragment: slice_to_vec("Apple Inc. Magic Keyboard with Numeric Keypad".as_bytes()),
        device_type: DeviceType::Keyboard,
    });
    rules.push(ClassRule {
        fragment: slice_to_vec("Logitech MX Master 3S".as_bytes()),
        device_type: DeviceType::Mouse,
    });
    rules.push(ClassRule {
        fragment: slice_to_vec("Lid Switch".as_bytes()),
        device_type: DeviceType::LidSwitch,
    });
    rules.push(ClassRule {
        fragment: slice_to_vec("Touchpad".as_bytes()),
        device_type: DeviceType::Touchpad,
    });
    rules
}

/// What the caller learned about one entry of the device directory: its file
/// name, whether it is a character device, and the name and capability set
/// the opened device reported.
#[derive(Clone, Debug)]
pub struct ProbeRecord {
    pub file_name: Vec<u8>,
    pub is_char_device: bool,
    pub name: Vec<u8>,
    pub caps: Vec<Capability>,
}

/// One accepted device: the index of its probe in the scanned directory
/// order, and the class the table assigned.
#[derive(Clone, Copy, Debug, PartialEq, Eq, Structural)]
pub struct CatalogEntry {
    pub probe_index: usize,
    pub device_type: DeviceType,
}

/// The class a probe is admitted under: none for a non-character device, a
/// legacy alias file name, or a name/capability pair no rule matches.
pub open spec fn admitted(probe: ProbeRecord, rules: Seq<ClassRule>) -> Option<DeviceType> {
    if probe.is_char_device && !is_legacy_alias(probe.file_name@) {
        classify_of(probe.name@, probe.caps@, rules)
    } else {
        None
    }
}

/// Decides whether one probed directory entry is taken over, and under which
/// class.
pub fn admit_device(probe: &ProbeRecord, rules: &Vec<ClassRule>) -> (r: Option<DeviceType>)
    ensures
        r == admitted(*probe, rules@),
{
    if !probe.is_char_device {
        return None;
    }
    if should_skip_file_name(probe.file_name.as_slice()) {
        return None;
    }
    classify(&probe.name, &probe.caps, rules)
}

/// The catalog the probes produce: one entry per admitted probe, in
/// directory order, carrying the probe's index and assigned class.
pub open spec fn catalog_of(probes: Seq<ProbeRecord>, rules: Seq<ClassRule>) -> Seq<CatalogEntry>
    decreases probes.len(),
{
    if probes.len() == 0 {
        Seq::empty()
    } else {
        let front = catalog_of(probes.drop_last(), rules);
        match admitted(probes.last(), rules) {
            Some(device_type) => front.push(CatalogEntry {
                probe_index: (probes.len() - 1) as usize,
                device_type,
            }),
            None => front,
        }
    }
}

/// Builds the catalog of accepted devices from the probes of one directory
/// scan.
pub fn build_catalog(probes: &Vec<ProbeRecord>, rules: &Vec<ClassRule>) -> (catalog: Vec<CatalogEntry>)
    ensures
        catalog@ == catalog_of(probes@, rules@),
{
    let mut catalog: Vec<CatalogEntry> = Vec::new();
    let mut i: usize = 0;
    while i < probes.len()
        invariant
            i <= probes@.len(),
            catalog@ == catalog_of(probes@.take(i as int), rules@),
        decreases probes@.len() - i,
    {
        proof {
            assert(probes@.take(i as int + 1).drop_last() =~= probes@.take(i as int));
            assert(probes@.take(i as int + 1).last() == probes@[i as int]);
        }
        match admit_device(&probes[i], rules) {
            Some(device_type) => {
                catalog.push(CatalogEntry { probe_index: i, device_type });
            },
            None => {},
        }
        i += 1;
    }
    proof {
        assert(probes@.take(probes@.len() as int) =~= probes@);
    }
    catalog
}

/// Every catalog entry points at one of the probes.
pub proof fn lemma_catalog_indices_bounded(probes: Seq<ProbeRecord>, rules: Seq<ClassRule>)
    ensures
        forall|e: int| 0 <= e < catalog_of(probes, rules).len()
            ==> (#[trigger] catalog_of(probes, rules)[e]).probe_index < probes.len(),
    decreases probes.len(),
{
    if probes.len() > 0 {
        lemma_catalog_indices_bounded(probes.drop_last(), rules);
    }
}

/// Law: a device whose name and capability set match no rule of the table
/// never appears in the catalog, so it is never grabbed.
pub proof fn lemma_unmatched_not_in_catalog(probes: Seq<ProbeRecord>, rules: Seq<ClassRule>, i: int)
    requires
        0 <= i < probes.len(),
        probes.len() <= usize::MAX,
        forall|k: int| 0 <= k < rules.len()
            ==> !rule_matches(probes[i].name@, probes[i].caps@, #[trigger] rules[k]),
    ensures
        forall|e: int| 0 <= e < catalog_of(probes, rules).len()
            ==> (#[trigger] catalog_of(probes, rules)[e]).probe_index != i,
    decreases probes.len(),
{
    lemma_unmatched_never_classified(probes[i].name@, probes[i].caps@, rules);
    lemma_catalog_indices_bounded(probes.drop_last(), rules);
    let front = catalog_of(probes.drop_last(), rules);
    let cat = catalog_of(probes, rules);
    if i < probes.len() - 1 {
        assert(probes.drop_last()[i] == probes[i]);
        lemma_unmatched_not_in_catalog(probes.drop_last(), rules, i);
        assert forall|e: int| 0 <= e < cat.len() implies cat[e].probe_index != i by {
            if e < front.len() {
                assert(cat[e] == front[e]);
            } else {
                assert(admitted(probes.last(), rules) is Some);
                assert(cat[e] == (CatalogEntry {
                    probe_index: (probes.len() - 1) as usize,
                    device_type: admitted(probes.last(), rules)->Some_0,
                }));
            }
        }
    } else {
        assert(probes.last() == probes[i]);
        assert(admitted(probes.last(), rules) is None);
        assert(cat == front);
        assert forall|e: int| 0 <= e < cat.len() implies cat[e].probe_index != i by {
            assert(front[e].probe_index < probes.len() - 1);
        }
    }
}

} // verus!
