//! Stable volume identities derived from inputs that survive reboots and remounts.
use vstd::prelude::*;
use crate::path::{is_sep, trim_trailing, trim_trailing_separators, lemma_trim_ignores_trailing_separator};
use crate::text::{lower_of, lowercase, substring, uuid_text, uuid_text_of};
use crate::types::Platform;

verus! {

/// The identity of a volume, under the rule that fits its kind.
///
/// Two fingerprints are equal exactly when they were derived under the same
/// rule from the same normalized inputs.
#[derive(Debug, Eq)]
pub enum VolumeFingerprint {
    /// A local volume: its normalized mount path on the owning device.
    Primary { path: String, device_id: u128 },
    /// A removable volume: the marker identifier stored on it, on the owning device.
    External { marker_id: u128, device_id: u128 },
    /// A network share: its backend address, whatever it is mounted at.
    Network { backend_id: String },
}

/// The mathematical content of a [`VolumeFingerprint`].
pub ghost enum FingerprintView {
    Primary { path: Seq<char>, device_id: u128 },
    External { marker_id: u128, device_id: u128 },
    Network { backend_id: Seq<char> },
}

impl View for VolumeFingerprint {
    type V = FingerprintView;

    open spec fn view(&self) -> FingerprintView {
        match self {
            VolumeFingerprint::Primary { path, device_id } => FingerprintView::Primary {
                path: path@,
                device_id: *device_id,
            },
            VolumeFingerprint::External { marker_id, device_id } => FingerprintView::External {
                marker_id: *marker_id,
                device_id: *device_id,
            },
            VolumeFingerprint::Network { backend_id } => FingerprintView::Network {
                backend_id: backend_id@,
            },
        }
    }
}

impl PartialEq for VolumeFingerprint {
    fn eq(&self, o: &VolumeFingerprint) -> (r: bool) {
        match (self, o) {
            (
                VolumeFingerprint::Primary { path: p1, device_id: d1 },
                VolumeFingerprint::Primary { path: p2, device_id: d2 },
            ) => *d1 == *d2 && p1.eq(p2),
            (
                VolumeFingerprint::External { marker_id: m1, device_id: d1 },
                VolumeFingerprint::External { marker_id: m2, device_id: d2 },
            ) => *m1 == *m2 && *d1 == *d2,
            (
                VolumeFingerprint::Network { backend_id: b1 },
                VolumeFingerprint::Network { backend_id: b2 },
            ) => b1.eq(b2),
            _ => false,
        }
    }
}

impl vstd::std_specs::cmp::PartialEqSpecImpl for VolumeFingerprint {
    open spec fn obeys_eq_spec() -> bool {
        true
    }

    open spec fn eq_spec(&self, o: &VolumeFingerprint) -> bool {
        self@ == o@
    }
}

/// A mount path in the form that identifies it: trailing separators removed,
/// and case-folded where the platform ignores case.
pub open spec fn normalized_path(path: Seq<char>, platform: Platform) -> Seq<char> {
    if platform.case_insensitive() {
        lower_of(trim_trailing(path))
    } else {
        trim_trailing(path)
    }
}

pub open spec fn primary_fingerprint(path: Seq<char>, device_id: u128, platform: Platform) -> FingerprintView {
    FingerprintView::Primary { path: normalized_path(path, platform), device_id }
}

pub open spec fn external_fingerprint(marker_id: u128, device_id: u128) -> FingerprintView {
    FingerprintView::External { marker_id, device_id }
}

pub open spec fn network_fingerprint(backend_id: Seq<char>) -> FingerprintView {
    FingerprintView::Network { backend_id }
}

/// The first eight characters of a UUID's text form.
pub open spec fn uuid_short(v: u128) -> Seq<char> {
    uuid_text_of(v).subrange(0, 8)
}

/// The short, human-readable form of a fingerprint used in diagnostics.
pub open spec fn short_label(f: FingerprintView) -> Seq<char> {
    match f {
        FingerprintView::Primary { path, device_id } => path + seq!['@'] + uuid_short(device_id),
        FingerprintView::External { marker_id, device_id } => seq!['e', 'x', 't', ':'] + uuid_short(
            marker_id,
        ) + seq!['@'] + uuid_short(device_id),
        FingerprintView::Network { backend_id } => seq!['n', 'e', 't', ':'] + backend_id,
    }
}

fn short_uuid(v: u128) -> (r: String)
    ensures
        r@ == uuid_short(v),
{
    let t = uuid_text(v);
    substring(t.as_str(), 0, 8)
}

impl VolumeFingerprint {
    /// The identity of a local volume, from its mount path and the owning device.
    pub fn from_primary_volume(path: &str, device_id: u128, platform: Platform) -> (r: Self)
        ensures
            r@ == primary_fingerprint(path@, device_id, platform),
    {
        let trimmed = trim_trailing_separators(path);
        let key = if platform.is_case_insensitive() {
            lowercase(trimmed.as_str())
        } else {
            trimmed
        };
        VolumeFingerprint::Primary { path: key, device_id }
    }

    /// The identity of a removable volume, from the marker identifier stored on it.
    pub fn from_external_volume(marker_id: u128, device_id: u128) -> (r: Self)
        ensures
            r@ == external_fingerprint(marker_id, device_id),
    {
        VolumeFingerprint::External { marker_id, device_id }
    }

    /// The identity of a network share, from its backend address; where the
    /// share happens to be mounted does not enter it.
    pub fn from_network_volume(backend_id: &str, _mount_path: &str) -> (r: Self)
        ensures
            r@ == network_fingerprint(backend_id@),
    {
        VolumeFingerprint::Network { backend_id: String::from_str(backend_id) }
    }

    /// A copy of the fingerprint.
    pub fn duplicate(&self) -> (r: Self)
        ensures
            r@ == self@,
    {
        match self {
            VolumeFingerprint::Primary { path, device_id } => VolumeFingerprint::Primary {
                path: path.clone(),
                device_id: *device_id,
            },
            VolumeFingerprint::External { marker_id, device_id } => VolumeFingerprint::External {
                marker_id: *marker_id,
                device_id: *device_id,
            },
            VolumeFingerprint::Network { backend_id } => VolumeFingerprint::Network {
                backend_id: backend_id.clone(),
            },
        }
    }

    /// Whether two fingerprints name the same volume.
    pub fn same_as(&self, o: &VolumeFingerprint) -> (r: bool)
        ensures
            r == (self@ == o@),
    {
        self.eq(o)
    }

    /// The short form for diagnostics: the key, then `@` and the first eight
    /// characters of the device UUID.
    pub fn short_id(&self) -> (r: String)
        ensures
            r@ == short_label(self@),
    {
        proof {
            reveal_strlit("@");
            reveal_strlit("ext:");
            reveal_strlit("net:");
        }
        match self {
            VolumeFingerprint::Primary { path, device_id } => {
                let d = short_uuid(*device_id);
                let r = path.clone().concat("@").concat(d.as_str());
                assert(r@ =~= short_label(self@));
                r
            },
            VolumeFingerprint::External { marker_id, device_id } => {
                let m = short_uuid(*marker_id);
                let d = short_uuid(*device_id);
                let r = String::from_str("ext:").concat(m.as_str()).concat("@").concat(d.as_str());
                assert(r@ =~= short_label(self@));
                r
            },
            VolumeFingerprint::Network { backend_id } => {
                let r = String::from_str("net:").concat(backend_id.as_str());
                assert(r@ =~= short_label(self@));
                r
            },
        }
    }
}

/// A local volume's fingerprint is a function of its normalized path and its
/// device alone: the same inputs, or paths that normalize alike, always give
/// the same fingerprint.
pub proof fn law_primary_deterministic(path1: Seq<char>, path2: Seq<char>, device_id: u128, platform: Platform)
    requires
        normalized_path(path1, platform) == normalized_path(path2, platform),
    ensures
        primary_fingerprint(path1, device_id, platform) == primary_fingerprint(path2, device_id, platform),
{
}

/// Local volumes whose normalized paths differ get different fingerprints on
/// the same device, and one path gets different fingerprints on different devices.
pub proof fn law_primary_sensitive(
    path1: Seq<char>,
    path2: Seq<char>,
    device1: u128,
    device2: u128,
    platform: Platform,
)
    ensures
        normalized_path(path1, platform) != normalized_path(path2, platform) ==> primary_fingerprint(
            path1,
            device1,
            platform,
        ) != primary_fingerprint(path2, device1, platform),
        device1 != device2 ==> primary_fingerprint(path1, device1, platform) != primary_fingerprint(
            path1,
            device2,
            platform,
        ),
{
}

/// On a case-sensitive platform, distinct mount paths that do not differ only
/// by trailing separators give distinct fingerprints.
pub proof fn law_primary_sensitive_paths(path1: Seq<char>, path2: Seq<char>, device_id: u128)
    requires
        trim_trailing(path1) != trim_trailing(path2),
    ensures
        primary_fingerprint(path1, device_id, Platform::Linux) != primary_fingerprint(
            path2,
            device_id,
            Platform::Linux,
        ),
{
}

/// A trailing separator on a mount path does not change its fingerprint.
pub proof fn law_trailing_separator_ignored(path: Seq<char>, sep: char, device_id: u128, platform: Platform)
    requires
        path.len() > 0,
        is_sep(sep),
    ensures
        primary_fingerprint(path.push(sep), device_id, platform) == primary_fingerprint(
            path,
            device_id,
            platform,
        ),
{
    lemma_trim_ignores_trailing_separator(path, sep);
}

/// An external volume's fingerprint depends on its marker and device alone:
/// the same pair gives the same fingerprint, and another device another one.
pub proof fn law_external_binding(marker_id: u128, device1: u128, device2: u128)
    ensures
        external_fingerprint(marker_id, device1) == external_fingerprint(marker_id, device1),
        device1 != device2 ==> external_fingerprint(marker_id, device1) != external_fingerprint(
            marker_id,
            device2,
        ),
{
}

} // verus!
