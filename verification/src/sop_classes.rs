//! The SOP-class catalog: every storage SOP class this pair handles, keyed
//! by UID, with its human name and modality category, and the policy that
//! picks the transfer syntaxes to propose for each category.

use vstd::prelude::*;
use vstd::string::StringSliceAdditionalSpecFns;

verus! {

/// The modality or object family of a SOP class.
#[derive(Clone, Copy, Debug, PartialEq, Eq, Structural)]
pub enum SopClassCategory {
    ComputedRadiography,
    ComputedTomography,
    MagneticResonance,
    Ultrasound,
    NuclearMedicine,
    DigitalRadiography,
    DigitalMammography,
    PetCt,
    OpticalCoherenceTomography,
    Endoscopy,
    Microscopy,
    StructuredReporting,
    Presentation,
    Waveform,
    RawData,
    SecondaryCapture,
    KeyObjectSelection,
    Enhanced,
    MultiFrame,
    Radiotherapy,
    Ophthalmology,
    Dermatology,
    Dental,
    Legacy,
    Other,
}

/// One SOP class: its UID, human name, and category.
#[derive(Clone, Copy, Debug)]
pub struct SopClassInfo {
    pub uid: &'static str,
    pub name: &'static str,
    pub category: SopClassCategory,
}

impl SopClassInfo {
    /// A catalog entry.
    pub fn new(uid: &'static str, name: &'static str, category: SopClassCategory) -> (r: Self)
        ensures
            r.uid.spec_bytes() == uid.spec_bytes(),
            r.name.spec_bytes() == name.spec_bytes(),
            r.category == category,
    {
        Self { uid, name, category }
    }
}

/// One stretch of the catalog, as UID bytes and category.
pub open spec fn spec_sop_table_a() -> Seq<(Seq<u8>, SopClassCategory)> {
    seq![
        ("1.2.840.10008.5.1.4.1.1.1".spec_bytes(), SopClassCategory::ComputedRadiography),
        ("1.2.840.10008.5.1.4.1.1.1.1".spec_bytes(), SopClassCategory::DigitalRadiography),
        ("1.2.840.10008.5.1.4.1.1.1.1.1".spec_bytes(), SopClassCategory::DigitalRadiography),
        ("1.2.840.10008.5.1.4.1.1.1.2".spec_bytes(), SopClassCategory::DigitalMammography),
        ("1.2.840.10008.5.1.4.1.1.1.2.1".spec_bytes(), SopClassCategory::DigitalMammography),
        ("1.2.840.10008.5.1.4.1.1.1.3".spec_bytes(), SopClassCategory::Dental),
        ("1.2.840.10008.5.1.4.1.1.1.3.1".spec_bytes(), SopClassCategory::Dental),
        ("1.2.840.10008.5.1.4.1.1.2".spec_bytes(), SopClassCategory::ComputedTomography),
        ("1.2.840.10008.5.1.4.1.1.2.1".spec_bytes(), SopClassCategory::Enhanced),
        ("1.2.840.10008.5.1.4.1.1.2.2".spec_bytes(), SopClassCategory::Legacy),
        ("1.2.840.10008.5.1.4.1.1.3.1".spec_bytes(), SopClassCategory::Ultrasound),
        ("1.2.840.10008.5.1.4.1.1.4".spec_bytes(), SopClassCategory::MagneticResonance),
    ]
}

/// One stretch of the catalog, as UID bytes and category.
pub open spec fn spec_sop_table_b() -> Seq<(Seq<u8>, SopClassCategory)> {
    seq![
        ("1.2.840.10008.5.1.4.1.1.4.1".spec_bytes(), SopClassCategory::Enhanced),
        ("1.2.840.10008.5.1.4.1.1.4.2".spec_bytes(), SopClassCategory::MagneticResonance),
        ("1.2.840.10008.5.1.4.1.1.4.3".spec_bytes(), SopClassCategory::Enhanced),
        ("1.2.840.10008.5.1.4.1.1.4.4".spec_bytes(), SopClassCategory::Legacy),
        ("1.2.840.10008.5.1.4.1.1.5".spec_bytes(), SopClassCategory::Legacy),
        ("1.2.840.10008.5.1.4.1.1.20".spec_bytes(), SopClassCategory::NuclearMedicine),
        ("1.2.840.10008.5.1.4.1.1.6.1".spec_bytes(), SopClassCategory::Ultrasound),
        ("1.2.840.10008.5.1.4.1.1.6.2".spec_bytes(), SopClassCategory::Enhanced),
        ("1.2.840.10008.5.1.4.1.1.7".spec_bytes(), SopClassCategory::SecondaryCapture),
        ("1.2.840.10008.5.1.4.1.1.7.1".spec_bytes(), SopClassCategory::SecondaryCapture),
        ("1.2.840.10008.5.1.4.1.1.7.2".spec_bytes(), SopClassCategory::SecondaryCapture),
        ("1.2.840.10008.5.1.4.1.1.7.3".spec_bytes(), SopClassCategory::SecondaryCapture),
    ]
}

/// One stretch of the catalog, as UID bytes and category.
pub open spec fn spec_sop_table_c() -> Seq<(Seq<u8>, SopClassCategory)> {
    seq![
        ("1.2.840.10008.5.1.4.1.1.7.4".spec_bytes(), SopClassCategory::SecondaryCapture),
        ("1.2.840.10008.5.1.4.1.1.12.1".spec_bytes(), SopClassCategory::DigitalRadiography),
        ("1.2.840.10008.5.1.4.1.1.12.1.1".spec_bytes(), SopClassCategory::Enhanced),
        ("1.2.840.10008.5.1.4.1.1.12.2".spec_bytes(), SopClassCategory::DigitalRadiography),
        ("1.2.840.10008.5.1.4.1.1.12.2.1".spec_bytes(), SopClassCategory::Enhanced),
        ("1.2.840.10008.5.1.4.1.1.128".spec_bytes(), SopClassCategory::NuclearMedicine),
        ("1.2.840.10008.5.1.4.1.1.130".spec_bytes(), SopClassCategory::Enhanced),
        ("1.2.840.10008.5.1.4.1.1.131".spec_bytes(), SopClassCategory::Legacy),
        ("1.2.840.10008.5.1.4.1.1.481.1".spec_bytes(), SopClassCategory::Radiotherapy),
        ("1.2.840.10008.5.1.4.1.1.481.2".spec_bytes(), SopClassCategory::Radiotherapy),
        ("1.2.840.10008.5.1.4.1.1.481.3".spec_bytes(), SopClassCategory::Radiotherapy),
        ("1.2.840.10008.5.1.4.1.1.481.4".spec_bytes(), SopClassCategory::Radiotherapy),
    ]
}

/// One stretch of the catalog, as UID bytes and category.
pub open spec fn spec_sop_table_d() -> Seq<(Seq<u8>, SopClassCategory)> {
    seq![
        ("1.2.840.10008.5.1.4.1.1.481.5".spec_bytes(), SopClassCategory::Radiotherapy),
        ("1.2.840.10008.5.1.4.1.1.481.6".spec_bytes(), SopClassCategory::Radiotherapy),
        ("1.2.840.10008.5.1.4.1.1.481.7".spec_bytes(), SopClassCategory::Radiotherapy),
        ("1.2.840.10008.5.1.4.1.1.481.8".spec_bytes(), SopClassCategory::Radiotherapy),
        ("1.2.840.10008.5.1.4.1.1.481.9".spec_bytes(), SopClassCategory::Radiotherapy),
        ("1.2.840.10008.5.1.4.1.1.9.1.1".spec_bytes(), SopClassCategory::Waveform),
        ("1.2.840.10008.5.1.4.1.1.9.1.2".spec_bytes(), SopClassCategory::Waveform),
        ("1.2.840.10008.5.1.4.1.1.9.1.3".spec_bytes(), SopClassCategory::Waveform),
        ("1.2.840.10008.5.1.4.1.1.9.2.1".spec_bytes(), SopClassCategory::Waveform),
        ("1.2.840.10008.5.1.4.1.1.9.3.1".spec_bytes(), SopClassCategory::Waveform),
        ("1.2.840.10008.5.1.4.1.1.9.4.1".spec_bytes(), SopClassCategory::Waveform),
        ("1.2.840.10008.5.1.4.1.1.9.4.2".spec_bytes(), SopClassCategory::Waveform),
    ]
}

/// One stretch of the catalog, as UID bytes and category.
pub open spec fn spec_sop_table_e() -> Seq<(Seq<u8>, SopClassCategory)> {
    seq![
        ("1.2.840.10008.5.1.4.1.1.9.5.1".spec_bytes(), SopClassCategory::Waveform),
        ("1.2.840.10008.5.1.4.1.1.9.6.1".spec_bytes(), SopClassCategory::Waveform),
        ("1.2.840.10008.5.1.4.1.1.9.6.2".spec_bytes(), SopClassCategory::Waveform),
        ("1.2.840.10008.5.1.4.1.1.9.7.1".spec_bytes(), SopClassCategory::Waveform),
        ("1.2.840.10008.5.1.4.1.1.9.7.2".spec_bytes(), SopClassCategory::Waveform),
        ("1.2.840.10008.5.1.4.1.1.9.7.3".spec_bytes(), SopClassCategory::Waveform),
        ("1.2.840.10008.5.1.4.1.1.9.7.4".spec_bytes(), SopClassCategory::Waveform),
        ("1.2.840.10008.5.1.4.1.1.9.8.1".spec_bytes(), SopClassCategory::Waveform),
        ("1.2.840.10008.5.1.4.1.1.88.11".spec_bytes(), SopClassCategory::StructuredReporting),
        ("1.2.840.10008.5.1.4.1.1.88.22".spec_bytes(), SopClassCategory::StructuredReporting),
        ("1.2.840.10008.5.1.4.1.1.88.33".spec_bytes(), SopClassCategory::StructuredReporting),
        ("1.2.840.10008.5.1.4.1.1.88.40".spec_bytes(), SopClassCategory::StructuredReporting),
    ]
}

/// One stretch of the catalog, as UID bytes and category.
pub open spec fn spec_sop_table_f() -> Seq<(Seq<u8>, SopClassCategory)> {
    seq![
        ("1.2.840.10008.5.1.4.1.1.88.50".spec_bytes(), SopClassCategory::StructuredReporting),
        ("1.2.840.10008.5.1.4.1.1.88.59".spec_bytes(), SopClassCategory::KeyObjectSelection),
        ("1.2.840.10008.5.1.4.1.1.88.65".spec_bytes(), SopClassCategory::StructuredReporting),
        ("1.2.840.10008.5.1.4.1.1.88.67".spec_bytes(), SopClassCategory::StructuredReporting),
        ("1.2.840.10008.5.1.4.1.1.88.68".spec_bytes(), SopClassCategory::StructuredReporting),
        ("1.2.840.10008.5.1.4.1.1.88.69".spec_bytes(), SopClassCategory::StructuredReporting),
        ("1.2.840.10008.5.1.4.1.1.88.70".spec_bytes(), SopClassCategory::StructuredReporting),
        ("1.2.840.10008.5.1.4.1.1.88.71".spec_bytes(), SopClassCategory::StructuredReporting),
        ("1.2.840.10008.5.1.4.1.1.88.72".spec_bytes(), SopClassCategory::StructuredReporting),
        ("1.2.840.10008.5.1.4.1.1.88.73".spec_bytes(), SopClassCategory::StructuredReporting),
        ("1.2.840.10008.5.1.4.1.1.88.74".spec_bytes(), SopClassCategory::StructuredReporting),
        ("1.2.840.10008.5.1.4.1.1.88.75".spec_bytes(), SopClassCategory::StructuredReporting),
    ]
}

/// One stretch of the catalog, as UID bytes and category.
pub open spec fn spec_sop_table_g() -> Seq<(Seq<u8>, SopClassCategory)> {
    seq![
        ("1.2.840.10008.5.1.4.1.1.88.76".spec_bytes(), SopClassCategory::StructuredReporting),
        ("1.2.840.10008.5.1.4.1.1.66".spec_bytes(), SopClassCategory::RawData),
        ("1.2.840.10008.5.1.4.1.1.66.1".spec_bytes(), SopClassCategory::Other),
        ("1.2.840.10008.5.1.4.1.1.66.2".spec_bytes(), SopClassCategory::Other),
        ("1.2.840.10008.5.1.4.1.1.66.3".spec_bytes(), SopClassCategory::Other),
        ("1.2.840.10008.5.1.4.1.1.66.4".spec_bytes(), SopClassCategory::Other),
        ("1.2.840.10008.5.1.4.1.1.66.5".spec_bytes(), SopClassCategory::Other),
        ("1.2.840.10008.5.1.4.1.1.66.6".spec_bytes(), SopClassCategory::Other),
        ("1.2.840.10008.5.1.4.1.1.11.1".spec_bytes(), SopClassCategory::Presentation),
        ("1.2.840.10008.5.1.4.1.1.11.2".spec_bytes(), SopClassCategory::Presentation),
        ("1.2.840.10008.5.1.4.1.1.11.3".spec_bytes(), SopClassCategory::Presentation),
        ("1.2.840.10008.5.1.4.1.1.11.4".spec_bytes(), SopClassCategory::Presentation),
    ]
}

/// One stretch of the catalog, as UID bytes and category.
pub open spec fn spec_sop_table_h() -> Seq<(Seq<u8>, SopClassCategory)> {
    seq![
        ("1.2.840.10008.5.1.4.1.1.11.5".spec_bytes(), SopClassCategory::Presentation),
        ("1.2.840.10008.5.1.4.1.1.11.6".spec_bytes(), SopClassCategory::Presentation),
        ("1.2.840.10008.5.1.4.1.1.11.7".spec_bytes(), SopClassCategory::Presentation),
        ("1.2.840.10008.5.1.4.1.1.11.8".spec_bytes(), SopClassCategory::Presentation),
        ("1.2.840.10008.5.1.4.1.1.11.9".spec_bytes(), SopClassCategory::Presentation),
        ("1.2.840.10008.5.1.4.1.1.11.10".spec_bytes(), SopClassCategory::Presentation),
        ("1.2.840.10008.5.1.4.1.1.11.11".spec_bytes(), SopClassCategory::Presentation),
        ("1.2.840.10008.5.1.4.1.1.77.1.1".spec_bytes(), SopClassCategory::Endoscopy),
        ("1.2.840.10008.5.1.4.1.1.77.1.2".spec_bytes(), SopClassCategory::Microscopy),
        ("1.2.840.10008.5.1.4.1.1.77.1.3".spec_bytes(), SopClassCategory::Other),
        ("1.2.840.10008.5.1.4.1.1.77.1.4".spec_bytes(), SopClassCategory::Ophthalmology),
        ("1.2.840.10008.5.1.4.1.1.77.1.4.1".spec_bytes(), SopClassCategory::Ophthalmology),
    ]
}

/// One stretch of the catalog, as UID bytes and category.
pub open spec fn spec_sop_table_i() -> Seq<(Seq<u8>, SopClassCategory)> {
    seq![
        ("1.2.840.10008.5.1.4.1.1.77.1.5.1".spec_bytes(), SopClassCategory::Ophthalmology),
        ("1.2.840.10008.5.1.4.1.1.77.1.5.2".spec_bytes(), SopClassCategory::OpticalCoherenceTomography),
        ("1.2.840.10008.5.1.4.1.1.77.1.5.3".spec_bytes(), SopClassCategory::Ophthalmology),
        ("1.2.840.10008.5.1.4.1.1.77.1.5.4".spec_bytes(), SopClassCategory::Ophthalmology),
        ("1.2.840.10008.5.1.4.1.1.77.1.5.5".spec_bytes(), SopClassCategory::OpticalCoherenceTomography),
        ("1.2.840.10008.5.1.4.1.1.77.1.5.6".spec_bytes(), SopClassCategory::OpticalCoherenceTomography),
        ("1.2.840.10008.5.1.4.1.1.77.1.5.7".spec_bytes(), SopClassCategory::Microscopy),
        ("1.2.840.10008.5.1.4.1.1.77.1.5.8".spec_bytes(), SopClassCategory::Dermatology),
        ("1.2.840.10008.5.1.4.1.1.77.1.6".spec_bytes(), SopClassCategory::Ophthalmology),
        ("1.2.840.10008.5.1.4.1.1.77.1.7".spec_bytes(), SopClassCategory::Ophthalmology),
        ("1.2.840.10008.5.1.4.1.1.77.1.8".spec_bytes(), SopClassCategory::Ophthalmology),
        ("1.2.840.10008.5.1.4.1.1.3".spec_bytes(), SopClassCategory::Legacy),
    ]
}

/// One stretch of the catalog, as UID bytes and category.
pub open spec fn spec_sop_table_j() -> Seq<(Seq<u8>, SopClassCategory)> {
    seq![
        ("1.2.840.10008.5.1.4.1.1.8".spec_bytes(), SopClassCategory::Legacy),
        ("1.2.840.10008.5.1.4.1.1.10".spec_bytes(), SopClassCategory::Legacy),
        ("1.2.840.10008.5.1.4.1.1.129".spec_bytes(), SopClassCategory::Legacy),
        ("1.2.840.10008.1.3.10".spec_bytes(), SopClassCategory::Other),
        ("1.2.840.10008.5.1.4.38.1".spec_bytes(), SopClassCategory::Other),
        ("1.2.840.10008.5.1.4.39.1".spec_bytes(), SopClassCategory::Other),
        ("1.2.840.10008.5.1.4.43.1".spec_bytes(), SopClassCategory::Other),
        ("1.2.840.10008.5.1.4.44.1".spec_bytes(), SopClassCategory::Other),
        ("1.2.840.10008.5.1.4.45.1".spec_bytes(), SopClassCategory::Other),
    ]
}

/// The whole catalog, as UID bytes and category, in registration order.
pub open spec fn spec_sop_table() -> Seq<(Seq<u8>, SopClassCategory)> {
    spec_sop_table_a() + spec_sop_table_b() + spec_sop_table_c() + spec_sop_table_d() + spec_sop_table_e() + spec_sop_table_f() + spec_sop_table_g() + spec_sop_table_h() + spec_sop_table_i() + spec_sop_table_j()
}

#[verifier::rlimit(100)]
fn sop_entries_a() -> (r: Vec<SopClassInfo>)
    ensures
        r@.map_values(|c: SopClassInfo| (c.uid.spec_bytes(), c.category)) == spec_sop_table_a(),
{
    let mut v: Vec<SopClassInfo> = Vec::new();
    v.push(
    SopClassInfo::new(
                "1.2.840.10008.5.1.4.1.1.1",
                "Computed Radiography Image Storage",
                SopClassCategory::ComputedRadiography,
            ),
    );
    v.push(
    SopClassInfo::new(
                "1.2.840.10008.5.1.4.1.1.1.1",
                "Digital X-Ray Image Storage - For Presentation",
                SopClassCategory::DigitalRadiography,
            ),
    );
    v.push(
    SopClassInfo::new(
                "1.2.840.10008.5.1.4.1.1.1.1.1",
                "Digital X-Ray Image Storage - For Processing",
                SopClassCategory::DigitalRadiography,
            ),
    );
    v.push(
    SopClassInfo::new(
                "1.2.840.10008.5.1.4.1.1.1.2",
                "Digital Mammography X-Ray Image Storage - For Presentation",
                SopClassCategory::DigitalMammography,
            ),
    );
    v.push(
    SopClassInfo::new(
                "1.2.840.10008.5.1.4.1.1.1.2.1",
                "Digital Mammography X-Ray Image Storage - For Processing",
                SopClassCategory::DigitalMammography,
            ),
    );
    v.push(
    SopClassInfo::new(
                "1.2.840.10008.5.1.4.1.1.1.3",
                "Digital Intra-Oral X-Ray Image Storage - For Presentation",
                SopClassCategory::Dental,
            ),
    );
    v.push(
    SopClassInfo::new(
                "1.2.840.10008.5.1.4.1.1.1.3.1",
                "Digital Intra-Oral X-Ray Image Storage - For Processing",
                SopClassCategory::Dental,
            ),
    );
    v.push(
    SopClassInfo::new(
                "1.2.840.10008.5.1.4.1.1.2",
                "CT Image Storage",
                SopClassCategory::ComputedTomography,
            ),
    );
    v.push(
    SopClassInfo::new(
                "1.2.840.10008.5.1.4.1.1.2.1",
                "Enhanced CT Image Storage",
                SopClassCategory::Enhanced,
            ),
    );
    v.push(
    SopClassInfo::new(
                "1.2.840.10008.5.1.4.1.1.2.2",
                "Legacy Converted Enhanced CT Image Storage",
                SopClassCategory::Legacy,
            ),
    );
    v.push(
    SopClassInfo::new(
                "1.2.840.10008.5.1.4.1.1.3.1",
                "Ultrasound Multi-frame Image Storage",
                SopClassCategory::Ultrasound,
            ),
    );
    v.push(
    SopClassInfo::new(
                "1.2.840.10008.5.1.4.1.1.4",
                "MR Image Storage",
                SopClassCategory::MagneticResonance,
            ),
    );
    assert(v@.map_values(|c: SopClassInfo| (c.uid.spec_bytes(), c.category)) =~= spec_sop_table_a());
    v
}

#[verifier::rlimit(100)]
fn sop_entries_b() -> (r: Vec<SopClassInfo>)
    ensures
        r@.map_values(|c: SopClassInfo| (c.uid.spec_bytes(), c.category)) == spec_sop_table_b(),
{
    let mut v: Vec<SopClassInfo> = Vec::new();
    v.push(
    SopClassInfo::new(
                "1.2.840.10008.5.1.4.1.1.4.1",
                "Enhanced MR Image Storage",
                SopClassCategory::Enhanced,
            ),
    );
    v.push(
    SopClassInfo::new(
                "1.2.840.10008.5.1.4.1.1.4.2",
                "MR Spectroscopy Storage",
                SopClassCategory::MagneticResonance,
            ),
    );
    v.push(
    SopClassInfo::new(
                "1.2.840.10008.5.1.4.1.1.4.3",
                "Enhanced MR Color Image Storage",
                SopClassCategory::Enhanced,
            ),
    );
    v.push(
    SopClassInfo::new(
                "1.2.840.10008.5.1.4.1.1.4.4",
                "Legacy Converted Enhanced MR Image Storage",
                SopClassCategory::Legacy,
            ),
    );
    v.push(
    SopClassInfo::new(
                "1.2.840.10008.5.1.4.1.1.5",
                "Nuclear Medicine Image Storage (Retired)",
                SopClassCategory::Legacy,
            ),
    );
    v.push(
    SopClassInfo::new(
                "1.2.840.10008.5.1.4.1.1.20",
                "Nuclear Medicine Image Storage",
                SopClassCategory::NuclearMedicine,
            ),
    );
    v.push(
    SopClassInfo::new(
                "1.2.840.10008.5.1.4.1.1.6.1",
                "Ultrasound Image Storage",
                SopClassCategory::Ultrasound,
            ),
    );
    v.push(
    SopClassInfo::new(
                "1.2.840.10008.5.1.4.1.1.6.2",
                "Enhanced US Volume Storage",
                SopClassCategory::Enhanced,
            ),
    );
    v.push(
    SopClassInfo::new(
                "1.2.840.10008.5.1.4.1.1.7",
                "Secondary Capture Image Storage",
                SopClassCategory::SecondaryCapture,
            ),
    );
    v.push(
    SopClassInfo::new(
                "1.2.840.10008.5.1.4.1.1.7.1",
                "Multi-frame Single Bit Secondary Capture Image Storage",
                SopClassCategory::SecondaryCapture,
            ),
    );
    v.push(
    SopClassInfo::new(
                "1.2.840.10008.5.1.4.1.1.7.2",
                "Multi-frame Grayscale Byte Secondary Capture Image Storage",
                SopClassCategory::SecondaryCapture,
            ),
    );
    v.push(
    SopClassInfo::new(
                "1.2.840.10008.5.1.4.1.1.7.3",
                "Multi-frame Grayscale Word Secondary Capture Image Storage",
                SopClassCategory::SecondaryCapture,
            ),
    );
    assert(v@.map_values(|c: SopClassInfo| (c.uid.spec_bytes(), c.category)) =~= spec_sop_table_b());
    v
}

#[verifier::rlimit(100)]
fn sop_entries_c() -> (r: Vec<SopClassInfo>)
    ensures
        r@.map_values(|c: SopClassInfo| (c.uid.spec_bytes(), c.category)) == spec_sop_table_c(),
{
    let mut v: Vec<SopClassInfo> = Vec::new();
    v.push(
    SopClassInfo::new(
                "1.2.840.10008.5.1.4.1.1.7.4",
                "Multi-frame True Color Secondary Capture Image Storage",
                SopClassCategory::SecondaryCapture,
            ),
    );
    v.push(
    SopClassInfo::new(
                "1.2.840.10008.5.1.4.1.1.12.1",
                "X-Ray Angiographic Image Storage",
                SopClassCategory::DigitalRadiography,
            ),
    );
    v.push(
    SopClassInfo::new(
                "1.2.840.10008.5.1.4.1.1.12.1.1",
                "Enhanced XA Image Storage",
                SopClassCategory::Enhanced,
            ),
    );
    v.push(
    SopClassInfo::new(
                "1.2.840.10008.5.1.4.1.1.12.2",
                "X-Ray Radiofluoroscopic Image Storage",
                SopClassCategory::DigitalRadiography,
            ),
    );
    v.push(
    SopClassInfo::new(
                "1.2.840.10008.5.1.4.1.1.12.2.1",
                "Enhanced XRF Image Storage",
                SopClassCategory::Enhanced,
            ),
    );
    v.push(
    SopClassInfo::new(
                "1.2.840.10008.5.1.4.1.1.128",
                "Positron Emission Tomography Image Storage",
                SopClassCategory::NuclearMedicine,
            ),
    );
    v.push(
    SopClassInfo::new(
                "1.2.840.10008.5.1.4.1.1.130",
                "Enhanced PET Image Storage",
                SopClassCategory::Enhanced,
            ),
    );
    v.push(
    SopClassInfo::new(
                "1.2.840.10008.5.1.4.1.1.131",
                "Legacy Converted Enhanced PET Image Storage",
                SopClassCategory::Legacy,
            ),
    );
    v.push(
    SopClassInfo::new(
                "1.2.840.10008.5.1.4.1.1.481.1",
                "RT Image Storage",
                SopClassCategory::Radiotherapy,
            ),
    );
    v.push(
    SopClassInfo::new(
                "1.2.840.10008.5.1.4.1.1.481.2",
                "RT Dose Storage",
                SopClassCategory::Radiotherapy,
            ),
    );
    v.push(
    SopClassInfo::new(
                "1.2.840.10008.5.1.4.1.1.481.3",
                "RT Structure Set Storage",
                SopClassCategory::Radiotherapy,
            ),
    );
    v.push(
    SopClassInfo::new(
                "1.2.840.10008.5.1.4.1.1.481.4",
                "RT Beams Treatment Record Storage",
                SopClassCategory::Radiotherapy,
            ),
    );
    assert(v@.map_values(|c: SopClassInfo| (c.uid.spec_bytes(), c.category)) =~= spec_sop_table_c());
    v
}

#[verifier::rlimit(100)]
fn sop_entries_d() -> (r: Vec<SopClassInfo>)
    ensures
        r@.map_values(|c: SopClassInfo| (c.uid.spec_bytes(), c.category)) == spec_sop_table_d(),
{
    let mut v: Vec<SopClassInfo> = Vec::new();
    v.push(
    SopClassInfo::new(
                "1.2.840.10008.5.1.4.1.1.481.5",
                "RT Plan Storage",
                SopClassCategory::Radiotherapy,
            ),
    );
    v.push(
    SopClassInfo::new(
                "1.2.840.10008.5.1.4.1.1.481.6",
                "RT Brachy Treatment Record Storage",
                SopClassCategory::Radiotherapy,
            ),
    );
    v.push(
    SopClassInfo::new(
                "1.2.840.10008.5.1.4.1.1.481.7",
                "RT Treatment Summary Record Storage",
                SopClassCategory::Radiotherapy,
            ),
    );
    v.push(
    SopClassInfo::new(
                "1.2.840.10008.5.1.4.1.1.481.8",
                "RT Ion Plan Storage",
                SopClassCategory::Radiotherapy,
            ),
    );
    v.push(
    SopClassInfo::new(
                "1.2.840.10008.5.1.4.1.1.481.9",
                "RT Ion Beams Treatment Record Storage",
                SopClassCategory::Radiotherapy,
            ),
    );
    v.push(
    SopClassInfo::new(
                "1.2.840.10008.5.1.4.1.1.9.1.1",
                "12-lead ECG Waveform Storage",
                SopClassCategory::Waveform,
            ),
    );
    v.push(
    SopClassInfo::new(
                "1.2.840.10008.5.1.4.1.1.9.1.2",
                "General ECG Waveform Storage",
                SopClassCategory::Waveform,
            ),
    );
    v.push(
    SopClassInfo::new(
                "1.2.840.10008.5.1.4.1.1.9.1.3",
                "Ambulatory ECG Waveform Storage",
                SopClassCategory::Waveform,
            ),
    );
    v.push(
    SopClassInfo::new(
                "1.2.840.10008.5.1.4.1.1.9.2.1",
                "Hemodynamic Waveform Storage",
                SopClassCategory::Waveform,
            ),
    );
    v.push(
    SopClassInfo::new(
                "1.2.840.10008.5.1.4.1.1.9.3.1",
                "Cardiac Electrophysiology Waveform Storage",
                SopClassCategory::Waveform,
            ),
    );
    v.push(
    SopClassInfo::new(
                "1.2.840.10008.5.1.4.1.1.9.4.1",
                "Basic Voice Audio Waveform Storage",
                SopClassCategory::Waveform,
            ),
    );
    v.push(
    SopClassInfo::new(
                "1.2.840.10008.5.1.4.1.1.9.4.2",
                "General Audio Waveform Storage",
                SopClassCategory::Waveform,
            ),
    );
    assert(v@.map_values(|c: SopClassInfo| (c.uid.spec_bytes(), c.category)) =~= spec_sop_table_d());
    v
}

#[verifier::rlimit(100)]
fn sop_entries_e() -> (r: Vec<SopClassInfo>)
    ensures
        r@.map_values(|c: SopClassInfo| (c.uid.spec_bytes(), c.category)) == spec_sop_table_e(),
{
    let mut v: Vec<SopClassInfo> = Vec::new();
    v.push(
    SopClassInfo::new(
                "1.2.840.10008.5.1.4.1.1.9.5.1",
                "Arterial Pulse Waveform Storage",
                SopClassCategory::Waveform,
            ),
    );
    v.push(
    SopClassInfo::new(
                "1.2.840.10008.5.1.4.1.1.9.6.1",
                "Respiratory Waveform Storage",
                SopClassCategory::Waveform,
            ),
    );
    v.push(
    SopClassInfo::new(
                "1.2.840.10008.5.1.4.1.1.9.6.2",
                "Multi-channel Respiratory Waveform Storage",
                SopClassCategory::Waveform,
            ),
    );
    v.push(
    SopClassInfo::new(
                "1.2.840.10008.5.1.4.1.1.9.7.1",
                "Routine Scalp Electroencephalogram Waveform Storage",
                SopClassCategory::Waveform,
            ),
    );
    v.push(
    SopClassInfo::new(
                "1.2.840.10008.5.1.4.1.1.9.7.2",
                "Electromyogram Waveform Storage",
                SopClassCategory::Waveform,
            ),
    );
    v.push(
    SopClassInfo::new(
                "1.2.840.10008.5.1.4.1.1.9.7.3",
                "Electrooculogram Waveform Storage",
                SopClassCategory::Waveform,
            ),
    );
    v.push(
    SopClassInfo::new(
                "1.2.840.10008.5.1.4.1.1.9.7.4",
                "Sleep Electroencephalogram Waveform Storage",
                SopClassCategory::Waveform,
            ),
    );
    v.push(
    SopClassInfo::new(
                "1.2.840.10008.5.1.4.1.1.9.8.1",
                "Body Position Waveform Storage",
                SopClassCategory::Waveform,
            ),
    );
    v.push(
    SopClassInfo::new(
                "1.2.840.10008.5.1.4.1.1.88.11",
                "Basic Text SR Storage",
                SopClassCategory::StructuredReporting,
            ),
    );
    v.push(
    SopClassInfo::new(
                "1.2.840.10008.5.1.4.1.1.88.22",
                "Enhanced SR Storage",
                SopClassCategory::StructuredReporting,
            ),
    );
    v.push(
    SopClassInfo::new(
                "1.2.840.10008.5.1.4.1.1.88.33",
                "Comprehensive SR Storage",
                SopClassCategory::StructuredReporting,
            ),
    );
    v.push(
    SopClassInfo::new(
                "1.2.840.10008.5.1.4.1.1.88.40",
                "Procedure Log Storage",
                SopClassCategory::StructuredReporting,
            ),
    );
    assert(v@.map_values(|c: SopClassInfo| (c.uid.spec_bytes(), c.category)) =~= spec_sop_table_e());
    v
}

#[verifier::rlimit(100)]
fn sop_entries_f() -> (r: Vec<SopClassInfo>)
    ensures
        r@.map_values(|c: SopClassInfo| (c.uid.spec_bytes(), c.category)) == spec_sop_table_f(),
{
    let mut v: Vec<SopClassInfo> = Vec::new();
    v.push(
    SopClassInfo::new(
                "1.2.840.10008.5.1.4.1.1.88.50",
                "Mammography CAD SR Storage",
                SopClassCategory::StructuredReporting,
            ),
    );
    v.push(
    SopClassInfo::new(
                "1.2.840.10008.5.1.4.1.1.88.59",
                "Key Object Selection Document Storage",
                SopClassCategory::KeyObjectSelection,
            ),
    );
    v.push(
    SopClassInfo::new(
                "1.2.840.10008.5.1.4.1.1.88.65",
                "Chest CAD SR Storage",
                SopClassCategory::StructuredReporting,
            ),
    );
    v.push(
    SopClassInfo::new(
                "1.2.840.10008.5.1.4.1.1.88.67",
                "X-Ray Radiation Dose SR Storage",
                SopClassCategory::StructuredReporting,
            ),
    );
    v.push(
    SopClassInfo::new(
                "1.2.840.10008.5.1.4.1.1.88.68",
                "Radiopharmaceutical Radiation Dose SR Storage",
                SopClassCategory::StructuredReporting,
            ),
    );
    v.push(
    SopClassInfo::new(
                "1.2.840.10008.5.1.4.1.1.88.69",
                "Colon CAD SR Storage",
                SopClassCategory::StructuredReporting,
            ),
    );
    v.push(
    SopClassInfo::new(
                "1.2.840.10008.5.1.4.1.1.88.70",
                "Implantation Plan SR Storage",
                SopClassCategory::StructuredReporting,
            ),
    );
    v.push(
    SopClassInfo::new(
                "1.2.840.10008.5.1.4.1.1.88.71",
                "Acquisition Context SR Storage",
                SopClassCategory::StructuredReporting,
            ),
    );
    v.push(
    SopClassInfo::new(
                "1.2.840.10008.5.1.4.1.1.88.72",
                "Simplified Adult Echo SR Storage",
                SopClassCategory::StructuredReporting,
            ),
    );
    v.push(
    SopClassInfo::new(
                "1.2.840.10008.5.1.4.1.1.88.73",
                "Patient Radiation Dose SR Storage",
                SopClassCategory::StructuredReporting,
            ),
    );
    v.push(
    SopClassInfo::new(
                "1.2.840.10008.5.1.4.1.1.88.74",
                "Planned Imaging Agent Administration SR Storage",
                SopClassCategory::StructuredReporting,
            ),
    );
    v.push(
    SopClassInfo::new(
                "1.2.840.10008.5.1.4.1.1.88.75",
                "Performed Imaging Agent Administration SR Storage",
                SopClassCategory::StructuredReporting,
            ),
    );
    assert(v@.map_values(|c: SopClassInfo| (c.uid.spec_bytes(), c.category)) =~= spec_sop_table_f());
    v
}

#[verifier::rlimit(100)]
fn sop_entries_g() -> (r: Vec<SopClassInfo>)
    ensures
        r@.map_values(|c: SopClassInfo| (c.uid.spec_bytes(), c.category)) == spec_sop_table_g(),
{
    let mut v: Vec<SopClassInfo> = Vec::new();
    v.push(
    SopClassInfo::new(
                "1.2.840.10008.5.1.4.1.1.88.76",
                "Enhanced X-Ray Radiation Dose SR Storage",
                SopClassCategory::StructuredReporting,
            ),
    );
    v.push(
    SopClassInfo::new(
                "1.2.840.10008.5.1.4.1.1.66",
                "Raw Data Storage",
                SopClassCategory::RawData,
            ),
    );
    v.push(
    SopClassInfo::new(
                "1.2.840.10008.5.1.4.1.1.66.1",
                "Spatial Registration Storage",
                SopClassCategory::Other,
            ),
    );
    v.push(
    SopClassInfo::new(
                "1.2.840.10008.5.1.4.1.1.66.2",
                "Spatial Fiducials Storage",
                SopClassCategory::Other,
            ),
    );
    v.push(
    SopClassInfo::new(
                "1.2.840.10008.5.1.4.1.1.66.3",
                "Deformable Spatial Registration Storage",
                SopClassCategory::Other,
            ),
    );
    v.push(
    SopClassInfo::new(
                "1.2.840.10008.5.1.4.1.1.66.4",
                "Segmentation Storage",
                SopClassCategory::Other,
            ),
    );
    v.push(
    SopClassInfo::new(
                "1.2.840.10008.5.1.4.1.1.66.5",
                "Surface Segmentation Storage",
                SopClassCategory::Other,
            ),
    );
    v.push(
    SopClassInfo::new(
                "1.2.840.10008.5.1.4.1.1.66.6",
                "Tractography Results Storage",
                SopClassCategory::Other,
            ),
    );
    v.push(
    SopClassInfo::new(
                "1.2.840.10008.5.1.4.1.1.11.1",
                "Grayscale Softcopy Presentation State Storage",
                SopClassCategory::Presentation,
            ),
    );
    v.push(
    SopClassInfo::new(
                "1.2.840.10008.5.1.4.1.1.11.2",
                "Color Softcopy Presentation State Storage",
                SopClassCategory::Presentation,
            ),
    );
    v.push(
    SopClassInfo::new(
                "1.2.840.10008.5.1.4.1.1.11.3",
                "Pseudo-Color Softcopy Presentation State Storage",
                SopClassCategory::Presentation,
            ),
    );
    v.push(
    SopClassInfo::new(
                "1.2.840.10008.5.1.4.1.1.11.4",
                "Blending Softcopy Presentation State Storage",
                SopClassCategory::Presentation,
            ),
    );
    assert(v@.map_values(|c: SopClassInfo| (c.uid.spec_bytes(), c.category)) =~= spec_sop_table_g());
    v
}

#[verifier::rlimit(100)]
fn sop_entries_h() -> (r: Vec<SopClassInfo>)
    ensures
        r@.map_values(|c: SopClassInfo| (c.uid.spec_bytes(), c.category)) == spec_sop_table_h(),
{
    let mut v: Vec<SopClassInfo> = Vec::new();
    v.push(
    SopClassInfo::new(
                "1.2.840.10008.5.1.4.1.1.11.5",
                "XA/XRF Grayscale Softcopy Presentation State Storage",
                SopClassCategory::Presentation,
            ),
    );
    v.push(
    SopClassInfo::new(
                "1.2.840.10008.5.1.4.1.1.11.6",
                "Grayscale Planar MPR Volumetric Presentation State Storage",
                SopClassCategory::Presentation,
            ),
    );
    v.push(
    SopClassInfo::new(
                "1.2.840.10008.5.1.4.1.1.11.7",
                "Compositing Planar MPR Volumetric Presentation State Storage",
                SopClassCategory::Presentation,
            ),
    );
    v.push(
    SopClassInfo::new(
                "1.2.840.10008.5.1.4.1.1.11.8",
                "Advanced Blending Presentation State Storage",
                SopClassCategory::Presentation,
            ),
    );
    v.push(
    SopClassInfo::new(
                "1.2.840.10008.5.1.4.1.1.11.9",
                "Volume Rendering Volumetric Presentation State Storage",
                SopClassCategory::Presentation,
            ),
    );
    v.push(
    SopClassInfo::new(
                "1.2.840.10008.5.1.4.1.1.11.10",
                "Segmented Volume Rendering Volumetric Presentation State Storage",
                SopClassCategory::Presentation,
            ),
    );
    v.push(
    SopClassInfo::new(
                "1.2.840.10008.5.1.4.1.1.11.11",
                "Multiple Volume Rendering Volumetric Presentation State Storage",
                SopClassCategory::Presentation,
            ),
    );
    v.push(
    SopClassInfo::new(
                "1.2.840.10008.5.1.4.1.1.77.1.1",
                "Video Endoscopic Image Storage",
                SopClassCategory::Endoscopy,
            ),
    );
    v.push(
    SopClassInfo::new(
                "1.2.840.10008.5.1.4.1.1.77.1.2",
                "Video Microscopic Image Storage",
                SopClassCategory::Microscopy,
            ),
    );
    v.push(
    SopClassInfo::new(
                "1.2.840.10008.5.1.4.1.1.77.1.3",
                "Video Photographic Image Storage",
                SopClassCategory::Other,
            ),
    );
    v.push(
    SopClassInfo::new(
                "1.2.840.10008.5.1.4.1.1.77.1.4",
                "Ophthalmic Photography 8 Bit Image Storage",
                SopClassCategory::Ophthalmology,
            ),
    );
    v.push(
    SopClassInfo::new(
                "1.2.840.10008.5.1.4.1.1.77.1.4.1",
                "Ophthalmic Photography 16 Bit Image Storage",
                SopClassCategory::Ophthalmology,
            ),
    );
    assert(v@.map_values(|c: SopClassInfo| (c.uid.spec_bytes(), c.category)) =~= spec_sop_table_h());
    v
}

#[verifier::rlimit(100)]
fn sop_entries_i() -> (r: Vec<SopClassInfo>)
    ensures
        r@.map_values(|c: SopClassInfo| (c.uid.spec_bytes(), c.category)) == spec_sop_table_i(),
{
    let mut v: Vec<SopClassInfo> = Vec::new();
    v.push(
    SopClassInfo::new(
                "1.2.840.10008.5.1.4.1.1.77.1.5.1",
                "Stereometric Relationship Storage",
                SopClassCategory::Ophthalmology,
            ),
    );
    v.push(
    SopClassInfo::new(
                "1.2.840.10008.5.1.4.1.1.77.1.5.2",
                "Ophthalmic Tomography Image Storage",
                SopClassCategory::OpticalCoherenceTomography,
            ),
    );
    v.push(
    SopClassInfo::new(
                "1.2.840.10008.5.1.4.1.1.77.1.5.3",
                "Wide Field Ophthalmic Photography Stereographic Projection Image Storage",
                SopClassCategory::Ophthalmology,
            ),
    );
    v.push(
    SopClassInfo::new(
                "1.2.840.10008.5.1.4.1.1.77.1.5.4",
                "Wide Field Ophthalmic Photography 3D Coordinates Image Storage",
                SopClassCategory::Ophthalmology,
            ),
    );
    v.push(
    SopClassInfo::new(
                "1.2.840.10008.5.1.4.1.1.77.1.5.5",
                "Ophthalmic Optical Coherence Tomography En Face Image Storage",
                SopClassCategory::OpticalCoherenceTomography,
            ),
    );
    v.push(
    SopClassInfo::new(
                "1.2.840.10008.5.1.4.1.1.77.1.5.6",
                "Ophthalmic Optical Coherence Tomography B-scan Volume Analysis Storage",
                SopClassCategory::OpticalCoherenceTomography,
            ),
    );
    v.push(
    SopClassInfo::new(
                "1.2.840.10008.5.1.4.1.1.77.1.5.7",
                "VL Whole Slide Microscopy Image Storage",
                SopClassCategory::Microscopy,
            ),
    );
    v.push(
    SopClassInfo::new(
                "1.2.840.10008.5.1.4.1.1.77.1.5.8",
                "Dermoscopic Photography Image Storage",
                SopClassCategory::Dermatology,
            ),
    );
    v.push(
    SopClassInfo::new(
                "1.2.840.10008.5.1.4.1.1.77.1.6",
                "Ophthalmic Visual Field Static Perimetry Measurements Storage",
                SopClassCategory::Ophthalmology,
            ),
    );
    v.push(
    SopClassInfo::new(
                "1.2.840.10008.5.1.4.1.1.77.1.7",
                "Ophthalmic Thickness Map Storage",
                SopClassCategory::Ophthalmology,
            ),
    );
    v.push(
    SopClassInfo::new(
                "1.2.840.10008.5.1.4.1.1.77.1.8",
                "Corneal Topography Map Storage",
                SopClassCategory::Ophthalmology,
            ),
    );
    v.push(
    SopClassInfo::new(
                "1.2.840.10008.5.1.4.1.1.3",
                "Ultrasound Multi-frame Image Storage (Retired)",
                SopClassCategory::Legacy,
            ),
    );
    assert(v@.map_values(|c: SopClassInfo| (c.uid.spec_bytes(), c.category)) =~= spec_sop_table_i());
    v
}

#[verifier::rlimit(100)]
fn sop_entries_j() -> (r: Vec<SopClassInfo>)
    ensures
        r@.map_values(|c: SopClassInfo| (c.uid.spec_bytes(), c.category)) == spec_sop_table_j(),
{
    let mut v: Vec<SopClassInfo> = Vec::new();
    v.push(
    SopClassInfo::new(
                "1.2.840.10008.5.1.4.1.1.8",
                "Standalone Overlay Storage (Retired)",
                SopClassCategory::Legacy,
            ),
    );
    v.push(
    SopClassInfo::new(
                "1.2.840.10008.5.1.4.1.1.10",
                "Standalone Curve Storage (Retired)",
                SopClassCategory::Legacy,
            ),
    );
    v.push(
    SopClassInfo::new(
                "1.2.840.10008.5.1.4.1.1.129",
                "Standalone PET Curve Storage (Retired)",
                SopClassCategory::Legacy,
            ),
    );
    v.push(
    SopClassInfo::new(
                "1.2.840.10008.1.3.10",
                "Media Storage Directory Storage",
                SopClassCategory::Other,
            ),
    );
    v.push(
    SopClassInfo::new(
                "1.2.840.10008.5.1.4.38.1",
                "Hanging Protocol Storage",
                SopClassCategory::Other,
            ),
    );
    v.push(
    SopClassInfo::new(
                "1.2.840.10008.5.1.4.39.1",
                "Color Palette Storage",
                SopClassCategory::Other,
            ),
    );
    v.push(
    SopClassInfo::new(
                "1.2.840.10008.5.1.4.43.1",
                "Generic Implant Template Storage",
                SopClassCategory::Other,
            ),
    );
    v.push(
    SopClassInfo::new(
                "1.2.840.10008.5.1.4.44.1",
                "Implant Assembly Template Storage",
                SopClassCategory::Other,
            ),
    );
    v.push(
    SopClassInfo::new(
                "1.2.840.10008.5.1.4.45.1",
                "Implant Template Group Storage",
                SopClassCategory::Other,
            ),
    );
    assert(v@.map_values(|c: SopClassInfo| (c.uid.spec_bytes(), c.category)) =~= spec_sop_table_j());
    v
}

/// The registry of every SOP class in the catalog.
#[derive(Debug)]
pub struct SopClassRegistry {
    classes: Vec<SopClassInfo>,
}

/// The first catalog entry whose UID reads as `uid`.
pub open spec fn spec_sop_lookup(s: Seq<SopClassInfo>, uid: Seq<u8>) -> Option<SopClassInfo>
    decreases s.len(),
{
    if s.len() == 0 {
        None
    } else if s[0].uid.spec_bytes() == uid {
        Some(s[0])
    } else {
        spec_sop_lookup(s.drop_first(), uid)
    }
}

impl SopClassRegistry {
    /// The catalog's entries, in registration order.
    pub closed spec fn entries(&self) -> Seq<SopClassInfo> {
        self.classes@
    }

    /// The UID bytes and category of each entry.
    pub open spec fn table(&self) -> Seq<(Seq<u8>, SopClassCategory)> {
        self.entries().map_values(|c: SopClassInfo| (c.uid.spec_bytes(), c.category))
    }

    /// Builds the registry from the full catalog.
    #[verifier::rlimit(100)]
    pub fn new() -> (r: Self)
        ensures
            r.table() == spec_sop_table(),
    {
        let mut classes = sop_entries_a();
        let mut part_b = sop_entries_b();
        classes.append(&mut part_b);
        assert(classes@.map_values(|c: SopClassInfo| (c.uid.spec_bytes(), c.category)) =~= spec_sop_table_a() + spec_sop_table_b());
        let mut part_c = sop_entries_c();
        classes.append(&mut part_c);
        assert(classes@.map_values(|c: SopClassInfo| (c.uid.spec_bytes(), c.category)) =~= spec_sop_table_a() + spec_sop_table_b() + spec_sop_table_c());
        let mut part_d = sop_entries_d();
        classes.append(&mut part_d);
        assert(classes@.map_values(|c: SopClassInfo| (c.uid.spec_bytes(), c.category)) =~= spec_sop_table_a() + spec_sop_table_b() + spec_sop_table_c() + spec_sop_table_d());
        let mut part_e = sop_entries_e();
        classes.append(&mut part_e);
        assert(classes@.map_values(|c: SopClassInfo| (c.uid.spec_bytes(), c.category)) =~= spec_sop_table_a() + spec_sop_table_b() + spec_sop_table_c() + spec_sop_table_d() + spec_sop_table_e());
        let mut part_f = sop_entries_f();
        classes.append(&mut part_f);
        assert(classes@.map_values(|c: SopClassInfo| (c.uid.spec_bytes(), c.category)) =~= spec_sop_table_a() + spec_sop_table_b() + spec_sop_table_c() + spec_sop_table_d() + spec_sop_table_e() + spec_sop_table_f());
        let mut part_g = sop_entries_g();
        classes.append(&mut part_g);
        assert(classes@.map_values(|c: SopClassInfo| (c.uid.spec_bytes(), c.category)) =~= spec_sop_table_a() + spec_sop_table_b() + spec_sop_table_c() + spec_sop_table_d() + spec_sop_table_e() + spec_sop_table_f() + spec_sop_table_g());
        let mut part_h = sop_entries_h();
        classes.append(&mut part_h);
        assert(classes@.map_values(|c: SopClassInfo| (c.uid.spec_bytes(), c.category)) =~= spec_sop_table_a() + spec_sop_table_b() + spec_sop_table_c() + spec_sop_table_d() + spec_sop_table_e() + spec_sop_table_f() + spec_sop_table_g() + spec_sop_table_h());
        let mut part_i = sop_entries_i();
        classes.append(&mut part_i);
        assert(classes@.map_values(|c: SopClassInfo| (c.uid.spec_bytes(), c.category)) =~= spec_sop_table_a() + spec_sop_table_b() + spec_sop_table_c() + spec_sop_table_d() + spec_sop_table_e() + spec_sop_table_f() + spec_sop_table_g() + spec_sop_table_h() + spec_sop_table_i());
        let mut part_j = sop_entries_j();
        classes.append(&mut part_j);
        assert(classes@.map_values(|c: SopClassInfo| (c.uid.spec_bytes(), c.category)) =~= spec_sop_table_a() + spec_sop_table_b() + spec_sop_table_c() + spec_sop_table_d() + spec_sop_table_e() + spec_sop_table_f() + spec_sop_table_g() + spec_sop_table_h() + spec_sop_table_i() + spec_sop_table_j());
        let r = Self { classes };
        assert(r.table() =~= spec_sop_table());
        r
    }

    /// The first entry whose UID matches, byte for byte.
    pub fn get(&self, uid: &str) -> (r: Option<&SopClassInfo>)
        ensures
            match r {
                Some(info) => spec_sop_lookup(self.entries(), uid.spec_bytes()) == Some(*info),
                None => spec_sop_lookup(self.entries(), uid.spec_bytes()) is None,
            },
    {
        let n = self.classes.len();
        let mut i: usize = 0;
        assert(self.entries().subrange(0, n as int) =~= self.entries());
        while i < n
            invariant
                n == self.classes@.len(),
                i <= n,
                spec_sop_lookup(self.entries(), uid.spec_bytes()) == spec_sop_lookup(
                    self.entries().subrange(i as int, n as int),
                    uid.spec_bytes(),
                ),
            decreases n - i,
        {
            let ghost suffix = self.entries().subrange(i as int, n as int);
            assert(suffix[0] == self.entries()[i as int]);
            if crate::uid::bytes_eq(self.classes[i].uid.as_bytes(), uid.as_bytes()) {
                return Some(&self.classes[i]);
            }
            proof {
                assert(suffix.drop_first() =~= self.entries().subrange(i + 1, n as int));
            }
            i = i + 1;
        }
        assert(self.entries().subrange(i as int, n as int) =~= Seq::<SopClassInfo>::empty());
        None
    }

    /// Every UID in the catalog, in registration order.
    pub fn get_all_uids(&self) -> (r: Vec<&'static str>)
        ensures
            r@.len() == self.entries().len(),
            forall|i: int|
                0 <= i < r@.len() ==> (#[trigger] r@[i]).spec_bytes()
                    == self.entries()[i].uid.spec_bytes(),
    {
        let mut r: Vec<&'static str> = Vec::new();
        let n = self.classes.len();
        let mut i: usize = 0;
        while i < n
            invariant
                n == self.classes@.len(),
                i <= n,
                r@.len() == i,
                forall|j: int|
                    0 <= j < i ==> (#[trigger] r@[j]).spec_bytes()
                        == self.entries()[j].uid.spec_bytes(),
            decreases n - i,
        {
            r.push(self.classes[i].uid);
            i = i + 1;
        }
        r
    }

    /// The entries of one category, in registration order.
    pub fn get_by_category(&self, category: SopClassCategory) -> (r: Vec<SopClassInfo>)
        ensures
            r@ == self.entries().filter(|c: SopClassInfo| c.category == category),
    {
        let mut r: Vec<SopClassInfo> = Vec::new();
        let n = self.classes.len();
        let mut i: usize = 0;
        assert(self.entries().take(0) =~= Seq::<SopClassInfo>::empty());
        assert(r@ =~= self.entries().take(0).filter(|c: SopClassInfo| c.category == category));
        while i < n
            invariant
                n == self.classes@.len(),
                i <= n,
                r@ == self.entries().take(i as int).filter(
                    |c: SopClassInfo| c.category == category,
                ),
            decreases n - i,
        {
            proof {
                reveal_with_fuel(Seq::filter, 2);
                assert(self.entries().take(i + 1).drop_last() =~= self.entries().take(i as int));
                assert(self.entries().take(i + 1).last() == self.entries()[i as int]);
            }
            if self.classes[i].category == category {
                r.push(self.classes[i]);
            }
            assert(r@ =~= self.entries().take(i + 1).filter(
                |c: SopClassInfo| c.category == category,
            ));
            i = i + 1;
        }
        assert(self.entries().take(n as int) =~= self.entries());
        r
    }

    /// Whether the catalog holds this UID.
    pub fn is_supported(&self, uid: &str) -> (r: bool)
        ensures
            r == (spec_sop_lookup(self.entries(), uid.spec_bytes()) is Some),
    {
        self.get(uid).is_some()
    }

    /// The human name of the SOP class with this UID.
    pub fn get_name(&self, uid: &str) -> (r: Option<&'static str>)
        ensures
            match r {
                Some(name) => match spec_sop_lookup(self.entries(), uid.spec_bytes()) {
                    Some(info) => name.spec_bytes() == info.name.spec_bytes(),
                    None => false,
                },
                None => spec_sop_lookup(self.entries(), uid.spec_bytes()) is None,
            },
    {
        match self.get(uid) {
            Some(info) => Some(info.name),
            None => None,
        }
    }
}

impl Default for SopClassRegistry {
    /// The full catalog.
    fn default() -> (r: Self)
        ensures
            r.table() == spec_sop_table(),
    {
        Self::new()
    }
}

/// The proposal list for a SOP-class category, as UID bytes: the policy of
/// `get_transfer_syntaxes_for_category`.
pub open spec fn spec_policy_for_category(category: SopClassCategory) -> Seq<Seq<u8>> {
    match category {
        SopClassCategory::ComputedTomography => crate::transfer_syntaxes::spec_compressed_ts_list(),
        SopClassCategory::MagneticResonance => crate::transfer_syntaxes::spec_compressed_ts_list(),
        SopClassCategory::DigitalRadiography => crate::transfer_syntaxes::spec_compressed_ts_list(),
        SopClassCategory::DigitalMammography => crate::transfer_syntaxes::spec_compressed_ts_list(),
        SopClassCategory::Enhanced => crate::transfer_syntaxes::spec_all_ts_uids(),
        SopClassCategory::Waveform => crate::transfer_syntaxes::spec_lossless_ts_list(),
        SopClassCategory::RawData => crate::transfer_syntaxes::spec_lossless_ts_list(),
        SopClassCategory::Endoscopy => crate::transfer_syntaxes::spec_compressed_ts_list()
            + crate::transfer_syntaxes::spec_video_ts_list(),
        SopClassCategory::Microscopy => crate::transfer_syntaxes::spec_compressed_ts_list()
            + crate::transfer_syntaxes::spec_video_ts_list(),
        SopClassCategory::Legacy => crate::transfer_syntaxes::spec_basic_ts_list(),
        _ => crate::transfer_syntaxes::spec_lossless_ts_list(),
    }
}

/// The default proposal list: the basic uncompressed transfer syntaxes.
pub fn get_default_transfer_syntaxes() -> (r: Vec<&'static str>)
    ensures
        r@.map_values(|s: &str| s.spec_bytes()) == crate::transfer_syntaxes::spec_basic_ts_list(),
{
    crate::transfer_syntaxes::get_basic_transfer_syntaxes()
}

/// The lossless proposal list for medical imaging.
pub fn get_lossless_transfer_syntaxes() -> (r: Vec<&'static str>)
    ensures
        r@.map_values(|s: &str| s.spec_bytes())
            == crate::transfer_syntaxes::spec_lossless_ts_list(),
{
    crate::transfer_syntaxes::get_lossless_transfer_syntaxes()
}

/// Every registered transfer syntax, compressed formats included.
pub fn get_comprehensive_transfer_syntaxes() -> (r: Vec<&'static str>)
    ensures
        r@.map_values(|s: &str| s.spec_bytes()) == crate::transfer_syntaxes::spec_all_ts_uids(),
{
    crate::transfer_syntaxes::get_comprehensive_transfer_syntaxes()
}

/// The transfer syntaxes to propose for a SOP class of this category.
pub fn get_transfer_syntaxes_for_category(category: &SopClassCategory) -> (r: Vec<&'static str>)
    ensures
        r@.map_values(|s: &str| s.spec_bytes()) == spec_policy_for_category(*category),
{
    match category {
        SopClassCategory::ComputedTomography | SopClassCategory::MagneticResonance
            | SopClassCategory::DigitalRadiography | SopClassCategory::DigitalMammography => {
            crate::transfer_syntaxes::get_compressed_transfer_syntaxes()
        },
        SopClassCategory::Enhanced => crate::transfer_syntaxes::get_comprehensive_transfer_syntaxes(),
        SopClassCategory::Waveform | SopClassCategory::RawData => {
            crate::transfer_syntaxes::get_lossless_transfer_syntaxes()
        },
        SopClassCategory::Endoscopy | SopClassCategory::Microscopy => {
            let mut syntaxes = crate::transfer_syntaxes::get_compressed_transfer_syntaxes();
            let mut video = crate::transfer_syntaxes::get_video_transfer_syntaxes();
            let ghost before = syntaxes@;
            syntaxes.append(&mut video);
            proof {
                assert(syntaxes@.map_values(|s: &str| s.spec_bytes())
                    =~= crate::transfer_syntaxes::spec_compressed_ts_list()
                    + crate::transfer_syntaxes::spec_video_ts_list());
            }
            syntaxes
        },
        SopClassCategory::Legacy => crate::transfer_syntaxes::get_basic_transfer_syntaxes(),
        _ => crate::transfer_syntaxes::get_lossless_transfer_syntaxes(),
    }
}

/// The extended proposal list kept for older callers: every registered
/// transfer syntax.
pub fn get_extended_transfer_syntaxes() -> (r: Vec<&'static str>)
    ensures
        r@.map_values(|s: &str| s.spec_bytes()) == crate::transfer_syntaxes::spec_all_ts_uids(),
{
    get_comprehensive_transfer_syntaxes()
}

} // verus!
