//! The transfer-syntax catalog: every encoding this pair can negotiate,
//! keyed by UID, with its compression, endianness, VR style and
//! encapsulation, and the fixed proposal lists built from it.

use vstd::prelude::*;
use vstd::string::StringSliceAdditionalSpecFns;

verus! {

/// The broad family of a transfer syntax.
#[derive(Clone, Copy, Debug, PartialEq, Eq, Structural)]
pub enum TransferSyntaxCategory {
    /// Uncompressed transfer syntaxes.
    Uncompressed,
    /// Lossless compression.
    LosslessCompressed,
    /// Lossy compression.
    LossyCompressed,
    /// Legacy or specialized.
    Legacy,
    /// Video compression.
    Video,
}

/// The compression scheme a transfer syntax uses.
#[derive(Clone, Copy, Debug, PartialEq, Eq, Structural)]
pub enum CompressionType {
    NoCompression,
    JPEG,
    JPEGLossless,
    JPEGLS,
    JPEG2000,
    RLE,
    MPEG2,
    MPEG4,
    H264,
    H265,
}

/// One transfer syntax: its UID, human name, and encoding properties.
#[derive(Clone, Copy, Debug)]
pub struct TransferSyntaxInfo {
    pub uid: &'static str,
    pub name: &'static str,
    pub category: TransferSyntaxCategory,
    pub compression: CompressionType,
    pub is_little_endian: bool,
    pub is_explicit_vr: bool,
    pub supports_encapsulation: bool,
}

/// The properties of one catalog entry, with the UID as bytes.
pub struct TransferSyntaxProps {
    pub uid: Seq<u8>,
    pub category: TransferSyntaxCategory,
    pub compression: CompressionType,
    pub is_little_endian: bool,
    pub is_explicit_vr: bool,
    pub supports_encapsulation: bool,
}

/// The property projection of an entry.
pub open spec fn spec_ts_props(c: TransferSyntaxInfo) -> TransferSyntaxProps {
    TransferSyntaxProps {
        uid: c.uid.spec_bytes(),
        category: c.category,
        compression: c.compression,
        is_little_endian: c.is_little_endian,
        is_explicit_vr: c.is_explicit_vr,
        supports_encapsulation: c.supports_encapsulation,
    }
}

impl TransferSyntaxInfo {
    /// A catalog entry.
    pub fn new(
        uid: &'static str,
        name: &'static str,
        category: TransferSyntaxCategory,
        compression: CompressionType,
        is_little_endian: bool,
        is_explicit_vr: bool,
        supports_encapsulation: bool,
    ) -> (r: Self)
        ensures
            r.uid.spec_bytes() == uid.spec_bytes(),
            r.name.spec_bytes() == name.spec_bytes(),
            r.category == category,
            r.compression == compression,
            r.is_little_endian == is_little_endian,
            r.is_explicit_vr == is_explicit_vr,
            r.supports_encapsulation == supports_encapsulation,
    {
        Self { uid, name, category, compression, is_little_endian, is_explicit_vr, supports_encapsulation }
    }

    /// Whether this syntax compresses pixel data at all.
    pub fn is_compressed(&self) -> (r: bool)
        ensures
            r == (self.compression != CompressionType::NoCompression),
    {
        self.compression != CompressionType::NoCompression
    }

    /// Whether this syntax loses no information: uncompressed or losslessly
    /// compressed.
    pub fn is_lossless(&self) -> (r: bool)
        ensures
            r == (self.category == TransferSyntaxCategory::Uncompressed || self.category
                == TransferSyntaxCategory::LosslessCompressed),
    {
        self.category == TransferSyntaxCategory::Uncompressed || self.category
            == TransferSyntaxCategory::LosslessCompressed
    }
}

/// One stretch of the catalog, as properties.
pub open spec fn spec_ts_table_a() -> Seq<TransferSyntaxProps> {
    seq![
        TransferSyntaxProps {
            uid: "1.2.840.10008.1.2".spec_bytes(),
            category: TransferSyntaxCategory::Uncompressed,
            compression: CompressionType::NoCompression,
            is_little_endian: true,
            is_explicit_vr: false,
            supports_encapsulation: false,
        },
        TransferSyntaxProps {
            uid: "1.2.840.10008.1.2.1".spec_bytes(),
            category: TransferSyntaxCategory::Uncompressed,
            compression: CompressionType::NoCompression,
            is_little_endian: true,
            is_explicit_vr: true,
            supports_encapsulation: false,
        },
        TransferSyntaxProps {
            uid: "1.2.840.10008.1.2.2".spec_bytes(),
            category: TransferSyntaxCategory::Legacy,
            compression: CompressionType::NoCompression,
            is_little_endian: false,
            is_explicit_vr: true,
            supports_encapsulation: false,
        },
        TransferSyntaxProps {
            uid: "1.2.840.10008.1.2.4.50".spec_bytes(),
            category: TransferSyntaxCategory::LossyCompressed,
            compression: CompressionType::JPEG,
            is_little_endian: true,
            is_explicit_vr: true,
            supports_encapsulation: true,
        },
        TransferSyntaxProps {
            uid: "1.2.840.10008.1.2.4.51".spec_bytes(),
            category: TransferSyntaxCategory::LossyCompressed,
            compression: CompressionType::JPEG,
            is_little_endian: true,
            is_explicit_vr: true,
            supports_encapsulation: true,
        },
        TransferSyntaxProps {
            uid: "1.2.840.10008.1.2.4.52".spec_bytes(),
            category: TransferSyntaxCategory::Legacy,
            compression: CompressionType::JPEG,
            is_little_endian: true,
            is_explicit_vr: true,
            supports_encapsulation: true,
        },
        TransferSyntaxProps {
            uid: "1.2.840.10008.1.2.4.53".spec_bytes(),
            category: TransferSyntaxCategory::Legacy,
            compression: CompressionType::JPEG,
            is_little_endian: true,
            is_explicit_vr: true,
            supports_encapsulation: true,
        },
        TransferSyntaxProps {
            uid: "1.2.840.10008.1.2.4.54".spec_bytes(),
            category: TransferSyntaxCategory::Legacy,
            compression: CompressionType::JPEG,
            is_little_endian: true,
            is_explicit_vr: true,
            supports_encapsulation: true,
        },
        TransferSyntaxProps {
            uid: "1.2.840.10008.1.2.4.55".spec_bytes(),
            category: TransferSyntaxCategory::Legacy,
            compression: CompressionType::JPEG,
            is_little_endian: true,
            is_explicit_vr: true,
            supports_encapsulation: true,
        },
        TransferSyntaxProps {
            uid: "1.2.840.10008.1.2.4.56".spec_bytes(),
            category: TransferSyntaxCategory::Legacy,
            compression: CompressionType::JPEG,
            is_little_endian: true,
            is_explicit_vr: true,
            supports_encapsulation: true,
        },
        TransferSyntaxProps {
            uid: "1.2.840.10008.1.2.4.57".spec_bytes(),
            category: TransferSyntaxCategory::LosslessCompressed,
            compression: CompressionType::JPEGLossless,
            is_little_endian: true,
            is_explicit_vr: true,
            supports_encapsulation: true,
        },
        TransferSyntaxProps {
            uid: "1.2.840.10008.1.2.4.58".spec_bytes(),
            category: TransferSyntaxCategory::Legacy,
            compression: CompressionType::JPEGLossless,
            is_little_endian: true,
            is_explicit_vr: true,
            supports_encapsulation: true,
        },
    ]
}

/// One stretch of the catalog, as properties.
pub open spec fn spec_ts_table_b() -> Seq<TransferSyntaxProps> {
    seq![
        TransferSyntaxProps {
            uid: "1.2.840.10008.1.2.4.59".spec_bytes(),
            category: TransferSyntaxCategory::Legacy,
            compression: CompressionType::JPEG,
            is_little_endian: true,
            is_explicit_vr: true,
            supports_encapsulation: true,
        },
        TransferSyntaxProps {
            uid: "1.2.840.10008.1.2.4.60".spec_bytes(),
            category: TransferSyntaxCategory::Legacy,
            compression: CompressionType::JPEG,
            is_little_endian: true,
            is_explicit_vr: true,
            supports_encapsulation: true,
        },
        TransferSyntaxProps {
            uid: "1.2.840.10008.1.2.4.61".spec_bytes(),
            category: TransferSyntaxCategory::Legacy,
            compression: CompressionType::JPEG,
            is_little_endian: true,
            is_explicit_vr: true,
            supports_encapsulation: true,
        },
        TransferSyntaxProps {
            uid: "1.2.840.10008.1.2.4.62".spec_bytes(),
            category: TransferSyntaxCategory::Legacy,
            compression: CompressionType::JPEG,
            is_little_endian: true,
            is_explicit_vr: true,
            supports_encapsulation: true,
        },
        TransferSyntaxProps {
            uid: "1.2.840.10008.1.2.4.63".spec_bytes(),
            category: TransferSyntaxCategory::Legacy,
            compression: CompressionType::JPEG,
            is_little_endian: true,
            is_explicit_vr: true,
            supports_encapsulation: true,
        },
        TransferSyntaxProps {
            uid: "1.2.840.10008.1.2.4.64".spec_bytes(),
            category: TransferSyntaxCategory::Legacy,
            compression: CompressionType::JPEG,
            is_little_endian: true,
            is_explicit_vr: true,
            supports_encapsulation: true,
        },
        TransferSyntaxProps {
            uid: "1.2.840.10008.1.2.4.65".spec_bytes(),
            category: TransferSyntaxCategory::Legacy,
            compression: CompressionType::JPEGLossless,
            is_little_endian: true,
            is_explicit_vr: true,
            supports_encapsulation: true,
        },
        TransferSyntaxProps {
            uid: "1.2.840.10008.1.2.4.66".spec_bytes(),
            category: TransferSyntaxCategory::Legacy,
            compression: CompressionType::JPEGLossless,
            is_little_endian: true,
            is_explicit_vr: true,
            supports_encapsulation: true,
        },
        TransferSyntaxProps {
            uid: "1.2.840.10008.1.2.4.70".spec_bytes(),
            category: TransferSyntaxCategory::LosslessCompressed,
            compression: CompressionType::JPEGLossless,
            is_little_endian: true,
            is_explicit_vr: true,
            supports_encapsulation: true,
        },
        TransferSyntaxProps {
            uid: "1.2.840.10008.1.2.4.80".spec_bytes(),
            category: TransferSyntaxCategory::LosslessCompressed,
            compression: CompressionType::JPEGLS,
            is_little_endian: true,
            is_explicit_vr: true,
            supports_encapsulation: true,
        },
        TransferSyntaxProps {
            uid: "1.2.840.10008.1.2.4.81".spec_bytes(),
            category: TransferSyntaxCategory::LossyCompressed,
            compression: CompressionType::JPEGLS,
            is_little_endian: true,
            is_explicit_vr: true,
            supports_encapsulation: true,
        },
        TransferSyntaxProps {
            uid: "1.2.840.10008.1.2.4.90".spec_bytes(),
            category: TransferSyntaxCategory::LosslessCompressed,
            compression: CompressionType::JPEG2000,
            is_little_endian: true,
            is_explicit_vr: true,
            supports_encapsulation: true,
        },
    ]
}

/// One stretch of the catalog, as properties.
pub open spec fn spec_ts_table_c() -> Seq<TransferSyntaxProps> {
    seq![
        TransferSyntaxProps {
            uid: "1.2.840.10008.1.2.4.91".spec_bytes(),
            category: TransferSyntaxCategory::LossyCompressed,
            compression: CompressionType::JPEG2000,
            is_little_endian: true,
            is_explicit_vr: true,
            supports_encapsulation: true,
        },
        TransferSyntaxProps {
            uid: "1.2.840.10008.1.2.4.92".spec_bytes(),
            category: TransferSyntaxCategory::LosslessCompressed,
            compression: CompressionType::JPEG2000,
            is_little_endian: true,
            is_explicit_vr: true,
            supports_encapsulation: true,
        },
        TransferSyntaxProps {
            uid: "1.2.840.10008.1.2.4.93".spec_bytes(),
            category: TransferSyntaxCategory::LossyCompressed,
            compression: CompressionType::JPEG2000,
            is_little_endian: true,
            is_explicit_vr: true,
            supports_encapsulation: true,
        },
        TransferSyntaxProps {
            uid: "1.2.840.10008.1.2.4.94".spec_bytes(),
            category: TransferSyntaxCategory::Legacy,
            compression: CompressionType::JPEG2000,
            is_little_endian: true,
            is_explicit_vr: true,
            supports_encapsulation: true,
        },
        TransferSyntaxProps {
            uid: "1.2.840.10008.1.2.4.95".spec_bytes(),
            category: TransferSyntaxCategory::Legacy,
            compression: CompressionType::JPEG2000,
            is_little_endian: true,
            is_explicit_vr: true,
            supports_encapsulation: true,
        },
        TransferSyntaxProps {
            uid: "1.2.840.10008.1.2.5".spec_bytes(),
            category: TransferSyntaxCategory::LosslessCompressed,
            compression: CompressionType::RLE,
            is_little_endian: true,
            is_explicit_vr: true,
            supports_encapsulation: true,
        },
        TransferSyntaxProps {
            uid: "1.2.840.10008.1.2.6.1".spec_bytes(),
            category: TransferSyntaxCategory::Legacy,
            compression: CompressionType::NoCompression,
            is_little_endian: true,
            is_explicit_vr: true,
            supports_encapsulation: false,
        },
        TransferSyntaxProps {
            uid: "1.2.840.10008.1.2.6.2".spec_bytes(),
            category: TransferSyntaxCategory::Legacy,
            compression: CompressionType::NoCompression,
            is_little_endian: true,
            is_explicit_vr: true,
            supports_encapsulation: false,
        },
        TransferSyntaxProps {
            uid: "1.2.840.10008.1.2.7.1".spec_bytes(),
            category: TransferSyntaxCategory::Video,
            compression: CompressionType::NoCompression,
            is_little_endian: true,
            is_explicit_vr: true,
            supports_encapsulation: true,
        },
        TransferSyntaxProps {
            uid: "1.2.840.10008.1.2.7.2".spec_bytes(),
            category: TransferSyntaxCategory::Video,
            compression: CompressionType::NoCompression,
            is_little_endian: true,
            is_explicit_vr: true,
            supports_encapsulation: true,
        },
        TransferSyntaxProps {
            uid: "1.2.840.10008.1.2.7.3".spec_bytes(),
            category: TransferSyntaxCategory::Video,
            compression: CompressionType::NoCompression,
            is_little_endian: true,
            is_explicit_vr: true,
            supports_encapsulation: true,
        },
        TransferSyntaxProps {
            uid: "1.2.840.10008.1.2.4.100".spec_bytes(),
            category: TransferSyntaxCategory::Video,
            compression: CompressionType::MPEG2,
            is_little_endian: true,
            is_explicit_vr: true,
            supports_encapsulation: true,
        },
    ]
}

/// One stretch of the catalog, as properties.
pub open spec fn spec_ts_table_d() -> Seq<TransferSyntaxProps> {
    seq![
        TransferSyntaxProps {
            uid: "1.2.840.10008.1.2.4.101".spec_bytes(),
            category: TransferSyntaxCategory::Video,
            compression: CompressionType::MPEG2,
            is_little_endian: true,
            is_explicit_vr: true,
            supports_encapsulation: true,
        },
        TransferSyntaxProps {
            uid: "1.2.840.10008.1.2.4.102".spec_bytes(),
            category: TransferSyntaxCategory::Video,
            compression: CompressionType::H264,
            is_little_endian: true,
            is_explicit_vr: true,
            supports_encapsulation: true,
        },
        TransferSyntaxProps {
            uid: "1.2.840.10008.1.2.4.103".spec_bytes(),
            category: TransferSyntaxCategory::Video,
            compression: CompressionType::H264,
            is_little_endian: true,
            is_explicit_vr: true,
            supports_encapsulation: true,
        },
        TransferSyntaxProps {
            uid: "1.2.840.10008.1.2.4.104".spec_bytes(),
            category: TransferSyntaxCategory::Video,
            compression: CompressionType::H264,
            is_little_endian: true,
            is_explicit_vr: true,
            supports_encapsulation: true,
        },
        TransferSyntaxProps {
            uid: "1.2.840.10008.1.2.4.105".spec_bytes(),
            category: TransferSyntaxCategory::Video,
            compression: CompressionType::H264,
            is_little_endian: true,
            is_explicit_vr: true,
            supports_encapsulation: true,
        },
        TransferSyntaxProps {
            uid: "1.2.840.10008.1.2.4.106".spec_bytes(),
            category: TransferSyntaxCategory::Video,
            compression: CompressionType::H264,
            is_little_endian: true,
            is_explicit_vr: true,
            supports_encapsulation: true,
        },
        TransferSyntaxProps {
            uid: "1.2.840.10008.1.2.4.107".spec_bytes(),
            category: TransferSyntaxCategory::Video,
            compression: CompressionType::H265,
            is_little_endian: true,
            is_explicit_vr: true,
            supports_encapsulation: true,
        },
        TransferSyntaxProps {
            uid: "1.2.840.10008.1.2.4.108".spec_bytes(),
            category: TransferSyntaxCategory::Video,
            compression: CompressionType::H265,
            is_little_endian: true,
            is_explicit_vr: true,
            supports_encapsulation: true,
        },
        TransferSyntaxProps {
            uid: "1.2.840.10008.1.2.4.201".spec_bytes(),
            category: TransferSyntaxCategory::LosslessCompressed,
            compression: CompressionType::JPEG2000,
            is_little_endian: true,
            is_explicit_vr: true,
            supports_encapsulation: true,
        },
        TransferSyntaxProps {
            uid: "1.2.840.10008.1.2.4.202".spec_bytes(),
            category: TransferSyntaxCategory::LosslessCompressed,
            compression: CompressionType::JPEG2000,
            is_little_endian: true,
            is_explicit_vr: true,
            supports_encapsulation: true,
        },
        TransferSyntaxProps {
            uid: "1.2.840.10008.1.2.4.203".spec_bytes(),
            category: TransferSyntaxCategory::LossyCompressed,
            compression: CompressionType::JPEG2000,
            is_little_endian: true,
            is_explicit_vr: true,
            supports_encapsulation: true,
        },
    ]
}

/// The whole catalog, as properties, in registration order.
pub open spec fn spec_ts_table() -> Seq<TransferSyntaxProps> {
    spec_ts_table_a() + spec_ts_table_b() + spec_ts_table_c() + spec_ts_table_d()
}

/// Every UID in the catalog, in registration order.
pub open spec fn spec_all_ts_uids() -> Seq<Seq<u8>> {
    spec_ts_table().map_values(|p: TransferSyntaxProps| p.uid)
}

#[verifier::rlimit(100)]
fn ts_entries_a() -> (r: Vec<TransferSyntaxInfo>)
    ensures
        r@.map_values(|c: TransferSyntaxInfo| spec_ts_props(c)) == spec_ts_table_a(),
{
    let mut v: Vec<TransferSyntaxInfo> = Vec::new();
    v.push(
    TransferSyntaxInfo::new(
                "1.2.840.10008.1.2",
                "Implicit VR Little Endian",
                TransferSyntaxCategory::Uncompressed,
                CompressionType::NoCompression,
                true,
                false,
                false,
            ),
    );
    v.push(
    TransferSyntaxInfo::new(
                "1.2.840.10008.1.2.1",
                "Explicit VR Little Endian",
                TransferSyntaxCategory::Uncompressed,
                CompressionType::NoCompression,
                true,
                true,
                false,
            ),
    );
    v.push(
    TransferSyntaxInfo::new(
                "1.2.840.10008.1.2.2",
                "Explicit VR Big Endian (Retired)",
                TransferSyntaxCategory::Legacy,
                CompressionType::NoCompression,
                false,
                true,
                false,
            ),
    );
    v.push(
    TransferSyntaxInfo::new(
                "1.2.840.10008.1.2.4.50",
                "JPEG Baseline (Process 1)",
                TransferSyntaxCategory::LossyCompressed,
                CompressionType::JPEG,
                true,
                true,
                true,
            ),
    );
    v.push(
    TransferSyntaxInfo::new(
                "1.2.840.10008.1.2.4.51",
                "JPEG Extended (Process 2 & 4)",
                TransferSyntaxCategory::LossyCompressed,
                CompressionType::JPEG,
                true,
                true,
                true,
            ),
    );
    v.push(
    TransferSyntaxInfo::new(
                "1.2.840.10008.1.2.4.52",
                "JPEG Extended (Process 3 & 5) (Retired)",
                TransferSyntaxCategory::Legacy,
                CompressionType::JPEG,
                true,
                true,
                true,
            ),
    );
    v.push(
    TransferSyntaxInfo::new(
                "1.2.840.10008.1.2.4.53",
                "JPEG Spectral Selection, Non-Hierarchical (Process 6 & 8) (Retired)",
                TransferSyntaxCategory::Legacy,
                CompressionType::JPEG,
                true,
                true,
                true,
            ),
    );
    v.push(
    TransferSyntaxInfo::new(
                "1.2.840.10008.1.2.4.54",
                "JPEG Spectral Selection, Non-Hierarchical (Process 7 & 9) (Retired)",
                TransferSyntaxCategory::Legacy,
                CompressionType::JPEG,
                true,
                true,
                true,
            ),
    );
    v.push(
    TransferSyntaxInfo::new(
                "1.2.840.10008.1.2.4.55",
                "JPEG Full Progression, Non-Hierarchical (Process 10 & 12) (Retired)",
                TransferSyntaxCategory::Legacy,
                CompressionType::JPEG,
                true,
                true,
                true,
            ),
    );
    v.push(
    TransferSyntaxInfo::new(
                "1.2.840.10008.1.2.4.56",
                "JPEG Full Progression, Non-Hierarchical (Process 11 & 13) (Retired)",
                TransferSyntaxCategory::Legacy,
                CompressionType::JPEG,
                true,
                true,
                true,
            ),
    );
    v.push(
    TransferSyntaxInfo::new(
                "1.2.840.10008.1.2.4.57",
                "JPEG Lossless, Non-Hierarchical (Process 14)",
                TransferSyntaxCategory::LosslessCompressed,
                CompressionType::JPEGLossless,
                true,
                true,
                true,
            ),
    );
    v.push(
    TransferSyntaxInfo::new(
                "1.2.840.10008.1.2.4.58",
                "JPEG Lossless, Non-Hierarchical (Process 15) (Retired)",
                TransferSyntaxCategory::Legacy,
                CompressionType::JPEGLossless,
                true,
                true,
                true,
            ),
    );
    assert(v@.map_values(|c: TransferSyntaxInfo| spec_ts_props(c)) =~= spec_ts_table_a());
    v
}

#[verifier::rlimit(100)]
fn ts_entries_b() -> (r: Vec<TransferSyntaxInfo>)
    ensures
        r@.map_values(|c: TransferSyntaxInfo| spec_ts_props(c)) == spec_ts_table_b(),
{
    let mut v: Vec<TransferSyntaxInfo> = Vec::new();
    v.push(
    TransferSyntaxInfo::new(
                "1.2.840.10008.1.2.4.59",
                "JPEG Extended, Hierarchical (Process 16 & 18) (Retired)",
                TransferSyntaxCategory::Legacy,
                CompressionType::JPEG,
                true,
                true,
                true,
            ),
    );
    v.push(
    TransferSyntaxInfo::new(
                "1.2.840.10008.1.2.4.60",
                "JPEG Extended, Hierarchical (Process 17 & 19) (Retired)",
                TransferSyntaxCategory::Legacy,
                CompressionType::JPEG,
                true,
                true,
                true,
            ),
    );
    v.push(
    TransferSyntaxInfo::new(
                "1.2.840.10008.1.2.4.61",
                "JPEG Spectral Selection, Hierarchical (Process 20 & 22) (Retired)",
                TransferSyntaxCategory::Legacy,
                CompressionType::JPEG,
                true,
                true,
                true,
            ),
    );
    v.push(
    TransferSyntaxInfo::new(
                "1.2.840.10008.1.2.4.62",
                "JPEG Spectral Selection, Hierarchical (Process 21 & 23) (Retired)",
                TransferSyntaxCategory::Legacy,
                CompressionType::JPEG,
                true,
                true,
                true,
            ),
    );
    v.push(
    TransferSyntaxInfo::new(
                "1.2.840.10008.1.2.4.63",
                "JPEG Full Progression, Hierarchical (Process 24 & 26) (Retired)",
                TransferSyntaxCategory::Legacy,
                CompressionType::JPEG,
                true,
                true,
                true,
            ),
    );
    v.push(
    TransferSyntaxInfo::new(
                "1.2.840.10008.1.2.4.64",
                "JPEG Full Progression, Hierarchical (Process 25 & 27) (Retired)",
                TransferSyntaxCategory::Legacy,
                CompressionType::JPEG,
                true,
                true,
                true,
            ),
    );
    v.push(
    TransferSyntaxInfo::new(
                "1.2.840.10008.1.2.4.65",
                "JPEG Lossless, Hierarchical (Process 28) (Retired)",
                TransferSyntaxCategory::Legacy,
                CompressionType::JPEGLossless,
                true,
                true,
                true,
            ),
    );
    v.push(
    TransferSyntaxInfo::new(
                "1.2.840.10008.1.2.4.66",
                "JPEG Lossless, Hierarchical (Process 29) (Retired)",
                TransferSyntaxCategory::Legacy,
                CompressionType::JPEGLossless,
                true,
                true,
                true,
            ),
    );
    v.push(
    TransferSyntaxInfo::new(
                "1.2.840.10008.1.2.4.70",
                "JPEG Lossless, Non-Hierarchical, First-Order Prediction (Process 14 [Selection Value 1])",
                TransferSyntaxCategory::LosslessCompressed,
                CompressionType::JPEGLossless,
                true,
                true,
                true,
            ),
    );
    v.push(
    TransferSyntaxInfo::new(
                "1.2.840.10008.1.2.4.80",
                "JPEG-LS Lossless Image Compression",
                TransferSyntaxCategory::LosslessCompressed,
                CompressionType::JPEGLS,
                true,
                true,
                true,
            ),
    );
    v.push(
    TransferSyntaxInfo::new(
                "1.2.840.10008.1.2.4.81",
                "JPEG-LS Lossy (Near-Lossless) Image Compression",
                TransferSyntaxCategory::LossyCompressed,
                CompressionType::JPEGLS,
                true,
                true,
                true,
            ),
    );
    v.push(
    TransferSyntaxInfo::new(
                "1.2.840.10008.1.2.4.90",
                "JPEG 2000 Image Compression (Lossless Only)",
                TransferSyntaxCategory::LosslessCompressed,
                CompressionType::JPEG2000,
                true,
                true,
                true,
            ),
    );
    assert(v@.map_values(|c: TransferSyntaxInfo| spec_ts_props(c)) =~= spec_ts_table_b());
    v
}

#[verifier::rlimit(100)]
fn ts_entries_c() -> (r: Vec<TransferSyntaxInfo>)
    ensures
        r@.map_values(|c: TransferSyntaxInfo| spec_ts_props(c)) == spec_ts_table_c(),
{
    let mut v: Vec<TransferSyntaxInfo> = Vec::new();
    v.push(
    TransferSyntaxInfo::new(
                "1.2.840.10008.1.2.4.91",
                "JPEG 2000 Image Compression",
                TransferSyntaxCategory::LossyCompressed,
                CompressionType::JPEG2000,
                true,
                true,
                true,
            ),
    );
    v.push(
    TransferSyntaxInfo::new(
                "1.2.840.10008.1.2.4.92",
                "JPEG 2000 Part 2 Multi-component Image Compression (Lossless Only)",
                TransferSyntaxCategory::LosslessCompressed,
                CompressionType::JPEG2000,
                true,
                true,
                true,
            ),
    );
    v.push(
    TransferSyntaxInfo::new(
                "1.2.840.10008.1.2.4.93",
                "JPEG 2000 Part 2 Multi-component Image Compression",
                TransferSyntaxCategory::LossyCompressed,
                CompressionType::JPEG2000,
                true,
                true,
                true,
            ),
    );
    v.push(
    TransferSyntaxInfo::new(
                "1.2.840.10008.1.2.4.94",
                "JPIP Referenced",
                TransferSyntaxCategory::Legacy,
                CompressionType::JPEG2000,
                true,
                true,
                true,
            ),
    );
    v.push(
    TransferSyntaxInfo::new(
                "1.2.840.10008.1.2.4.95",
                "JPIP Referenced Deflate",
                TransferSyntaxCategory::Legacy,
                CompressionType::JPEG2000,
                true,
                true,
                true,
            ),
    );
    v.push(
    TransferSyntaxInfo::new(
                "1.2.840.10008.1.2.5",
                "RLE Lossless",
                TransferSyntaxCategory::LosslessCompressed,
                CompressionType::RLE,
                true,
                true,
                true,
            ),
    );
    v.push(
    TransferSyntaxInfo::new(
                "1.2.840.10008.1.2.6.1",
                "RFC 2557 MIME encapsulation (Retired)",
                TransferSyntaxCategory::Legacy,
                CompressionType::NoCompression,
                true,
                true,
                false,
            ),
    );
    v.push(
    TransferSyntaxInfo::new(
                "1.2.840.10008.1.2.6.2",
                "XML Encoding (Retired)",
                TransferSyntaxCategory::Legacy,
                CompressionType::NoCompression,
                true,
                true,
                false,
            ),
    );
    v.push(
    TransferSyntaxInfo::new(
                "1.2.840.10008.1.2.7.1",
                "SMPTE ST 2110-20 Uncompressed Progressive Active Video",
                TransferSyntaxCategory::Video,
                CompressionType::NoCompression,
                true,
                true,
                true,
            ),
    );
    v.push(
    TransferSyntaxInfo::new(
                "1.2.840.10008.1.2.7.2",
                "SMPTE ST 2110-20 Uncompressed Interlaced Active Video",
                TransferSyntaxCategory::Video,
                CompressionType::NoCompression,
                true,
                true,
                true,
            ),
    );
    v.push(
    TransferSyntaxInfo::new(
                "1.2.840.10008.1.2.7.3",
                "SMPTE ST 2110-30 PCM Digital Audio",
                TransferSyntaxCategory::Video,
                CompressionType::NoCompression,
                true,
                true,
                true,
            ),
    );
    v.push(
    TransferSyntaxInfo::new(
                "1.2.840.10008.1.2.4.100",
                "MPEG2 Main Profile / Main Level",
                TransferSyntaxCategory::Video,
                CompressionType::MPEG2,
                true,
                true,
                true,
            ),
    );
    assert(v@.map_values(|c: TransferSyntaxInfo| spec_ts_props(c)) =~= spec_ts_table_c());
    v
}

#[verifier::rlimit(100)]
fn ts_entries_d() -> (r: Vec<TransferSyntaxInfo>)
    ensures
        r@.map_values(|c: TransferSyntaxInfo| spec_ts_props(c)) == spec_ts_table_d(),
{
    let mut v: Vec<TransferSyntaxInfo> = Vec::new();
    v.push(
    TransferSyntaxInfo::new(
                "1.2.840.10008.1.2.4.101",
                "MPEG2 Main Profile / High Level",
                TransferSyntaxCategory::Video,
                CompressionType::MPEG2,
                true,
                true,
                true,
            ),
    );
    v.push(
    TransferSyntaxInfo::new(
                "1.2.840.10008.1.2.4.102",
                "MPEG-4 AVC/H.264 High Profile / Level 4.1",
                TransferSyntaxCategory::Video,
                CompressionType::H264,
                true,
                true,
                true,
            ),
    );
    v.push(
    TransferSyntaxInfo::new(
                "1.2.840.10008.1.2.4.103",
                "MPEG-4 AVC/H.264 BD-compatible High Profile / Level 4.1",
                TransferSyntaxCategory::Video,
                CompressionType::H264,
                true,
                true,
                true,
            ),
    );
    v.push(
    TransferSyntaxInfo::new(
                "1.2.840.10008.1.2.4.104",
                "MPEG-4 AVC/H.264 High Profile / Level 4.2 For 2D Video",
                TransferSyntaxCategory::Video,
                CompressionType::H264,
                true,
                true,
                true,
            ),
    );
    v.push(
    TransferSyntaxInfo::new(
                "1.2.840.10008.1.2.4.105",
                "MPEG-4 AVC/H.264 High Profile / Level 4.2 For 3D Video",
                TransferSyntaxCategory::Video,
                CompressionType::H264,
                true,
                true,
                true,
            ),
    );
    v.push(
    TransferSyntaxInfo::new(
                "1.2.840.10008.1.2.4.106",
                "MPEG-4 AVC/H.264 Stereo High Profile / Level 4.2",
                TransferSyntaxCategory::Video,
                CompressionType::H264,
                true,
                true,
                true,
            ),
    );
    v.push(
    TransferSyntaxInfo::new(
                "1.2.840.10008.1.2.4.107",
                "HEVC/H.265 Main Profile / Level 5.1",
                TransferSyntaxCategory::Video,
                CompressionType::H265,
                true,
                true,
                true,
            ),
    );
    v.push(
    TransferSyntaxInfo::new(
                "1.2.840.10008.1.2.4.108",
                "HEVC/H.265 Main 10 Profile / Level 5.1",
                TransferSyntaxCategory::Video,
                CompressionType::H265,
                true,
                true,
                true,
            ),
    );
    v.push(
    TransferSyntaxInfo::new(
                "1.2.840.10008.1.2.4.201",
                "High-Throughput JPEG 2000 Image Compression (Lossless Only)",
                TransferSyntaxCategory::LosslessCompressed,
                CompressionType::JPEG2000,
                true,
                true,
                true,
            ),
    );
    v.push(
    TransferSyntaxInfo::new(
                "1.2.840.10008.1.2.4.202",
                "High-Throughput JPEG 2000 with RPCL Options Image Compression (Lossless Only)",
                TransferSyntaxCategory::LosslessCompressed,
                CompressionType::JPEG2000,
                true,
                true,
                true,
            ),
    );
    v.push(
    TransferSyntaxInfo::new(
                "1.2.840.10008.1.2.4.203",
                "High-Throughput JPEG 2000 Image Compression",
                TransferSyntaxCategory::LossyCompressed,
                CompressionType::JPEG2000,
                true,
                true,
                true,
            ),
    );
    assert(v@.map_values(|c: TransferSyntaxInfo| spec_ts_props(c)) =~= spec_ts_table_d());
    v
}

/// The registry of every transfer syntax in the catalog.
#[derive(Debug)]
pub struct TransferSyntaxRegistry {
    syntaxes: Vec<TransferSyntaxInfo>,
}

/// The first catalog entry whose UID reads as `uid`.
pub open spec fn spec_ts_lookup(s: Seq<TransferSyntaxInfo>, uid: Seq<u8>) -> Option<
    TransferSyntaxInfo,
>
    decreases s.len(),
{
    if s.len() == 0 {
        None
    } else if s[0].uid.spec_bytes() == uid {
        Some(s[0])
    } else {
        spec_ts_lookup(s.drop_first(), uid)
    }
}

impl TransferSyntaxRegistry {
    /// The catalog's entries, in registration order.
    pub closed spec fn entries(&self) -> Seq<TransferSyntaxInfo> {
        self.syntaxes@
    }

    /// The properties of each entry.
    pub open spec fn table(&self) -> Seq<TransferSyntaxProps> {
        self.entries().map_values(|c: TransferSyntaxInfo| spec_ts_props(c))
    }

    /// Builds the registry from the full catalog.
    #[verifier::rlimit(100)]
    pub fn new() -> (r: Self)
        ensures
            r.table() == spec_ts_table(),
    {
        let mut syntaxes = ts_entries_a();
        let mut part_b = ts_entries_b();
        syntaxes.append(&mut part_b);
        assert(syntaxes@.map_values(|c: TransferSyntaxInfo| spec_ts_props(c)) =~= spec_ts_table_a() + spec_ts_table_b());
        let mut part_c = ts_entries_c();
        syntaxes.append(&mut part_c);
        assert(syntaxes@.map_values(|c: TransferSyntaxInfo| spec_ts_props(c)) =~= spec_ts_table_a() + spec_ts_table_b() + spec_ts_table_c());
        let mut part_d = ts_entries_d();
        syntaxes.append(&mut part_d);
        assert(syntaxes@.map_values(|c: TransferSyntaxInfo| spec_ts_props(c)) =~= spec_ts_table_a() + spec_ts_table_b() + spec_ts_table_c() + spec_ts_table_d());
        let r = Self { syntaxes };
        assert(r.table() =~= spec_ts_table());
        r
    }

    /// The first entry whose UID matches, byte for byte.
    pub fn get(&self, uid: &str) -> (r: Option<&TransferSyntaxInfo>)
        ensures
            match r {
                Some(info) => spec_ts_lookup(self.entries(), uid.spec_bytes()) == Some(*info),
                None => spec_ts_lookup(self.entries(), uid.spec_bytes()) is None,
            },
    {
        let n = self.syntaxes.len();
        let mut i: usize = 0;
        assert(self.entries().subrange(0, n as int) =~= self.entries());
        while i < n
            invariant
                n == self.syntaxes@.len(),
                i <= n,
                spec_ts_lookup(self.entries(), uid.spec_bytes()) == spec_ts_lookup(
                    self.entries().subrange(i as int, n as int),
                    uid.spec_bytes(),
                ),
            decreases n - i,
        {
            let ghost suffix = self.entries().subrange(i as int, n as int);
            assert(suffix[0] == self.entries()[i as int]);
            if crate::uid::bytes_eq(self.syntaxes[i].uid.as_bytes(), uid.as_bytes()) {
                return Some(&self.syntaxes[i]);
            }
            proof {
                assert(suffix.drop_first() =~= self.entries().subrange(i + 1, n as int));
            }
            i = i + 1;
        }
        assert(self.entries().subrange(i as int, n as int) =~= Seq::<TransferSyntaxInfo>::empty());
        None
    }

    /// Every UID in the catalog, in registration order.
    pub fn get_all_uids(&self) -> (r: Vec<&'static str>)
        ensures
            r@.len() == self.entries().len(),
            forall|i: int|
                0 <= i < r@.len() ==> (#[trigger] r@[i]).spec_bytes()
                    == self.entries()[i].uid.spec_bytes(),
    {
        let mut r: Vec<&'static str> = Vec::new();
        let n = self.syntaxes.len();
        let mut i: usize = 0;
        while i < n
            invariant
                n == self.syntaxes@.len(),
                i <= n,
                r@.len() == i,
                forall|j: int|
                    0 <= j < i ==> (#[trigger] r@[j]).spec_bytes()
                        == self.entries()[j].uid.spec_bytes(),
            decreases n - i,
        {
            r.push(self.syntaxes[i].uid);
            i = i + 1;
        }
        r
    }

    /// The entries of one category, in registration order.
    pub fn get_by_category(&self, category: TransferSyntaxCategory) -> (r: Vec<
        TransferSyntaxInfo,
    >)
        ensures
            r@ == self.entries().filter(|c: TransferSyntaxInfo| c.category == category),
    {
        let mut r: Vec<TransferSyntaxInfo> = Vec::new();
        let n = self.syntaxes.len();
        let mut i: usize = 0;
        assert(self.entries().take(0) =~= Seq::<TransferSyntaxInfo>::empty());
        assert(r@ =~= self.entries().take(0).filter(
            |c: TransferSyntaxInfo| c.category == category,
        ));
        while i < n
            invariant
                n == self.syntaxes@.len(),
                i <= n,
                r@ == self.entries().take(i as int).filter(
                    |c: TransferSyntaxInfo| c.category == category,
                ),
            decreases n - i,
        {
            proof {
                reveal_with_fuel(Seq::filter, 2);
                assert(self.entries().take(i + 1).drop_last() =~= self.entries().take(i as int));
                assert(self.entries().take(i + 1).last() == self.entries()[i as int]);
            }
            if self.syntaxes[i].category == category {
                r.push(self.syntaxes[i]);
            }
            assert(r@ =~= self.entries().take(i + 1).filter(
                |c: TransferSyntaxInfo| c.category == category,
            ));
            i = i + 1;
        }
        assert(self.entries().take(n as int) =~= self.entries());
        r
    }

    /// The UIDs of the uncompressed entries.
    pub fn get_uncompressed(&self) -> (r: Vec<&'static str>)
        ensures
            r@.map_values(|s: &str| s.spec_bytes()) == self.entries().filter(
                |c: TransferSyntaxInfo| c.category == TransferSyntaxCategory::Uncompressed,
            ).map_values(|c: TransferSyntaxInfo| c.uid.spec_bytes()),
    {
        let matching = self.get_by_category(TransferSyntaxCategory::Uncompressed);
        uids_of(&matching)
    }

    /// The UIDs of the losslessly compressed entries.
    pub fn get_lossless_compressed(&self) -> (r: Vec<&'static str>)
        ensures
            r@.map_values(|s: &str| s.spec_bytes()) == self.entries().filter(
                |c: TransferSyntaxInfo| c.category == TransferSyntaxCategory::LosslessCompressed,
            ).map_values(|c: TransferSyntaxInfo| c.uid.spec_bytes()),
    {
        let matching = self.get_by_category(TransferSyntaxCategory::LosslessCompressed);
        uids_of(&matching)
    }

    /// The UIDs of the lossily compressed entries.
    pub fn get_lossy_compressed(&self) -> (r: Vec<&'static str>)
        ensures
            r@.map_values(|s: &str| s.spec_bytes()) == self.entries().filter(
                |c: TransferSyntaxInfo| c.category == TransferSyntaxCategory::LossyCompressed,
            ).map_values(|c: TransferSyntaxInfo| c.uid.spec_bytes()),
    {
        let matching = self.get_by_category(TransferSyntaxCategory::LossyCompressed);
        uids_of(&matching)
    }

    /// Whether the catalog holds this UID.
    pub fn is_supported(&self, uid: &str) -> (r: bool)
        ensures
            r == (spec_ts_lookup(self.entries(), uid.spec_bytes()) is Some),
    {
        self.get(uid).is_some()
    }

    /// The human name of the transfer syntax with this UID.
    pub fn get_name(&self, uid: &str) -> (r: Option<&'static str>)
        ensures
            match r {
                Some(name) => match spec_ts_lookup(self.entries(), uid.spec_bytes()) {
                    Some(info) => name.spec_bytes() == info.name.spec_bytes(),
                    None => false,
                },
                None => spec_ts_lookup(self.entries(), uid.spec_bytes()) is None,
            },
    {
        match self.get(uid) {
            Some(info) => Some(info.name),
            None => None,
        }
    }

    /// Whether the syntax with this UID compresses pixel data; an unknown
    /// UID counts as uncompressed.
    pub fn is_compressed(&self, uid: &str) -> (r: bool)
        ensures
            r == match spec_ts_lookup(self.entries(), uid.spec_bytes()) {
                Some(info) => info.compression != CompressionType::NoCompression,
                None => false,
            },
    {
        match self.get(uid) {
            Some(info) => info.is_compressed(),
            None => false,
        }
    }

    /// Whether the syntax with this UID carries encapsulated pixel data; an
    /// unknown UID counts as not encapsulated.
    pub fn requires_encapsulation(&self, uid: &str) -> (r: bool)
        ensures
            r == match spec_ts_lookup(self.entries(), uid.spec_bytes()) {
                Some(info) => info.supports_encapsulation,
                None => false,
            },
    {
        match self.get(uid) {
            Some(info) => info.supports_encapsulation,
            None => false,
        }
    }
}

impl Default for TransferSyntaxRegistry {
    /// The full catalog.
    fn default() -> (r: Self)
        ensures
            r.table() == spec_ts_table(),
    {
        Self::new()
    }
}

/// The UIDs of a run of entries, in order.
fn uids_of(entries: &Vec<TransferSyntaxInfo>) -> (r: Vec<&'static str>)
    ensures
        r@.map_values(|s: &str| s.spec_bytes()) == entries@.map_values(
            |c: TransferSyntaxInfo| c.uid.spec_bytes(),
        ),
{
    let mut r: Vec<&'static str> = Vec::new();
    let n = entries.len();
    let mut i: usize = 0;
    while i < n
        invariant
            n == entries@.len(),
            i <= n,
            r@.len() == i,
            forall|j: int|
                0 <= j < i ==> (#[trigger] r@[j]).spec_bytes()
                    == entries@[j].uid.spec_bytes(),
        decreases n - i,
    {
        r.push(entries[i].uid);
        i = i + 1;
    }
    assert(r@.map_values(|s: &str| s.spec_bytes()) =~= entries@.map_values(
        |c: TransferSyntaxInfo| c.uid.spec_bytes(),
    ));
    r
}

/// The basic proposal list: Explicit then Implicit VR Little Endian.
pub open spec fn spec_basic_ts_list() -> Seq<Seq<u8>> {
    seq![
        "1.2.840.10008.1.2.1".spec_bytes(),
        "1.2.840.10008.1.2".spec_bytes(),
    ]
}

/// The lossless proposal list.
pub open spec fn spec_lossless_ts_list() -> Seq<Seq<u8>> {
    seq![
        "1.2.840.10008.1.2.1".spec_bytes(),
        "1.2.840.10008.1.2".spec_bytes(),
        "1.2.840.10008.1.2.4.70".spec_bytes(),
        "1.2.840.10008.1.2.4.80".spec_bytes(),
        "1.2.840.10008.1.2.4.90".spec_bytes(),
        "1.2.840.10008.1.2.5".spec_bytes(),
    ]
}

/// The compressed proposal list for core imaging modalities.
pub open spec fn spec_compressed_ts_list() -> Seq<Seq<u8>> {
    seq![
        "1.2.840.10008.1.2.1".spec_bytes(),
        "1.2.840.10008.1.2".spec_bytes(),
        "1.2.840.10008.1.2.4.50".spec_bytes(),
        "1.2.840.10008.1.2.4.51".spec_bytes(),
        "1.2.840.10008.1.2.4.70".spec_bytes(),
        "1.2.840.10008.1.2.4.80".spec_bytes(),
        "1.2.840.10008.1.2.4.81".spec_bytes(),
        "1.2.840.10008.1.2.4.90".spec_bytes(),
        "1.2.840.10008.1.2.4.91".spec_bytes(),
        "1.2.840.10008.1.2.5".spec_bytes(),
    ]
}

/// The video transfer syntaxes, in registration order.
pub open spec fn spec_video_ts_list() -> Seq<Seq<u8>> {
    seq![
        "1.2.840.10008.1.2.7.1".spec_bytes(),
        "1.2.840.10008.1.2.7.2".spec_bytes(),
        "1.2.840.10008.1.2.7.3".spec_bytes(),
        "1.2.840.10008.1.2.4.100".spec_bytes(),
        "1.2.840.10008.1.2.4.101".spec_bytes(),
        "1.2.840.10008.1.2.4.102".spec_bytes(),
        "1.2.840.10008.1.2.4.103".spec_bytes(),
        "1.2.840.10008.1.2.4.104".spec_bytes(),
        "1.2.840.10008.1.2.4.105".spec_bytes(),
        "1.2.840.10008.1.2.4.106".spec_bytes(),
        "1.2.840.10008.1.2.4.107".spec_bytes(),
        "1.2.840.10008.1.2.4.108".spec_bytes(),
    ]
}

/// The basic proposal list: Explicit then Implicit VR Little Endian.
pub fn get_basic_transfer_syntaxes() -> (r: Vec<&'static str>)
    ensures
        r@.map_values(|s: &str| s.spec_bytes()) == spec_basic_ts_list(),
{
    let r: Vec<&'static str> = vec![
        "1.2.840.10008.1.2.1",
        "1.2.840.10008.1.2",
    ];
    assert(r@.map_values(|s: &str| s.spec_bytes()) =~= spec_basic_ts_list());
    r
}

/// The lossless proposal list.
pub fn get_lossless_transfer_syntaxes() -> (r: Vec<&'static str>)
    ensures
        r@.map_values(|s: &str| s.spec_bytes()) == spec_lossless_ts_list(),
{
    let r: Vec<&'static str> = vec![
        "1.2.840.10008.1.2.1",
        "1.2.840.10008.1.2",
        "1.2.840.10008.1.2.4.70",
        "1.2.840.10008.1.2.4.80",
        "1.2.840.10008.1.2.4.90",
        "1.2.840.10008.1.2.5",
    ];
    assert(r@.map_values(|s: &str| s.spec_bytes()) =~= spec_lossless_ts_list());
    r
}

/// The compressed proposal list for core imaging modalities.
pub fn get_compressed_transfer_syntaxes() -> (r: Vec<&'static str>)
    ensures
        r@.map_values(|s: &str| s.spec_bytes()) == spec_compressed_ts_list(),
{
    let r: Vec<&'static str> = vec![
        "1.2.840.10008.1.2.1",
        "1.2.840.10008.1.2",
        "1.2.840.10008.1.2.4.50",
        "1.2.840.10008.1.2.4.51",
        "1.2.840.10008.1.2.4.70",
        "1.2.840.10008.1.2.4.80",
        "1.2.840.10008.1.2.4.81",
        "1.2.840.10008.1.2.4.90",
        "1.2.840.10008.1.2.4.91",
        "1.2.840.10008.1.2.5",
    ];
    assert(r@.map_values(|s: &str| s.spec_bytes()) =~= spec_compressed_ts_list());
    r
}

/// The video transfer syntaxes, in registration order.
pub fn get_video_transfer_syntaxes() -> (r: Vec<&'static str>)
    ensures
        r@.map_values(|s: &str| s.spec_bytes()) == spec_video_ts_list(),
{
    let r: Vec<&'static str> = vec![
        "1.2.840.10008.1.2.7.1",
        "1.2.840.10008.1.2.7.2",
        "1.2.840.10008.1.2.7.3",
        "1.2.840.10008.1.2.4.100",
        "1.2.840.10008.1.2.4.101",
        "1.2.840.10008.1.2.4.102",
        "1.2.840.10008.1.2.4.103",
        "1.2.840.10008.1.2.4.104",
        "1.2.840.10008.1.2.4.105",
        "1.2.840.10008.1.2.4.106",
        "1.2.840.10008.1.2.4.107",
        "1.2.840.10008.1.2.4.108",
    ];
    assert(r@.map_values(|s: &str| s.spec_bytes()) =~= spec_video_ts_list());
    r
}

/// Every registered transfer syntax UID.
pub fn get_comprehensive_transfer_syntaxes() -> (r: Vec<&'static str>)
    ensures
        r@.map_values(|s: &str| s.spec_bytes()) == spec_all_ts_uids(),
{
    let registry = TransferSyntaxRegistry::new();
    let r = registry.get_all_uids();
    assert(r@.map_values(|s: &str| s.spec_bytes()) =~= spec_all_ts_uids());
    r
}

} // verus!
