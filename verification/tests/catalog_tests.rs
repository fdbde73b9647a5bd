use dicom_transfer::sop_classes::{
    get_default_transfer_syntaxes, get_extended_transfer_syntaxes, SopClassCategory,
    SopClassRegistry,
};
use dicom_transfer::transfer_syntaxes::{
    get_basic_transfer_syntaxes, get_compressed_transfer_syntaxes,
    get_comprehensive_transfer_syntaxes, get_lossless_transfer_syntaxes, TransferSyntaxCategory,
    TransferSyntaxRegistry,
};

#[test]
fn test_sop_class_registry() {
    let registry = SopClassRegistry::new();

    // Test basic lookups
    assert!(registry.is_supported("1.2.840.10008.5.1.4.1.1.2")); // CT
    assert!(registry.is_supported("1.2.840.10008.5.1.4.1.1.4")); // MR
    assert!(!registry.is_supported("invalid.uid"));

    // Test name lookup
    assert_eq!(
        registry.get_name("1.2.840.10008.5.1.4.1.1.2"),
        Some("CT Image Storage")
    );

    // Test category filtering
    let ct_classes = registry.get_by_category(SopClassCategory::ComputedTomography);
    assert!(!ct_classes.is_empty());

    // Test that we have a comprehensive list
    let all_uids = registry.get_all_uids();
    assert!(all_uids.len() > 100); // Should have many SOP classes
}

#[test]
fn test_transfer_syntaxes() {
    let basic = get_default_transfer_syntaxes();
    let extended = get_extended_transfer_syntaxes();

    assert!(!basic.is_empty());
    assert!(extended.len() > basic.len());

    // Basic should be subset of extended
    for ts in &basic {
        assert!(extended.contains(ts));
    }
}

#[test]
fn test_transfer_syntax_registry() {
    let registry = TransferSyntaxRegistry::new();

    // Test basic lookups
    assert!(registry.is_supported("1.2.840.10008.1.2"));
    assert!(registry.is_supported("1.2.840.10008.1.2.1"));
    assert!(!registry.is_supported("invalid.uid"));

    // Test name lookup
    assert_eq!(
        registry.get_name("1.2.840.10008.1.2"),
        Some("Implicit VR Little Endian")
    );

    // Test compression detection
    assert!(!registry.is_compressed("1.2.840.10008.1.2"));
    assert!(registry.is_compressed("1.2.840.10008.1.2.4.50"));

    // Test that we have a comprehensive list
    let all_uids = registry.get_all_uids();
    assert!(all_uids.len() > 30); // Should have many transfer syntaxes
}

#[test]
fn test_transfer_syntax_categories() {
    let basic = get_basic_transfer_syntaxes();
    let lossless = get_lossless_transfer_syntaxes();
    let compressed = get_compressed_transfer_syntaxes();
    let comprehensive = get_comprehensive_transfer_syntaxes();

    assert!(!basic.is_empty());
    assert!(lossless.len() > basic.len());
    assert!(compressed.len() > lossless.len());
    assert!(comprehensive.len() > compressed.len());

    // Basic should be subset of others
    for ts in &basic {
        assert!(lossless.contains(ts));
        assert!(compressed.contains(ts));
        assert!(comprehensive.contains(ts));
    }
}

#[test]
fn test_transfer_syntax_properties() {
    let registry = TransferSyntaxRegistry::new();

    // Test specific properties
    let explicit_vr = registry.get("1.2.840.10008.1.2.1").unwrap();
    assert!(explicit_vr.is_explicit_vr);
    assert!(explicit_vr.is_little_endian);
    assert!(!explicit_vr.is_compressed());

    let jpeg_baseline = registry.get("1.2.840.10008.1.2.4.50").unwrap();
    assert!(jpeg_baseline.is_compressed());
    assert!(!jpeg_baseline.is_lossless());
    assert!(jpeg_baseline.supports_encapsulation);
}

#[test]
fn test_category_policy_lists() {
    let registry = SopClassRegistry::new();
    let ct = registry.get("1.2.840.10008.5.1.4.1.1.2").unwrap();
    let ct_list = dicom_transfer::sop_classes::get_transfer_syntaxes_for_category(&ct.category);
    assert_eq!(ct_list, get_compressed_transfer_syntaxes());

    let enhanced = registry.get("1.2.840.10008.5.1.4.1.1.2.1").unwrap();
    let enhanced_list =
        dicom_transfer::sop_classes::get_transfer_syntaxes_for_category(&enhanced.category);
    assert_eq!(enhanced_list, get_comprehensive_transfer_syntaxes());

    let legacy_list = dicom_transfer::sop_classes::get_transfer_syntaxes_for_category(
        &SopClassCategory::Legacy,
    );
    assert_eq!(legacy_list, get_basic_transfer_syntaxes());

    let endoscopy_list = dicom_transfer::sop_classes::get_transfer_syntaxes_for_category(
        &SopClassCategory::Endoscopy,
    );
    let mut expected = get_compressed_transfer_syntaxes();
    expected.extend(dicom_transfer::transfer_syntaxes::get_video_transfer_syntaxes());
    assert_eq!(endoscopy_list, expected);

    let other_list = dicom_transfer::sop_classes::get_transfer_syntaxes_for_category(
        &SopClassCategory::Other,
    );
    assert_eq!(other_list, get_lossless_transfer_syntaxes());
}

#[test]
fn test_registry_category_uid_lists() {
    let registry = TransferSyntaxRegistry::new();
    let uncompressed = registry.get_uncompressed();
    assert!(uncompressed.contains(&"1.2.840.10008.1.2"));
    assert!(uncompressed.contains(&"1.2.840.10008.1.2.1"));
    assert!(!uncompressed.contains(&"1.2.840.10008.1.2.4.50"));

    let lossless = registry.get_lossless_compressed();
    assert!(lossless.contains(&"1.2.840.10008.1.2.5")); // RLE
    let lossy = registry.get_lossy_compressed();
    assert!(lossy.contains(&"1.2.840.10008.1.2.4.50")); // JPEG Baseline

    assert!(registry.requires_encapsulation("1.2.840.10008.1.2.4.90"));
    assert!(!registry.requires_encapsulation("1.2.840.10008.1.2"));
    assert!(!registry.requires_encapsulation("invalid.uid"));

    let video = registry.get_by_category(TransferSyntaxCategory::Video);
    assert_eq!(video.len(), 12);
}
