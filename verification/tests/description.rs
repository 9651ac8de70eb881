use std::sync::Arc;

use smithay_color::color_management::{
    Chromaticities, IccProfile, ImageDescription, ImageDescriptionInterner, Luminances,
    PrimariesDef, TransferFunctionDef,
};
use smithay_color::protocol::{Primaries, TransferFunction};

fn pq_bt2020() -> ImageDescription {
    ImageDescription {
        primaries: Some(PrimariesDef::Named(Primaries::Bt2020)),
        transfer_function: Some(TransferFunctionDef::Named(TransferFunction::St2084Pq)),
        luminances: Some(Luminances {
            min_lum: 5,           // 0.0005 cd/m² × 10,000
            max_lum: 10_000,
            reference_lum: 203,
        }),
        mastering_primaries: None,
        mastering_luminance: None,
        max_cll: None,
        max_fall: None,
        icc: None,
        windows_scrgb: false,
        identity: 0,
    }
}

#[test]
fn srgb_pre_populated_at_identity_one() {
    let interner = ImageDescriptionInterner::new();
    let srgb = interner.srgb_default();
    assert_eq!(srgb.identity, 1);
    assert_eq!(
        srgb.primaries,
        Some(PrimariesDef::Named(Primaries::Srgb))
    );
    assert!(srgb.is_parametric());
    assert!(!srgb.is_icc());
}

#[test]
fn intern_assigns_monotonic_identity() {
    let mut interner = ImageDescriptionInterner::new();
    let pq = interner.intern(pq_bt2020());
    assert_eq!(pq.identity, 2); // sRGB took 1
    assert_eq!(interner.len(), 2);
}

#[test]
fn intern_dedups_structurally_equal_descriptions() {
    let mut interner = ImageDescriptionInterner::new();
    let pq1 = interner.intern(pq_bt2020());
    let pq2 = interner.intern(pq_bt2020());
    assert_eq!(pq1.identity, pq2.identity);
    assert!(Arc::ptr_eq(&pq1, &pq2));
    assert_eq!(interner.len(), 2); // sRGB + PQ, not three
}

#[test]
fn intern_distinguishes_descriptions_differing_in_one_field() {
    let mut interner = ImageDescriptionInterner::new();
    let pq = interner.intern(pq_bt2020());
    let mut pq_with_cll = pq_bt2020();
    pq_with_cll.max_cll = Some(1000);
    let pq2 = interner.intern(pq_with_cll);
    assert_ne!(pq.identity, pq2.identity);
    assert_eq!(interner.len(), 3);
}

#[test]
fn intern_ignores_identity_field_on_input() {
    let mut interner = ImageDescriptionInterner::new();
    let mut pq = pq_bt2020();
    pq.identity = 999; // should be overwritten
    let handle = interner.intern(pq);
    assert_eq!(handle.identity, 2); // 2, not 999
}

#[test]
fn lookup_by_identity_returns_handle() {
    let mut interner = ImageDescriptionInterner::new();
    let pq = interner.intern(pq_bt2020());
    let looked_up = interner.lookup(pq.identity).expect("handle by identity");
    assert!(Arc::ptr_eq(&pq, &looked_up));
}

#[test]
fn lookup_missing_identity_returns_none() {
    let interner = ImageDescriptionInterner::new();
    assert!(interner.lookup(42).is_none());
}

#[test]
fn identity_split_is_high_then_low() {
    let mut desc = pq_bt2020();
    desc.identity = 0x0000_0001_0000_0002;
    let (hi, lo) = desc.identity_split();
    assert_eq!(hi, 1);
    assert_eq!(lo, 2);
}

#[test]
fn icc_descriptions_compare_byte_exact() {
    let icc_a = IccProfile {
        bytes: Arc::new(vec![0xDE, 0xAD, 0xBE, 0xEF]),
    };
    let icc_b = IccProfile {
        bytes: Arc::new(vec![0xDE, 0xAD, 0xBE, 0xEF]),
    };
    let icc_c = IccProfile {
        bytes: Arc::new(vec![0xDE, 0xAD, 0xBE, 0xF0]),
    };
    assert_eq!(icc_a, icc_b);
    assert_ne!(icc_a, icc_c);

    // Two ICC descriptions with byte-equal profiles dedup; differing bytes
    // produce distinct identities.
    let mut interner = ImageDescriptionInterner::new();
    let mut base = ImageDescription {
        primaries: None,
        transfer_function: None,
        luminances: None,
        mastering_primaries: None,
        mastering_luminance: None,
        max_cll: None,
        max_fall: None,
        icc: Some(icc_a),
        windows_scrgb: false,
        identity: 0,
    };
    let h1 = interner.intern(base.clone());
    let h2 = interner.intern(ImageDescription {
        icc: Some(icc_b),
        ..base.clone()
    });
    assert!(Arc::ptr_eq(&h1, &h2));

    base.icc = Some(icc_c);
    let h3 = interner.intern(base);
    assert_ne!(h1.identity, h3.identity);
}

#[test]
fn is_parametric_false_for_pure_icc() {
    let icc_only = ImageDescription {
        primaries: None,
        transfer_function: None,
        luminances: None,
        mastering_primaries: None,
        mastering_luminance: None,
        max_cll: None,
        max_fall: None,
        icc: Some(IccProfile {
            bytes: Arc::new(vec![0; 128]),
        }),
        windows_scrgb: false,
        identity: 0,
    };
    assert!(!icc_only.is_parametric());
    assert!(icc_only.is_icc());
}

#[test]
fn windows_scrgb_distinguishes_from_plain_srgb() {
    // windows_scrgb=true is its own description even with same other fields,
    // because the protocol carries semantics (extended-linear TF) that we
    // don't materialize into the explicit fields.
    let mut interner = ImageDescriptionInterner::new();
    let plain = interner.srgb_default();
    let scrgb = interner.intern(ImageDescription {
        primaries: Some(PrimariesDef::Named(Primaries::Srgb)),
        transfer_function: Some(TransferFunctionDef::Named(TransferFunction::Srgb)),
        luminances: None,
        mastering_primaries: None,
        mastering_luminance: None,
        max_cll: None,
        max_fall: None,
        icc: None,
        windows_scrgb: true,
        identity: 0,
    });
    assert_ne!(plain.identity, scrgb.identity);
}

#[test]
fn custom_primaries_distinguish_from_named() {
    let mut interner = ImageDescriptionInterner::new();
    let named = interner.intern(pq_bt2020());

    let mut custom_pq = pq_bt2020();
    custom_pq.primaries = Some(PrimariesDef::Custom(Chromaticities {
        r: (708_000, 292_000),
        g: (170_000, 797_000),
        b: (131_000, 46_000),
        w: (312_700, 329_000),
    }));
    let custom = interner.intern(custom_pq);
    assert_ne!(named.identity, custom.identity);
}

#[test]
fn interning_keeps_earlier_identities() {
    let mut interner = ImageDescriptionInterner::new();
    let pq = interner.intern(pq_bt2020());
    let mut last = pq.identity;
    for max_cll in [100, 200, 300] {
        let mut description = pq_bt2020();
        description.max_cll = Some(max_cll);
        let handle = interner.intern(description);
        assert_eq!(handle.identity, last + 1);
        last = handle.identity;
    }
    assert_eq!(interner.intern(pq_bt2020()).identity, 2);
    assert_eq!(interner.srgb_default().identity, 1);
    for identity in 1..=5 {
        assert_eq!(interner.lookup(identity).unwrap().identity, identity);
    }
    assert!(interner.lookup(0).is_none());
    assert!(interner.lookup(6).is_none());
}

#[test]
fn equality_leaves_the_identity_out() {
    let mut a = pq_bt2020();
    let b = a.clone();
    a.identity = 5;
    assert_eq!(a, b);
    a.max_fall = Some(1);
    assert_ne!(a, b);
}

#[test]
fn identity_halves_are_exact() {
    let mut description = pq_bt2020();
    description.identity = u64::MAX;
    assert_eq!(description.identity_split(), (u32::MAX, u32::MAX));
    description.identity = u64::from(u32::MAX);
    assert_eq!(description.identity_split(), (0, u32::MAX));
    description.identity = 1 << 32;
    assert_eq!(description.identity_split(), (1, 0));
}
