use slangmake::{Error, PermutationDefineKind, PermutationDefines};

#[test]
fn permutation_defines_push_and_iter() {
    let mut defs = PermutationDefines::new().unwrap();
    defs.push("ENABLE_X", PermutationDefineKind::Constant, &["0", "1"])
        .unwrap();
    defs.push(
        "MATERIAL_T",
        PermutationDefineKind::Type,
        &["Lambert", "Phong"],
    )
    .unwrap();
    assert_eq!(defs.len(), 2);

    let entries: Vec<_> = defs
        .iter()
        .into_iter()
        .map(|(n, k, v)| {
            (
                n.to_string(),
                k,
                v.iter().map(|s| s.to_string()).collect::<Vec<_>>(),
            )
        })
        .collect();
    assert_eq!(entries[0].0, "ENABLE_X");
    assert_eq!(entries[0].1, PermutationDefineKind::Constant);
    assert_eq!(entries[0].2, vec!["0", "1"]);
    assert_eq!(entries[1].0, "MATERIAL_T");
    assert_eq!(entries[1].1, PermutationDefineKind::Type);
}

#[test]
fn permutation_defines_start_empty() {
    let defs = PermutationDefines::new().unwrap();
    assert!(defs.is_empty());
    assert_eq!(defs.len(), 0);
    assert!(defs.iter().is_empty());
}

#[test]
fn permutation_defines_refuse_nul_in_name() {
    let mut defs = PermutationDefines::new().unwrap();
    defs.push("A", PermutationDefineKind::Constant, &["0"]).unwrap();
    let err = defs
        .push("B\0AD", PermutationDefineKind::Constant, &["0"])
        .unwrap_err();
    assert!(matches!(err, Error::StringNul));
    assert_eq!(defs.len(), 1);
}

#[test]
fn permutation_defines_refuse_nul_in_value_and_stay_unchanged() {
    let mut defs = PermutationDefines::new().unwrap();
    let err = defs
        .push("A", PermutationDefineKind::Type, &["ok", "b\0ad"])
        .unwrap_err();
    assert!(matches!(err, Error::StringNul));
    assert!(defs.is_empty());
}

#[test]
fn permutation_defines_keep_axis_with_no_values() {
    let mut defs = PermutationDefines::new().unwrap();
    defs.push("EMPTY", PermutationDefineKind::Constant, &[]).unwrap();
    let axes = defs.iter();
    assert_eq!(axes.len(), 1);
    assert_eq!(axes[0].0, "EMPTY");
    assert!(axes[0].2.is_empty());
    assert!(!defs.is_empty());
}
